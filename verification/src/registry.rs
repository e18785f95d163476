//! Library handle registries.
//!
//! A [`Library`] owns zero-or-one opened module handle, resolved from an
//! ordered, non-empty candidate list, and installs symbol addresses into
//! binding slots.  A [`CloseableLibrary`] additionally records every
//! installation in an undo log so that `close` can roll every bound slot
//! back to its pre-bind value and return the registry to the unopened
//! state.
//!
//! In a running binder the handle and the undo log sit behind one mutex
//! and are only mutated together, inside the same critical section; the
//! callers of this crate hold that lock around the operations here.  The
//! platform loader calls themselves (open, look up, close) are performed
//! by the caller, which feeds the outcomes back in as plain values.

use vstd::prelude::*;

use crate::error::DylinkError;
use crate::resolve::Attempt;
use crate::slots::LazyFn;
use crate::slots::SlotTable;
use crate::slots::spec_reset;
use crate::slots::spec_with_cell;

verus! {

/// Marker implemented by the registry types of this crate and nothing
/// else, so that interfaces constrained to registries stay closed.
pub trait Sealed {

}

/// One record of the undo log: which slot was bound, and the value its
/// cell held just before the bind.
#[derive(Debug)]
pub struct UndoEntry {
    /// The table index of the slot whose cell was written.
    pub slot: usize,
    /// The cell's value at the moment of installation — the placeholder
    /// on a first bind.
    pub prev: usize,
}

/// Every entry of the log names a slot inside the table.
pub open spec fn spec_undo_in(log: Seq<UndoEntry>, slots: Seq<LazyFn>) -> bool {
    forall|k: int| 0 <= k < log.len() ==> (#[trigger] log[k]).slot < slots.len()
}

/// One undo entry applied to a table: the named slot's cell is rolled
/// back to the recorded value and its guard is reset.
pub open spec fn spec_apply_entry(e: UndoEntry, slots: Seq<LazyFn>) -> Seq<LazyFn> {
    if e.slot < slots.len() {
        slots.update(e.slot as int, spec_reset(slots[e.slot as int], e.prev))
    } else {
        slots
    }
}

/// The whole undo log replayed over a table, in recorded order.
pub open spec fn spec_replay(log: Seq<UndoEntry>, slots: Seq<LazyFn>) -> Seq<LazyFn>
    decreases log.len(),
{
    if log.len() == 0 {
        slots
    } else {
        spec_replay(log.drop_first(), spec_apply_entry(log.first(), slots))
    }
}

/// Replaying a log entry by entry, in recorded order, is the same as
/// replaying all but the last entry and then applying the last one.
pub proof fn lemma_replay_snoc(log: Seq<UndoEntry>, e: UndoEntry, slots: Seq<LazyFn>)
    ensures
        spec_replay(log.push(e), slots) == spec_apply_entry(e, spec_replay(log, slots)),
    decreases log.len(),
{
    if log.len() == 0 {
        assert(log.push(e).first() == e);
        assert(log.push(e).drop_first() =~= Seq::<UndoEntry>::empty());
        assert(spec_replay(log.push(e), slots) == spec_replay(
            Seq::<UndoEntry>::empty(),
            spec_apply_entry(e, slots),
        ));
        assert(spec_replay(Seq::<UndoEntry>::empty(), spec_apply_entry(e, slots))
            == spec_apply_entry(e, slots));
    } else {
        assert(log.push(e).first() == log.first());
        assert(log.push(e).drop_first() =~= log.drop_first().push(e));
        lemma_replay_snoc(log.drop_first(), e, spec_apply_entry(log.first(), slots));
    }
}

/// A slot that no log entry names comes out of a close untouched.
pub proof fn lemma_replay_untouched(log: Seq<UndoEntry>, slots: Seq<LazyFn>, i: int)
    requires
        0 <= i < slots.len(),
        forall|k: int| 0 <= k < log.len() ==> (#[trigger] log[k]).slot != i,
    ensures
        spec_replay(log, slots)[i] == slots[i],
    decreases log.len(),
{
    if log.len() == 0 {
    } else {
        assert(log[0] == log.first());
        lemma_replay_untouched(log.drop_first(), spec_apply_entry(log.first(), slots), i);
    }
}

/// Close/reset round trip: a slot that exactly one log entry names is
/// restored exactly to that entry's recorded pre-bind value, and its
/// one-shot guard is reset, so the slot can be bound afresh.
pub proof fn lemma_replay_single_bind(log: Seq<UndoEntry>, slots: Seq<LazyFn>, k: int)
    requires
        0 <= k < log.len(),
        log[k].slot < slots.len(),
        forall|j: int| 0 <= j < log.len() && j != k ==> (#[trigger] log[j]).slot != log[k].slot,
    ensures
        spec_replay(log, slots)[log[k].slot as int] == spec_reset(
            slots[log[k].slot as int],
            log[k].prev,
        ),
    decreases k,
{
    let e = log.first();
    let s1 = spec_apply_entry(e, slots);
    if k == 0 {
        assert(log[0] == e);
        assert(s1[e.slot as int] == spec_reset(slots[e.slot as int], e.prev));
        assert forall|j: int| 0 <= j < log.drop_first().len() implies #[trigger] log.drop_first()[j].slot
            != e.slot by {
            assert(log.drop_first()[j] == log[j + 1]);
        }
        lemma_replay_untouched(log.drop_first(), s1, e.slot as int);
    } else {
        assert(log[0] == e);
        assert(e.slot != log[k].slot);
        assert(s1[log[k].slot as int] == slots[log[k].slot as int]);
        assert(log.drop_first()[k - 1] == log[k]);
        assert forall|j: int| 0 <= j < log.drop_first().len() && j != k - 1 implies #[trigger] log.drop_first()[j].slot
            != log.drop_first()[k - 1].slot by {
            assert(log.drop_first()[j] == log[j + 1]);
        }
        lemma_replay_single_bind(log.drop_first(), s1, k - 1);
    }
}

/// A lazily loaded library: an ordered, non-empty candidate list and the
/// module handle cached by the first candidate that opened.
///
/// The registry never releases its handle; a process-lifetime registry
/// simply keeps the loader's reference until exit.  An open failure is not
/// permanent here: as long as no candidate has ever opened, a later
/// attempt walks the candidate list again.
#[derive(Debug)]
pub struct Library {
    libs: Vec<String>,
    hlib: Option<usize>,
}

impl Sealed for Library {

}

impl Library {
    /// The candidate list, highest priority first.
    pub closed spec fn candidates(&self) -> Seq<String> {
        self.libs@
    }

    /// The cached module handle, if any candidate has opened.
    pub closed spec fn spec_handle(&self) -> Option<usize> {
        self.hlib
    }

    /// Whether a module handle is cached.
    pub open spec fn is_open(&self) -> bool {
        self.spec_handle() is Some
    }

    /// A registry is well-formed exactly when its candidate list is
    /// non-empty.
    pub open spec fn wf(&self) -> bool {
        self.candidates().len() > 0
    }

    /// Constructs a registry over `libs`, tried in order (index 0 is the
    /// highest priority).  An empty list is rejected here, at
    /// construction, never deferred into a silent always-fails state.
    pub fn new(libs: Vec<String>) -> (r: Result<Library, DylinkError>)
        ensures
            libs@.len() == 0 <==> r is Err,
            r matches Err(e) ==> e is EmptyCandidateList,
            r matches Ok(l) ==> l.wf() && l.candidates() == libs@ && !l.is_open(),
    {
        if libs.len() == 0 {
            Err(DylinkError::EmptyCandidateList)
        } else {
            Ok(Library { libs, hlib: None })
        }
    }

    /// The cached module handle, if any.
    pub fn handle(&self) -> (r: Option<usize>)
        ensures
            r == self.spec_handle(),
    {
        self.hlib
    }

    /// How many candidates the registry holds.
    pub fn candidate_count(&self) -> (n: usize)
        ensures
            n == self.candidates().len(),
    {
        self.libs.len()
    }

    /// Borrows the candidate at priority position `i`.
    pub fn candidate(&self, i: usize) -> (r: &String)
        requires
            i < self.candidates().len(),
        ensures
            *r == self.candidates()[i as int],
    {
        &self.libs[i]
    }

    /// The next candidate an open attempt should try: the highest-priority
    /// one not yet tried.  `None` once a handle is cached (nothing left to
    /// do) or once every candidate has been tried.
    pub fn next_candidate<'a>(&'a self, att: &Attempt) -> (r: Option<&'a String>)
        ensures
            r is Some <==> (!self.is_open() && att@.len() < self.candidates().len()),
            r matches Some(s) ==> *s == self.candidates()[att@.len() as int],
    {
        if self.hlib.is_some() {
            None
        } else {
            let i = att.tried();
            if i < self.libs.len() {
                Some(&self.libs[i])
            } else {
                None
            }
        }
    }

    /// Caches the handle of the candidate that opened.  From here on the
    /// registry is open for the rest of its lifetime (it is never
    /// released), and installs resolve against this handle.
    pub fn note_opened(&mut self, handle: usize)
        requires
            !old(self).is_open(),
        ensures
            final(self).spec_handle() == Some(handle),
            final(self).candidates() == old(self).candidates(),
    {
        self.hlib = Some(handle);
    }

    /// Installs a resolved address: swaps `addr` into the cell of the slot
    /// at `idx` and returns the cell's previous value, so the caller can
    /// tell a first bind (the placeholder comes back) from a rebind.
    pub fn install(&self, slots: &mut SlotTable, idx: usize, addr: usize) -> (prev: usize)
        requires
            self.is_open(),
            idx < old(slots)@.len(),
        ensures
            prev == old(slots)@[idx as int].cell,
            final(slots)@ == old(slots)@.update(
                idx as int,
                spec_with_cell(old(slots)@[idx as int], addr),
            ),
    {
        slots.swap_cell(idx, addr)
    }
}

/// A revocable registry: a [`Library`] plus the undo log of every
/// installation made through it.  `close` takes the handle back, replays
/// the log rolling every bound slot back to its pre-bind value, and
/// leaves the registry unopened and eligible for a fresh open.
///
/// The log refers to slots by table index; the caller must keep every
/// slot the log names alive in the table it passes to `close`.
#[derive(Debug)]
pub struct CloseableLibrary {
    lib: Library,
    ever_opened: bool,
    undo: Vec<UndoEntry>,
}

impl Sealed for CloseableLibrary {

}

impl CloseableLibrary {
    /// The candidate list, highest priority first.
    pub closed spec fn candidates(&self) -> Seq<String> {
        self.lib.candidates()
    }

    /// The cached module handle, if the registry is currently open.
    pub closed spec fn spec_handle(&self) -> Option<usize> {
        self.lib.spec_handle()
    }

    /// Whether a module handle is currently cached.
    pub open spec fn is_open(&self) -> bool {
        self.spec_handle() is Some
    }

    /// Whether the registry has ever been opened since construction.
    pub closed spec fn was_opened(&self) -> bool {
        self.ever_opened
    }

    /// The undo log, in recorded order.
    pub closed spec fn undo_log(&self) -> Seq<UndoEntry> {
        self.undo@
    }

    /// A registry is well-formed exactly when its candidate list is
    /// non-empty.
    pub open spec fn wf(&self) -> bool {
        self.candidates().len() > 0
    }

    /// Constructs a revocable registry over `libs`, tried in order.  An
    /// empty list is rejected here, at construction.
    pub fn new(libs: Vec<String>) -> (r: Result<CloseableLibrary, DylinkError>)
        ensures
            libs@.len() == 0 <==> r is Err,
            r matches Err(e) ==> e is EmptyCandidateList,
            r matches Ok(l) ==> l.wf() && l.candidates() == libs@ && !l.is_open()
                && !l.was_opened() && l.undo_log() == Seq::<UndoEntry>::empty(),
    {
        match Library::new(libs) {
            Err(e) => Err(e),
            Ok(lib) => Ok(CloseableLibrary { lib, ever_opened: false, undo: Vec::new() }),
        }
    }

    /// The cached module handle, if any.
    pub fn handle(&self) -> (r: Option<usize>)
        ensures
            r == self.spec_handle(),
    {
        self.lib.handle()
    }

    /// The next candidate an open attempt should try; see
    /// [`Library::next_candidate`].
    pub fn next_candidate<'a>(&'a self, att: &Attempt) -> (r: Option<&'a String>)
        ensures
            r is Some <==> (!self.is_open() && att@.len() < self.candidates().len()),
            r matches Some(s) ==> *s == self.candidates()[att@.len() as int],
    {
        self.lib.next_candidate(att)
    }

    /// Caches the handle of the candidate that opened.
    pub fn note_opened(&mut self, handle: usize)
        requires
            !old(self).is_open(),
        ensures
            final(self).spec_handle() == Some(handle),
            final(self).candidates() == old(self).candidates(),
            final(self).was_opened(),
            final(self).undo_log() == old(self).undo_log(),
    {
        self.lib.note_opened(handle);
        self.ever_opened = true;
    }

    /// Installs a resolved address exactly as [`Library::install`] does,
    /// and additionally appends to the undo log, in the same critical
    /// section, the slot's index and the cell value the installation
    /// displaced.
    pub fn install(&mut self, slots: &mut SlotTable, idx: usize, addr: usize) -> (prev: usize)
        requires
            old(self).is_open(),
            idx < old(slots)@.len(),
        ensures
            prev == old(slots)@[idx as int].cell,
            final(slots)@ == old(slots)@.update(
                idx as int,
                spec_with_cell(old(slots)@[idx as int], addr),
            ),
            final(self).undo_log() == old(self).undo_log().push(
                (UndoEntry { slot: idx, prev: prev }),
            ),
            final(self).spec_handle() == old(self).spec_handle(),
            final(self).candidates() == old(self).candidates(),
            final(self).was_opened() == old(self).was_opened(),
    {
        let prev = slots.swap_cell(idx, addr);
        self.undo.push(UndoEntry { slot: idx, prev: prev });
        prev
    }

    /// Whether every undo log entry names a slot inside `slots` — the
    /// condition `close` relies on.  A caller that keeps one table for the
    /// life of its slots and installs only into that table always passes.
    pub fn undo_within(&self, slots: &SlotTable) -> (b: bool)
        ensures
            b == spec_undo_in(self.undo_log(), slots@),
    {
        let bound = slots.len();
        let n = self.undo.len();
        let mut i: usize = 0;
        while i < n
            invariant
                i <= n,
                n == self.undo@.len(),
                bound == slots@.len(),
                forall|k: int| 0 <= k < i ==> (#[trigger] self.undo@[k]).slot < bound,
            decreases n - i,
        {
            if self.undo[i].slot >= bound {
                return false;
            }
            i = i + 1;
        }
        true
    }

    /// Closes the registry: takes the module handle back (returning it so
    /// the caller can release it through the platform loader), replays the
    /// undo log in recorded order rolling every bound slot's cell back to
    /// its pre-bind value and resetting its guard, discards the log, and
    /// leaves the registry unopened — eligible for a future fresh open.
    ///
    /// Fails with `NeverOpened` if no open ever succeeded, and with
    /// `AlreadyClosed` if the registry was opened and closed before; in
    /// both cases nothing is touched.
    pub fn close(&mut self, slots: &mut SlotTable) -> (r: Result<usize, DylinkError>)
        requires
            spec_undo_in(old(self).undo_log(), old(slots)@),
        ensures
            !old(self).is_open() && !old(self).was_opened() ==> (r matches Err(e)
                && e is NeverOpened && *final(self) == *old(self) && final(slots)@ == old(
            slots)@),
            !old(self).is_open() && old(self).was_opened() ==> (r matches Err(e)
                && e is AlreadyClosed && *final(self) == *old(self) && final(slots)@ == old(
            slots)@),
            old(self).is_open() ==> ({
                &&& r matches Ok(h) && old(self).spec_handle() == Some(h)
                &&& !final(self).is_open()
                &&& final(self).was_opened()
                &&& final(self).undo_log() == Seq::<UndoEntry>::empty()
                &&& final(self).candidates() == old(self).candidates()
                &&& final(slots)@ == spec_replay(old(self).undo_log(), old(slots)@)
            }),
    {
        match self.lib.handle() {
            None => if self.ever_opened {
                Err(DylinkError::AlreadyClosed)
            } else {
                Err(DylinkError::NeverOpened)
            },
            Some(h) => {
                let n = self.undo.len();
                let mut i: usize = 0;
                proof {
                    assert(self.undo@.take(0) =~= Seq::<UndoEntry>::empty());
                }
                while i < n
                    invariant
                        i <= n,
                        n == self.undo@.len(),
                        self.undo@ == old(self).undo_log(),
                        spec_undo_in(old(self).undo_log(), old(slots)@),
                        slots@ == spec_replay(old(self).undo_log().take(i as int), old(slots)@),
                        slots@.len() == old(slots)@.len(),
                    decreases n - i,
                {
                    let e_slot = self.undo[i].slot;
                    let e_prev = self.undo[i].prev;
                    proof {
                        assert(old(self).undo_log().take(i as int).push(
                            old(self).undo_log()[i as int],
                        ) =~= old(self).undo_log().take(i as int + 1));
                        lemma_replay_snoc(
                            old(self).undo_log().take(i as int),
                            old(self).undo_log()[i as int],
                            old(slots)@,
                        );
                    }
                    slots.reset_slot(e_slot, e_prev);
                    i = i + 1;
                }
                proof {
                    assert(old(self).undo_log().take(n as int) =~= old(self).undo_log());
                }
                self.undo.clear();
                self.lib.hlib = None;
                self.ever_opened = true;
                Ok(h)
            },
        }
    }
}

} // verus!

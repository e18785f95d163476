//! Per-symbol binding slots: the lazy binding engine's state.
//!
//! A [`LazyFn`] is the record kept for one declared foreign function.  It
//! holds the placeholder (trampoline) address installed at declaration
//! time, the pointer cell that call sites go through, and the one-shot
//! resolution outcome.  Resolution itself — asking the platform loader for
//! an address — happens outside this crate; the slot only decides whether
//! resolution is still needed, records the outcome exactly once, and
//! answers every later query from the cache.

use vstd::prelude::*;

use crate::error::DylinkError;

verus! {

/// Determines where a slot's symbol is looked up when it is resolved.
#[derive(Debug)]
pub enum LinkType {
    /// Resolve through the Vulkan loader's own entry-point query.  Vulkan
    /// functions are instance or device scoped and are not ordinary
    /// exported symbols, so the platform loader is bypassed.
    Vulkan,
    /// Resolve against an ordered list of library candidates, highest
    /// priority first, through the platform loader.
    System(Vec<String>),
}

/// The one-shot resolution outcome recorded in a binding slot.
#[derive(Debug)]
pub enum SlotState {
    /// The guard has not fired: no resolution has completed yet.
    Unresolved,
    /// Resolution succeeded and this address was installed in the cell.
    Resolved(usize),
    /// Resolution failed terminally; the error is returned identically to
    /// every later caller.  Only a close/undo resets it.
    Failed(DylinkError),
}

/// One binding slot: the per-declared-function state of the lazy binding
/// engine.
#[derive(Debug)]
pub struct LazyFn {
    /// The trampoline address the cell held before any bind.  A close/undo
    /// operation rolls the cell back to this value.
    pub placeholder: usize,
    /// The pointer cell that call sites load and call through.  In a
    /// running binder this is an atomic cell written with release ordering
    /// and read with acquire ordering.
    pub cell: usize,
    /// The one-shot guard together with the cached outcome: `Unresolved`
    /// means the guard has not fired, anything else is the permanent
    /// outcome.
    pub state: SlotState,
    /// The exported symbol name to resolve, which may differ from the
    /// source-level function name.
    pub fn_name: String,
    /// Where resolution looks this symbol up.
    pub link_ty: LinkType,
}

/// A slot needs resolution exactly while its one-shot guard has not fired.
pub open spec fn spec_needs_resolution(s: LazyFn) -> bool {
    s.state is Unresolved
}

/// The outcome a caller observes on a slot: `None` while the guard has not
/// fired, otherwise the one recorded outcome.
pub open spec fn spec_cached(s: LazyFn) -> Option<Result<usize, DylinkError>> {
    match s.state {
        SlotState::Unresolved => None,
        SlotState::Resolved(a) => Some(Ok(a)),
        SlotState::Failed(e) => Some(Err(e)),
    }
}

/// The slot after a successful resolution: the address is stored in the
/// cell and cached as the permanent outcome.
pub open spec fn spec_complete_success(s: LazyFn, addr: usize) -> LazyFn {
    LazyFn { cell: addr, state: SlotState::Resolved(addr), ..s }
}

/// The slot after a failed resolution: the error is cached as the
/// permanent outcome and the cell keeps the value it had.
pub open spec fn spec_complete_failure(s: LazyFn, err: DylinkError) -> LazyFn {
    LazyFn { state: SlotState::Failed(err), ..s }
}

/// The slot after a close/undo reset: the cell is rolled back to `prev`
/// and the guard may fire again.
pub open spec fn spec_reset(s: LazyFn, prev: usize) -> LazyFn {
    LazyFn { cell: prev, state: SlotState::Unresolved, ..s }
}

/// The slot with `addr` swapped into its cell and everything else kept.
pub open spec fn spec_with_cell(s: LazyFn, addr: usize) -> LazyFn {
    LazyFn { cell: addr, ..s }
}

impl LazyFn {
    /// Initializes a slot whose cell holds the placeholder `thunk` and
    /// whose guard has not fired.
    pub fn new(thunk: usize, fn_name: String, link_ty: LinkType) -> (s: LazyFn)
        ensures
            s.placeholder == thunk,
            s.cell == thunk,
            s.state is Unresolved,
            s.fn_name == fn_name,
            s.link_ty == link_ty,
    {
        LazyFn { placeholder: thunk, cell: thunk, state: SlotState::Unresolved, fn_name, link_ty }
    }

    /// Loads the value call sites currently go through: the placeholder
    /// before the first bind, the resolved address after it.
    pub fn load(&self) -> (r: usize)
        ensures
            r == self.cell,
    {
        self.cell
    }

    /// Consumes the slot and returns the contained cell value.
    pub fn into_inner(self) -> (r: usize)
        ensures
            r == self.cell,
    {
        self.cell
    }

    /// Answers from the cache: `None` while the slot still needs
    /// resolution, otherwise the one outcome recorded when the guard
    /// fired, identical for every caller.
    pub fn try_link(&self) -> (r: Option<Result<usize, &DylinkError>>)
        ensures
            r is None <==> spec_needs_resolution(*self),
            self.state matches SlotState::Resolved(a) ==> r == Some(Result::<usize,
                &DylinkError,
            >::Ok(a)),
            self.state matches SlotState::Failed(e) ==> (r matches Some(x) && x matches Err(p)
                && *p == e),
    {
        match &self.state {
            SlotState::Unresolved => None,
            SlotState::Resolved(a) => Some(Ok(*a)),
            SlotState::Failed(e) => Some(Err(e)),
        }
    }

    /// Fires the guard with a success: stores the resolved address into
    /// the cell (the release write) and caches it as the permanent
    /// outcome.  The guard must not have fired before.
    pub fn complete_success(&mut self, addr: usize)
        requires
            spec_needs_resolution(*old(self)),
        ensures
            *final(self) == spec_complete_success(*old(self), addr),
    {
        self.cell = addr;
        self.state = SlotState::Resolved(addr);
    }

    /// Fires the guard with a terminal failure: the error becomes the
    /// permanent outcome and the cell keeps its placeholder.  The guard
    /// must not have fired before.
    pub fn complete_failure(&mut self, err: DylinkError)
        requires
            spec_needs_resolution(*old(self)),
        ensures
            *final(self) == spec_complete_failure(*old(self), err),
    {
        self.state = SlotState::Failed(err);
    }

    /// Rolls the cell back to `prev` and lets the guard fire again.  Only
    /// a registry's close/undo path performs this.
    pub(crate) fn reset(&mut self, prev: usize)
        ensures
            *final(self) == spec_reset(*old(self), prev),
    {
        self.cell = prev;
        self.state = SlotState::Unresolved;
    }
}

/// Exactly-once resolution: firing the guard with a success makes the
/// outcome permanent.  The slot never needs resolution again, every later
/// caller observes the identical outcome, and the resolved address is the
/// value installed in the cell.
pub proof fn lemma_resolution_exactly_once(s: LazyFn, addr: usize)
    requires
        spec_needs_resolution(s),
    ensures
        !spec_needs_resolution(spec_complete_success(s, addr)),
        spec_cached(spec_complete_success(s, addr)) == Some(Result::<usize, DylinkError>::Ok(addr)),
        spec_complete_success(s, addr).cell == addr,
{
}

/// Idempotence of failure: firing the guard with a failure is just as
/// permanent.  The slot never retries, every later caller observes the
/// identical error, and the cell still holds the value it had — call
/// sites keep going through the placeholder.
pub proof fn lemma_failure_is_terminal(s: LazyFn, err: DylinkError)
    requires
        spec_needs_resolution(s),
    ensures
        !spec_needs_resolution(spec_complete_failure(s, err)),
        spec_cached(spec_complete_failure(s, err)) == Some(Result::<usize, DylinkError>::Err(err)),
        spec_complete_failure(s, err).cell == s.cell,
{
}

/// A table of binding slots, addressed by the index handed out when each
/// slot was added.  A registry's undo log refers to slots by these
/// indices, so a close can roll back every slot it bound without holding
/// references into the slots themselves.
#[derive(Debug)]
pub struct SlotTable {
    slots: Vec<LazyFn>,
}

impl View for SlotTable {
    type V = Seq<LazyFn>;

    closed spec fn view(&self) -> Seq<LazyFn> {
        self.slots@
    }
}

impl SlotTable {
    /// An empty table.
    pub fn new() -> (t: SlotTable)
        ensures
            t@ == Seq::<LazyFn>::empty(),
    {
        SlotTable { slots: Vec::new() }
    }

    /// Adds a slot and returns its index, by which registries and undo
    /// logs will refer to it.
    pub fn add(&mut self, slot: LazyFn) -> (idx: usize)
        ensures
            final(self)@ == old(self)@.push(slot),
            idx == old(self)@.len(),
    {
        let idx = self.slots.len();
        self.slots.push(slot);
        idx
    }

    /// How many slots the table holds.
    pub fn len(&self) -> (n: usize)
        ensures
            n == self@.len(),
    {
        self.slots.len()
    }

    /// Borrows the slot at `idx`.
    pub fn slot(&self, idx: usize) -> (r: &LazyFn)
        requires
            idx < self@.len(),
        ensures
            *r == self@[idx as int],
    {
        &self.slots[idx]
    }

    /// Borrows the slot at `idx` mutably; the table afterwards holds
    /// whatever the borrower made of it.
    pub fn slot_mut(&mut self, idx: usize) -> (r: &mut LazyFn)
        requires
            idx < old(self)@.len(),
        ensures
            *r == old(self)@[idx as int],
            final(self)@ == old(self)@.update(idx as int, *final(r)),
    {
        &mut self.slots[idx]
    }

    /// Swaps `addr` into the cell of the slot at `idx` and returns the
    /// cell's previous value, so the caller can tell a first bind from a
    /// rebind.
    pub(crate) fn swap_cell(&mut self, idx: usize, addr: usize) -> (prev: usize)
        requires
            idx < old(self)@.len(),
        ensures
            prev == old(self)@[idx as int].cell,
            final(self)@ == old(self)@.update(idx as int, spec_with_cell(old(self)@[idx as int], addr)),
    {
        let s = &mut self.slots[idx];
        let prev = s.cell;
        s.cell = addr;
        prev
    }

    /// Rolls the slot at `idx` back to `prev`: the close/undo path.
    pub(crate) fn reset_slot(&mut self, idx: usize, prev: usize)
        requires
            idx < old(self)@.len(),
        ensures
            final(self)@ == old(self)@.update(idx as int, spec_reset(old(self)@[idx as int], prev)),
    {
        let s = &mut self.slots[idx];
        s.reset(prev);
    }
}

} // verus!

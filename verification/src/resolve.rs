//! Candidate fallback and failure aggregation.
//!
//! The system resolution path walks an ordered candidate list, highest
//! priority first: the first candidate that yields the symbol wins and
//! resolution short-circuits; if every candidate fails, the failures are
//! aggregated, in candidate order, into one terminal error.  The walking
//! itself involves platform loader calls made by the caller; this module
//! holds the verified bookkeeping: which candidate is next, how failures
//! accumulate, and what the final outcome is.

use vstd::prelude::*;

use crate::error::DylinkError;

verus! {

/// What one candidate produced when it was tried: a resolved address, or
/// a description of why the candidate yielded nothing (it failed to open,
/// or it opened but lacked the symbol).
#[derive(Debug)]
pub enum CandidateOutcome {
    /// The candidate yielded the symbol at this address.
    Loaded(usize),
    /// The candidate yielded nothing; the description says why.
    NotLoaded(String),
}

/// The result of walking candidate outcomes in priority order: the first
/// address that loaded, or — when nothing loaded — every failure
/// description, in candidate order.
pub open spec fn spec_resolve(outs: Seq<CandidateOutcome>) -> Result<usize, Seq<String>>
    decreases outs.len(),
{
    if outs.len() == 0 {
        Err(Seq::<String>::empty())
    } else {
        match outs.first() {
            CandidateOutcome::Loaded(a) => Ok(a),
            CandidateOutcome::NotLoaded(m) => match spec_resolve(outs.drop_first()) {
                Ok(a) => Ok(a),
                Err(ms) => Err(seq![m] + ms),
            },
        }
    }
}

/// Judges one candidate's open attempt, as the platform loader reported
/// it: a handle means the candidate opened; anything else is that
/// candidate's failure, carrying the loader's own description.
pub fn judge_open(outcome: Result<usize, String>) -> (r: Result<usize, DylinkError>)
    ensures
        match outcome {
            Ok(h) => r matches Ok(v) && v == h,
            Err(m) => r matches Err(e) && e matches DylinkError::CandidateOpenFailed(m2) && m2
                == m,
        },
{
    match outcome {
        Ok(h) => Ok(h),
        Err(m) => Err(DylinkError::CandidateOpenFailed(m)),
    }
}

/// Judges a symbol lookup against an opened module: an address means the
/// symbol was found; no address means the module does not export it.
pub fn judge_symbol(name: String, found: Option<usize>) -> (r: Result<usize, DylinkError>)
    ensures
        match found {
            Some(a) => r matches Ok(v) && v == a,
            None => r matches Err(e) && e matches DylinkError::SymbolNotFound(n) && n == name,
        },
{
    match found {
        Some(a) => Ok(a),
        None => Err(DylinkError::SymbolNotFound(name)),
    }
}

/// One resolution attempt in progress: the failures recorded so far, in
/// candidate order.  The view is the sequence of recorded descriptions;
/// its length is how many candidates have been tried.
#[derive(Debug)]
pub struct Attempt {
    errors: Vec<String>,
}

impl View for Attempt {
    type V = Seq<String>;

    closed spec fn view(&self) -> Seq<String> {
        self.errors@
    }
}

impl Attempt {
    /// Starts an attempt with no candidate tried yet.
    pub fn begin() -> (a: Attempt)
        ensures
            a@ == Seq::<String>::empty(),
    {
        Attempt { errors: Vec::new() }
    }

    /// How many candidates have been tried and failed so far.
    pub fn tried(&self) -> (n: usize)
        ensures
            n == self@.len(),
    {
        self.errors.len()
    }

    /// Records that the next candidate failed, with its description.
    pub fn record_failure(&mut self, msg: String)
        ensures
            final(self)@ == old(self)@.push(msg),
    {
        self.errors.push(msg);
    }

    /// Every candidate failed: the attempt becomes the terminal error
    /// aggregating each candidate's failure, in the order they were
    /// recorded.
    pub fn into_exhausted(self) -> (e: DylinkError)
        ensures
            e matches DylinkError::AllCandidatesExhausted(v) && v@ == self@,
    {
        DylinkError::AllCandidatesExhausted(self.errors)
    }
}

/// Walks already-known candidate outcomes in priority order and returns
/// the first loaded address, or the aggregation of every failure when
/// nothing loaded.
pub fn resolve_candidates(outs: &Vec<CandidateOutcome>) -> (r: Result<usize, DylinkError>)
    ensures
        match spec_resolve(outs@) {
            Ok(a) => r matches Ok(v) && v == a,
            Err(ms) => r matches Err(e) && (e matches DylinkError::AllCandidatesExhausted(v)
                && v@ == ms),
        },
{
    let mut att = Attempt::begin();
    let n = outs.len();
    let mut i: usize = 0;
    proof {
        assert(outs@.skip(0) =~= outs@);
        assert forall|ms: Seq<String>| #[trigger] (Seq::<String>::empty() + ms) =~= ms by {}
    }
    while i < n
        invariant
            i <= n,
            n == outs@.len(),
            att@.len() == i,
            spec_resolve(outs@) == match spec_resolve(outs@.skip(i as int)) {
                Ok(a) => Result::<usize, Seq<String>>::Ok(a),
                Err(ms) => Result::<usize, Seq<String>>::Err(att@ + ms),
            },
        decreases n - i,
    {
        proof {
            assert(outs@.skip(i as int).first() == outs@[i as int]);
            assert(outs@.skip(i as int).drop_first() =~= outs@.skip(i as int + 1));
        }
        match &outs[i] {
            CandidateOutcome::Loaded(a) => {
                return Ok(*a);
            },
            CandidateOutcome::NotLoaded(m) => {
                let ghost pre = att@;
                att.record_failure(m.clone());
                proof {
                    assert forall|ms: Seq<String>| pre + (seq![outs@[i as int]->NotLoaded_0]
                        + ms) =~= att@ + ms by {}
                }
            },
        }
        i = i + 1;
    }
    proof {
        assert(outs@.skip(n as int) =~= Seq::<CandidateOutcome>::empty());
        assert(att@ + Seq::<String>::empty() =~= att@);
    }
    Err(att.into_exhausted())
}

/// Fallback correctness: when some candidate loads and every candidate
/// before it failed, resolution succeeds with that candidate's address —
/// the aggregated-failure outcome never surfaces, whatever stands after
/// the winning candidate.
pub proof fn lemma_first_success_wins(outs: Seq<CandidateOutcome>, i: int)
    requires
        0 <= i < outs.len(),
        outs[i] is Loaded,
        forall|j: int| 0 <= j < i ==> outs[j] is NotLoaded,
    ensures
        spec_resolve(outs) == Result::<usize, Seq<String>>::Ok(outs[i]->Loaded_0),
    decreases i,
{
    if i == 0 {
    } else {
        assert(outs.first() is NotLoaded);
        lemma_first_success_wins(outs.drop_first(), i - 1);
    }
}

/// Exhaustion aggregates every failure: when no candidate loads,
/// resolution fails with exactly one description per candidate, in
/// candidate order.
pub proof fn lemma_exhaustion_aggregates_all(outs: Seq<CandidateOutcome>)
    requires
        forall|j: int| 0 <= j < outs.len() ==> outs[j] is NotLoaded,
    ensures
        spec_resolve(outs) matches Err(ms) && ms.len() == outs.len() && (forall|j: int|
            0 <= j < outs.len() ==> ms[j] == outs[j]->NotLoaded_0),
    decreases outs.len(),
{
    if outs.len() == 0 {
    } else {
        lemma_exhaustion_aggregates_all(outs.drop_first());
    }
}

} // verus!

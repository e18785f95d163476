//! The error taxonomy of the binder.

use vstd::prelude::*;

verus! {

/// Everything that can go wrong while resolving a symbol, closing a
/// registry, or inspecting a binary image.
///
/// A binding slot's terminal error is permanent: it is returned identically
/// to every later caller until an explicit close/undo resets the slot.  A
/// registry's open failure is not permanent: a later install may retry the
/// candidate list as long as no open has ever succeeded.
#[derive(Debug)]
pub enum DylinkError {
    /// A registry was handed an empty candidate list at construction.
    /// Rejected immediately, so a registry can never sit in a silent
    /// always-fails state.
    EmptyCandidateList,
    /// One candidate's open attempt failed; carries the loader's own
    /// description of the failure.
    CandidateOpenFailed(String),
    /// Every candidate failed; carries each candidate's failure
    /// description, in candidate order (highest priority first).
    AllCandidatesExhausted(Vec<String>),
    /// A module was opened but the named symbol is not in it.
    SymbolNotFound(String),
    /// `close` was called on a registry that has never been opened.
    NeverOpened,
    /// `close` was called again after the registry was already closed.
    AlreadyClosed,
    /// The platform offers no primitive for the requested introspection.
    Unsupported,
    /// An image's leading bytes match no recognized header format.
    MalformedImage,
    /// No loaded image owns the given address, or an image's backing path
    /// cannot be recovered.
    NotFound,
}

} // verus!

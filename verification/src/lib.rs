//! Lazy, fallback-aware binding of foreign symbols.
//!
//! A program may declare calls to functions that live in shared libraries
//! which may or may not be present on the running machine.  This crate is
//! the verified core of such a binder:
//!
//! * a per-symbol binding slot ([`LazyFn`]) that turns a placeholder value
//!   into a resolved address exactly once and caches the outcome,
//! * candidate fallback ([`Attempt`], [`resolve_candidates`]): an ordered
//!   candidate list is walked highest priority first, the first success
//!   short-circuits, and total failure aggregates every candidate's
//!   failure in order,
//! * a library-handle registry ([`Library`]) that caches one opened module
//!   handle and installs symbol addresses into binding slots, and a
//!   revocable variant ([`CloseableLibrary`]) whose undo log lets a close
//!   roll every bound slot back to its pre-bind value,
//! * binary-image introspection: parsing the fixed-offset magic and size
//!   fields of ELF and Mach-O headers ([`header_size`]), and the
//!   decisions that recover an image's backing path.
//!
//! The operating system's loader (open a module, look a symbol up, close a
//! module, map an address back to its image) stays outside this crate:
//! callers perform those calls and feed the outcomes back in as plain
//! values, and every decision taken on those values is verified here.

mod error;
mod header;
mod image;
mod registry;
mod resolve;
mod slots;

pub use error::DylinkError;
pub use header::header_size;
pub use image::DlInfo;
pub use image::ImagePathSource;
pub use image::ModuleImage;
pub use image::classify_image_name;
pub use image::resolve_image_path;
pub use registry::CloseableLibrary;
pub use registry::Library;
pub use registry::Sealed;
pub use registry::UndoEntry;
pub use resolve::Attempt;
pub use resolve::CandidateOutcome;
pub use resolve::judge_open;
pub use resolve::judge_symbol;
pub use resolve::resolve_candidates;
pub use slots::LazyFn;
pub use slots::LinkType;
pub use slots::SlotState;
pub use slots::SlotTable;

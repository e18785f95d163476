//! Image introspection data and the decisions behind it.
//!
//! The platform's loader answers the raw questions (which loaded image
//! owns an address, what name the loader recorded for an image); the
//! verified functions here take those answers as plain values and decide
//! what they mean: whether an image is anonymous, is the main executable,
//! or carries a filesystem path.

use vstd::prelude::*;

use crate::error::DylinkError;

verus! {

/// A point-in-time record of one loaded image.  A snapshot is stale the
/// instant a module loads or unloads afterwards; nothing here is
/// recomputed on demand.
#[derive(Debug)]
pub struct ModuleImage {
    /// The image's base address.
    pub base: usize,
    /// The backing filesystem path, absent when the image cannot be
    /// named.
    pub path: Option<String>,
}

/// What an address resolved to when the loader was asked which symbol
/// and image own it.
#[derive(Debug)]
pub struct DlInfo {
    /// Path of the image that owns the address.
    pub dli_fname: String,
    /// Base address of that image.
    pub dli_fbase: usize,
    /// Name of the nearest symbol at or below the address.
    pub dli_sname: String,
    /// Exact address of that symbol.
    pub dli_saddr: usize,
}

/// Where an image's backing path comes from.
#[derive(Debug)]
pub enum ImagePathSource {
    /// The loader recorded no name at all: the image cannot be named.
    Unnamed,
    /// The loader recorded an empty name, which by convention stands for
    /// the running executable itself: the path is the process's own.
    MainExecutable,
    /// The loader recorded this filesystem path.
    Named(String),
}

/// Classifies the name the loader recorded for a loaded image, as the
/// image-list walk sees it: no name means an image that cannot be named,
/// an empty name means the main executable, anything else is the image's
/// path.
pub fn classify_image_name(name: Option<String>) -> (r: ImagePathSource)
    ensures
        match name {
            None => r is Unnamed,
            Some(p) => if p@.len() == 0 {
                r is MainExecutable
            } else {
                r matches ImagePathSource::Named(q) && q == p
            },
        },
{
    match name {
        None => ImagePathSource::Unnamed,
        Some(p) => {
            if p.as_str().unicode_len() == 0 {
                ImagePathSource::MainExecutable
            } else {
                ImagePathSource::Named(p)
            }
        },
    }
}

/// Decides an image's backing path from the loader's reverse lookup: the
/// looked-up path when the lookup succeeded; the process's own path when
/// the lookup failed but the image is the main executable (whose reverse
/// lookup is unavailable on some platforms); otherwise the path cannot be
/// recovered.
pub fn resolve_image_path(reverse_name: Option<String>, is_main_module: bool) -> (r: Result<
    ImagePathSource,
    DylinkError,
>)
    ensures
        match reverse_name {
            Some(p) => r matches Ok(s) && s matches ImagePathSource::Named(q) && q == p,
            None => if is_main_module {
                r matches Ok(s) && s is MainExecutable
            } else {
                r matches Err(e) && e is NotFound
            },
        },
{
    match reverse_name {
        Some(p) => Ok(ImagePathSource::Named(p)),
        None => {
            if is_main_module {
                Ok(ImagePathSource::MainExecutable)
            } else {
                Err(DylinkError::NotFound)
            }
        },
    }
}

} // verus!

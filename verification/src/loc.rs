use vstd::prelude::*;

verus! {

/// An opaque handle for a source location.
///
/// The upstream parser assigns a handle to every token it produces; this
/// crate never interprets the handle, it only carries it along and copies
/// it onto substituted tokens so that diagnostics raised against rewritten
/// expressions still point at the original source.
#[derive(Clone, Copy, PartialEq, Eq, Structural, Debug)]
pub struct Loc {
    pub id: u32,
}

impl Loc {
    /// A handle that points nowhere, used for tokens this crate invents
    /// (punctuation printed from a tree, which stores no location for it).
    pub fn none() -> (r: Loc)
        ensures
            r == (Loc { id: 0u32 }),
    {
        Loc { id: 0u32 }
    }
}

/// A located message, ready for the caller to render.
pub struct Diagnostic {
    pub span: Loc,
    pub message: String,
}

} // verus!

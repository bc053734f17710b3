//! The error kinds of the generator. Every failure propagates one of these;
//! nothing is retried or recovered internally.

use vstd::prelude::*;

verus! {

/// Why a generation run failed.
///
/// `InvalidInterface`: the interface description's shape is wrong (the
/// top-level value is not a sequence of object entries, or a required string
/// field of an included entry is missing).
/// `MalformedType`: a raw type string does not parse against the grammar; it
/// carries the offending string.
/// `FilterTypeError`: a formatting filter was applied to a non-string model
/// value. The typed model makes this unreachable, but it is a defined,
/// catchable condition rather than an unchecked fault.
/// `RenderError`: template expansion failed for structural reasons. The typed
/// renderer expands a well-formed model totally, so it too is unreachable.
#[derive(Debug, Clone, PartialEq, Eq)]
pub enum GenerationError {
    InvalidInterface,
    MalformedType(String),
    FilterTypeError,
    RenderError,
}

/// The spec-level shape of an error, with the offending string as a
/// character sequence.
pub ghost enum ErrView {
    InvalidInterface,
    MalformedType(Seq<char>),
    FilterTypeError,
    RenderError,
}

impl View for GenerationError {
    type V = ErrView;

    open spec fn view(&self) -> ErrView {
        match self {
            GenerationError::InvalidInterface => ErrView::InvalidInterface,
            GenerationError::MalformedType(s) => ErrView::MalformedType(s@),
            GenerationError::FilterTypeError => ErrView::FilterTypeError,
            GenerationError::RenderError => ErrView::RenderError,
        }
    }
}

} // verus!

//! Positions in the source text, and handles for what the caller keeps.

use vstd::prelude::*;

verus! {

/// A range of the source text, by byte offsets.
///
/// Comments are found by the offset at which a node begins, so a node that is to carry a
/// comment needs a `lo` of its own.
#[derive(Clone, Copy, Debug, PartialEq, Eq, Hash, Structural)]
pub struct Span {
    pub lo: u32,
    pub hi: u32,
}

impl Span {
    /// The span of a node that stands nowhere in the source text.
    pub open spec fn spec_dummy() -> Span {
        Span { lo: 0, hi: 0 }
    }

    /// The span of a node that stands nowhere in the source text.
    #[verifier::when_used_as_spec(spec_dummy)]
    pub fn dummy() -> (r: Span)
        ensures
            r == Span::spec_dummy(),
    {
        Span { lo: 0, hi: 0 }
    }

    /// The empty span at `pos`.
    pub open spec fn spec_at(pos: u32) -> Span {
        Span { lo: pos, hi: pos }
    }

    /// The empty span at `pos`.
    #[verifier::when_used_as_spec(spec_at)]
    pub fn at(pos: u32) -> (r: Span)
        ensures
            r == Span::spec_at(pos),
    {
        Span { lo: pos, hi: pos }
    }
}

/// A handle for a piece of syntax that the caller keeps in a table of its own.
///
/// This crate never looks inside such a piece: it moves the handle to where the piece
/// belongs in the result.
#[derive(Clone, Copy, Debug, PartialEq, Eq, Hash, Structural)]
pub struct NodeId(pub u64);

} // verus!

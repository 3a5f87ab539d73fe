//! The leaves of the syntax tree: identifiers and literals.

use vstd::prelude::*;
use crate::ast::span::Span;

verus! {

/// An identifier as it is written.
#[derive(Debug, PartialEq, Eq)]
pub struct Ident {
    pub span: Span,
    /// The name.
    pub sym: String,
    /// Whether a `?` follows the name, as in an optional parameter.
    pub optional: bool,
}

/// The value of [`Ident`] that contracts speak of.
#[verifier::ext_equal]
pub ghost struct IdentView {
    pub span: Span,
    pub sym: Seq<char>,
    pub optional: bool,
}

impl Ident {
    /// The value that `self` stands for.
    pub open spec fn model(self) -> IdentView {
        IdentView {
            span: self.span,
            sym: self.sym@,
            optional: self.optional,
        }
    }
}

impl View for Ident {
    type V = IdentView;

    open spec fn view(&self) -> IdentView {
        self.model()
    }
}

impl DeepView for Ident {
    type V = IdentView;

    open spec fn deep_view(&self) -> IdentView {
        self.model()
    }
}

impl Clone for Ident {
    fn clone(&self) -> (r: Self)
        ensures
            r@ == self@,
    {
        Ident {
            span: self.span,
            sym: self.sym.clone(),
            optional: self.optional,
        }
    }
}

/// A string literal.
#[derive(Debug, PartialEq, Eq)]
pub struct Str {
    pub span: Span,
    /// The string that the literal denotes.
    pub value: String,
    /// The literal as written, quotes included, where it is known.
    pub raw: Option<String>,
}

/// The value of [`Str`] that contracts speak of.
#[verifier::ext_equal]
pub ghost struct StrView {
    pub span: Span,
    pub value: Seq<char>,
    pub raw: Option<Seq<char>>,
}

impl Str {
    /// The value that `self` stands for.
    pub open spec fn model(self) -> StrView {
        StrView {
            span: self.span,
            value: self.value@,
            raw: match self.raw { Some(x) => Some(x@), None => None },
        }
    }
}

impl View for Str {
    type V = StrView;

    open spec fn view(&self) -> StrView {
        self.model()
    }
}

impl DeepView for Str {
    type V = StrView;

    open spec fn deep_view(&self) -> StrView {
        self.model()
    }
}

impl Clone for Str {
    fn clone(&self) -> (r: Self)
        ensures
            r@ == self@,
    {
        Str {
            span: self.span,
            value: self.value.clone(),
            raw: match &self.raw { Some(x) => Some(x.clone()), None => None },
        }
    }
}

/// A numeric literal.
#[derive(Debug, PartialEq, Eq)]
pub struct Number {
    pub span: Span,
    /// The value, as the bit pattern of an IEEE 754 double.
    pub bits: u64,
    /// The literal as written, where it is known.
    pub raw: Option<String>,
}

/// The value of [`Number`] that contracts speak of.
#[verifier::ext_equal]
pub ghost struct NumberView {
    pub span: Span,
    pub bits: u64,
    pub raw: Option<Seq<char>>,
}

impl Number {
    /// The value that `self` stands for.
    pub open spec fn model(self) -> NumberView {
        NumberView {
            span: self.span,
            bits: self.bits,
            raw: match self.raw { Some(x) => Some(x@), None => None },
        }
    }
}

impl View for Number {
    type V = NumberView;

    open spec fn view(&self) -> NumberView {
        self.model()
    }
}

impl DeepView for Number {
    type V = NumberView;

    open spec fn deep_view(&self) -> NumberView {
        self.model()
    }
}

impl Clone for Number {
    fn clone(&self) -> (r: Self)
        ensures
            r@ == self@,
    {
        Number {
            span: self.span,
            bits: self.bits,
            raw: match &self.raw { Some(x) => Some(x.clone()), None => None },
        }
    }
}

impl IdentView {
    /// The identifier `sym` at `span`, with no `?` after it.
    pub open spec fn new(sym: Seq<char>, span: Span) -> IdentView {
        IdentView { span, sym, optional: false }
    }
}

impl Ident {
    /// The identifier `sym` at `span`, with no `?` after it.
    pub fn new(sym: &str, span: Span) -> (r: Ident)
        ensures
            r@ == IdentView::new(sym@, span),
    {
        Ident { span, sym: sym.to_owned(), optional: false }
    }
}

impl StrView {
    /// The string literal that denotes `value` and was not read from any source text.
    pub open spec fn new(value: Seq<char>) -> StrView {
        StrView { span: Span::spec_dummy(), value, raw: None }
    }
}

impl Str {
    /// The string literal that denotes `value` and was not read from any source text.
    pub fn new(value: &str) -> (r: Str)
        ensures
            r@ == StrView::new(value@),
    {
        Str { span: Span::dummy(), value: value.to_owned(), raw: None }
    }
}

/// The bit that holds the sign of a double.
pub const SIGN_BIT: u64 = 0x8000_0000_0000_0000;

impl NumberView {
    /// The literal of the negated value, as one that was not read from any source text.
    pub open spec fn negated(self) -> NumberView {
        NumberView { span: Span::spec_dummy(), bits: self.bits ^ SIGN_BIT, raw: None }
    }
}

impl Number {
    /// The literal of the negated value, as one that was not read from any source text.
    ///
    /// Negating a double flips its sign bit and nothing else, so `-2` comes out of `2` and
    /// `2` out of `-2`.
    pub fn negated(&self) -> (r: Number)
        ensures
            r@ == self@.negated(),
    {
        Number { span: Span::dummy(), bits: self.bits ^ SIGN_BIT, raw: None }
    }
}

/// Negating twice gives the value back.
pub proof fn lemma_negated_twice(n: NumberView)
    ensures
        n.negated().negated().bits == n.bits,
{
    let b = n.bits;
    assert((b ^ 0x8000_0000_0000_0000u64) ^ 0x8000_0000_0000_0000u64 == b) by (bit_vector);
}

/// Negating changes the value.
pub proof fn lemma_negated_differs(n: NumberView)
    ensures
        n.negated().bits != n.bits,
{
    let b = n.bits;
    assert((b ^ 0x8000_0000_0000_0000u64) != b) by (bit_vector);
}

} // verus!

//! The one name that every part of the result agrees on.

use vstd::prelude::*;
use crate::ast::span::Span;
use crate::ast::token::{Ident, IdentView};

verus! {

/// The name of the type that holds the whole interface: `VSCodeAPI`.
pub open spec fn spec_vs_code_api_ident() -> IdentView {
    IdentView::new("VSCodeAPI"@, Span::spec_dummy())
}

/// The name of the type that holds the whole interface: `VSCodeAPI`.
pub fn vs_code_api_ident() -> (r: Ident)
    ensures
        r@ == spec_vs_code_api_ident(),
{
    Ident::new("VSCodeAPI", Span::dummy())
}

} // verus!

//! From the parameters of functions and the names of class members to what a signature
//! holds in their place.

use vstd::prelude::*;
use crate::ast::decl::{PropName, PropNameView};
use crate::ast::expr::{Expr, ExprView, Lit, LitView};
use crate::ast::pat::{
    Param, ParamOrTsParamProp, ParamOrTsParamPropView, ParamView, Pat, PatView, TsParamPropParam,
    TsParamPropParamView,
};
use crate::ast::span::Span;
use crate::ast::token::{Ident, IdentView};
use crate::ast::ts_type::{BindingIdent, BindingIdentView, TsFnParam, TsFnParamView};

verus! {

/// The parameter that stands in for a pattern that cannot be lowered: the name `sym`,
/// without a type.
pub open spec fn placeholder(sym: Seq<char>, span: Span) -> TsFnParamView {
    TsFnParamView::Ident(BindingIdentView { id: IdentView::new(sym, span), type_ann: None })
}

/// The parameter of a signature that `param` lowers to.
///
/// A name stays as it is, with its type. Destructuring and rest patterns stay as they are. A
/// pattern with a default value lowers as its left side does: a signature has no place for
/// the default. What the parser left as invalid becomes `__invalid__` at the same place, and
/// an expression in the place of a pattern becomes `__expr__`.
pub open spec fn spec_pat_to_ts_fn_param(param: PatView) -> TsFnParamView
    decreases param,
{
    match param {
        PatView::Ident(ident) => TsFnParamView::Ident(ident),
        PatView::Array(array) => TsFnParamView::Array(array),
        PatView::Rest(rest) => TsFnParamView::Rest(rest),
        PatView::Object(object) => TsFnParamView::Object(object),
        PatView::Assign(assign) => spec_pat_to_ts_fn_param(*assign.left),
        PatView::Invalid(span) => placeholder("__invalid__"@, span),
        PatView::Expr(_) => placeholder("__expr__"@, Span::spec_dummy()),
    }
}

/// The parameter of a signature that a constructor's parameter lowers to: a parameter
/// property lowers as the pattern that it binds.
pub open spec fn spec_param_or_ts_param_prop_to_ts_fn_param(
    p: ParamOrTsParamPropView,
) -> TsFnParamView {
    match p {
        ParamOrTsParamPropView::Param(param) => spec_pat_to_ts_fn_param(param.pat),
        ParamOrTsParamPropView::TsParamProp(prop) => match prop.param {
            TsParamPropParamView::Assign(assign) => spec_pat_to_ts_fn_param(*assign.left),
            TsParamPropParamView::Ident(ident) => TsFnParamView::Ident(ident),
        },
    }
}

/// The parameters of a signature that the parameters of a function lower to, one for one.
pub open spec fn spec_params_to_ts_fn_params(params: Seq<ParamView>) -> Seq<TsFnParamView> {
    Seq::new(params.len(), |i: int| spec_pat_to_ts_fn_param(params[i].pat))
}

/// The parameters of a signature that the parameters of a constructor lower to, one for
/// one.
pub open spec fn spec_constructor_params_to_ts_fn_params(
    params: Seq<ParamOrTsParamPropView>,
) -> Seq<TsFnParamView> {
    Seq::new(params.len(), |i: int| spec_param_or_ts_param_prop_to_ts_fn_param(params[i]))
}

/// The key of a signature that the name of a class member becomes.
pub open spec fn spec_prop_name_to_expr(prop_name: PropNameView) -> ExprView {
    match prop_name {
        PropNameView::BigInt(big_int) => ExprView::Lit(LitView::BigInt(big_int)),
        PropNameView::Ident(ident) => ExprView::Ident(ident),
        PropNameView::Str(str) => ExprView::Lit(LitView::Str(str)),
        PropNameView::Num(num) => ExprView::Lit(LitView::Num(num)),
        PropNameView::Computed(expr) => expr,
    }
}

/// Whether a name is written in square brackets.
pub open spec fn spec_is_computed(prop_name: PropNameView) -> bool {
    prop_name is Computed
}

/// Lowers a constructor's parameter to the parameter of a signature.
pub fn param_or_ts_param_prop_to_ts_fn_param(p: &ParamOrTsParamProp) -> (r: TsFnParam)
    ensures
        r@ == spec_param_or_ts_param_prop_to_ts_fn_param(p@),
{
    match p {
        ParamOrTsParamProp::Param(param) => pat_to_ts_fn_param(&param.pat),
        ParamOrTsParamProp::TsParamProp(ts_param_prop) => match &ts_param_prop.param {
            TsParamPropParam::Assign(assign_pat) => pat_to_ts_fn_param(&*assign_pat.left),
            TsParamPropParam::Ident(ident) => TsFnParam::Ident(ident.clone()),
        },
    }
}

/// Lowers a pattern to the parameter of a signature.
pub fn pat_to_ts_fn_param(param: &Pat) -> (r: TsFnParam)
    ensures
        r@ == spec_pat_to_ts_fn_param(param@),
    decreases param,
{
    match param {
        Pat::Ident(ident) => TsFnParam::Ident(ident.clone()),
        Pat::Array(array) => TsFnParam::Array(*array),
        Pat::Rest(rest) => TsFnParam::Rest(*rest),
        Pat::Object(object) => TsFnParam::Object(*object),
        Pat::Assign(assign) => pat_to_ts_fn_param(&*assign.left),
        Pat::Invalid(span) => TsFnParam::Ident(
            BindingIdent { id: Ident::new("__invalid__", *span), type_ann: None },
        ),
        Pat::Expr(_) => TsFnParam::Ident(
            BindingIdent { id: Ident::new("__expr__", Span::dummy()), type_ann: None },
        ),
    }
}

/// Lowers the parameters of a function, one for one.
pub fn params_to_ts_fn_params(params: &Vec<Param>) -> (r: Vec<TsFnParam>)
    ensures
        TsFnParam::models(r@) == spec_params_to_ts_fn_params(Param::models(params@)),
{
    let mut r: Vec<TsFnParam> = Vec::new();
    let mut i: usize = 0;
    while i < params.len()
        invariant
            i <= params.len(),
            r.len() == i,
            forall|j: int| 0 <= j < i ==> r[j]@ == spec_pat_to_ts_fn_param(params[j]@.pat),
        decreases params.len() - i,
    {
        r.push(pat_to_ts_fn_param(&params[i].pat));
        i += 1;
    }
    r
}

/// Lowers the parameters of a constructor, one for one.
pub fn constructor_params_to_ts_fn_params(params: &Vec<ParamOrTsParamProp>) -> (r: Vec<TsFnParam>)
    ensures
        TsFnParam::models(r@) == spec_constructor_params_to_ts_fn_params(
            ParamOrTsParamProp::models(params@),
        ),
{
    let mut r: Vec<TsFnParam> = Vec::new();
    let mut i: usize = 0;
    while i < params.len()
        invariant
            i <= params.len(),
            r.len() == i,
            forall|j: int|
                0 <= j < i ==> r[j]@ == spec_param_or_ts_param_prop_to_ts_fn_param(params[j]@),
        decreases params.len() - i,
    {
        r.push(param_or_ts_param_prop_to_ts_fn_param(&params[i]));
        i += 1;
    }
    r
}

/// The key of a signature for the name of a class member.
pub fn prop_name_to_expr(prop_name: &PropName) -> (r: Expr)
    ensures
        r@ == spec_prop_name_to_expr(prop_name@),
{
    match prop_name {
        PropName::BigInt(big_int) => Expr::Lit(Lit::BigInt(*big_int)),
        PropName::Ident(ident) => Expr::Ident(ident.clone()),
        PropName::Str(str) => Expr::Lit(Lit::Str(str.clone())),
        PropName::Num(num) => Expr::Lit(Lit::Num(num.clone())),
        PropName::Computed(computed) => computed.clone(),
    }
}

/// Whether a name is written in square brackets.
pub fn is_computed(prop_name: &PropName) -> (r: bool)
    ensures
        r == spec_is_computed(prop_name@),
{
    match prop_name {
        PropName::Computed(_) => true,
        _ => false,
    }
}

} // verus!

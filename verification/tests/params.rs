use vscode_api_gen::ast::expr::Expr;
use vscode_api_gen::ast::pat::{
    AssignPat, Param, ParamOrTsParamProp, Pat, TsParamProp, TsParamPropParam,
};
use vscode_api_gen::ast::span::{NodeId, Span};
use vscode_api_gen::ast::token::Ident;
use vscode_api_gen::ast::ts_type::{BindingIdent, TsFnParam, TsKeywordTypeKind, TsType};
use vscode_api_gen::fn_to_type::{param_or_ts_param_prop_to_ts_fn_param, pat_to_ts_fn_param};

fn binding(name: &str, ty: Option<TsType>) -> BindingIdent {
    BindingIdent {
        id: Ident { span: Span { lo: 3, hi: 7 }, sym: name.to_string(), optional: false },
        type_ann: ty,
    }
}

#[test]
fn a_name_is_kept_with_its_type() {
    let pat = Pat::Ident(
        binding("value", Some(TsType::Keyword(TsKeywordTypeKind::TsStringKeyword))),
    );
    let expected =
        TsFnParam::Ident(
            binding("value", Some(TsType::Keyword(TsKeywordTypeKind::TsStringKeyword))),
        );
    assert_eq!(pat_to_ts_fn_param(&pat), expected);
}

#[test]
fn a_default_value_is_dropped() {
    let pat = Pat::Assign(AssignPat {
        span: Span { lo: 1, hi: 9 },
        left: Box::new(Pat::Ident(binding("count", None))),
        right: Expr::Opaque(NodeId(4)),
    });
    assert_eq!(pat_to_ts_fn_param(&pat), TsFnParam::Ident(binding("count", None)));
}

#[test]
fn an_invalid_pattern_becomes_the_placeholder_at_its_place() {
    let got = pat_to_ts_fn_param(&Pat::Invalid(Span { lo: 11, hi: 12 }));
    let expected = TsFnParam::Ident(BindingIdent {
        id: Ident {
            span: Span { lo: 11, hi: 12 },
            sym: "__invalid__".to_string(),
            optional: false,
        },
        type_ann: None,
    });
    assert_eq!(got, expected);
}

#[test]
fn a_parameter_property_lowers_as_what_it_binds() {
    let p = ParamOrTsParamProp::TsParamProp(TsParamProp {
        span: Span { lo: 0, hi: 20 },
        readonly: true,
        param: TsParamPropParam::Ident(binding("x", None)),
    });
    assert_eq!(param_or_ts_param_prop_to_ts_fn_param(&p), TsFnParam::Ident(binding("x", None)));
    let q = ParamOrTsParamProp::Param(
        Param { span: Span { lo: 0, hi: 2 }, pat: Pat::Rest(NodeId(8)) },
    );
    assert_eq!(param_or_ts_param_prop_to_ts_fn_param(&q), TsFnParam::Rest(NodeId(8)));
}

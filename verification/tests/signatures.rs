use swc_common::Globals;
use vscode_api_gen::ast::decl::{
    Class, ClassDecl, ClassMember, ClassMethod, ClassProp, Constructor, FnDecl, Function, PropName,
    TsEnumDecl, TsEnumMember, TsEnumMemberId, TsInterfaceDecl, TsModuleName, TsTypeAliasDecl,
    VarDecl, VarDeclKind, VarDeclarator,
};
use vscode_api_gen::ast::expr::{Expr, Lit, UnaryOp};
use vscode_api_gen::ast::module::{Decl, ExportDecl, ModuleDecl, ModuleItem};
use vscode_api_gen::ast::pat::{Param, ParamOrTsParamProp, Pat};
use vscode_api_gen::ast::span::{NodeId, Span};
use vscode_api_gen::ast::token::{Ident, Number, Str};
use vscode_api_gen::ast::ts_type::{
    BindingIdent, TsConstructSignatureDecl, TsFnParam, TsKeywordTypeKind, TsLit, TsMethodSignature,
    TsPropertySignature, TsType, TsTypeElement, TsTypeParam, TsTypeParamDecl,
};
use vscode_api_gen::comments::{Comment, CommentKind, Registry};
use vscode_api_gen::pickup::{ResultDecl, ResultDeclWithComments, SubModule};
use vscode_api_gen::vs_code_api_type::{
    class_member_to_ts_type_element, enum_member_to_ts_type_element, enum_member_value,
    is_supported, module_item, module_item_at, positions_count, result_decl_vec_to_ts_type_at,
};

const NOWHERE: Span = Span { lo: 0, hi: 0 };

fn ident(name: &str) -> Ident {
    Ident { span: NOWHERE, sym: name.to_string(), optional: false }
}

fn keyword(kind: TsKeywordTypeKind) -> TsType {
    TsType::Keyword(kind)
}

fn string() -> TsType {
    keyword(TsKeywordTypeKind::TsStringKeyword)
}

fn number() -> TsType {
    keyword(TsKeywordTypeKind::TsNumberKeyword)
}

fn binding(name: &str, ty: Option<TsType>) -> BindingIdent {
    BindingIdent { id: ident(name), type_ann: ty }
}

fn num(value: f64) -> Number {
    Number { span: NOWHERE, bits: value.to_bits(), raw: None }
}

fn class(name: &str, type_params: Option<TsTypeParamDecl>, body: Vec<ClassMember>) -> ClassDecl {
    ClassDecl {
        ident: ident(name),
        declare: false,
        class: Class { span: NOWHERE, body, super_class: None, is_abstract: false, type_params },
    }
}

fn constructor(lo: u32, params: Vec<ParamOrTsParamProp>) -> ClassMember {
    ClassMember::Constructor(Constructor { span: Span { lo, hi: lo + 1 }, params })
}

fn prop(lo: u32, name: &str, ty: TsType, is_static: bool) -> ClassMember {
    ClassMember::ClassProp(ClassProp {
        span: Span { lo, hi: lo + 1 },
        key: PropName::Ident(ident(name)),
        type_ann: Some(ty),
        is_static,
        is_optional: false,
        readonly: false,
    })
}

fn function(params: Vec<Param>, return_type: Option<TsType>) -> Function {
    Function {
        params,
        span: NOWHERE,
        body: None,
        is_generator: false,
        is_async: false,
        type_params: None,
        return_type,
    }
}

fn param(name: &str, ty: TsType) -> Param {
    Param { span: NOWHERE, pat: Pat::Ident(binding(name, Some(ty))) }
}

fn property(span: Span, readonly: bool, key: &str, ty: Option<TsType>) -> TsTypeElement {
    TsTypeElement::TsPropertySignature(TsPropertySignature {
        span,
        readonly,
        key: Expr::Ident(ident(key)),
        computed: false,
        optional: false,
        type_ann: ty,
    })
}

fn at(pos: u32) -> Span {
    Span { lo: pos, hi: pos }
}

fn plain(decl: ResultDecl) -> ResultDeclWithComments {
    ResultDeclWithComments { comments: None, decl }
}

fn with_doc(text: &str, decl: ResultDecl) -> ResultDeclWithComments {
    ResultDeclWithComments {
        comments: Some(
            vec![
                Comment {
                    kind: CommentKind::Block,
                    span: Span { lo: 1, hi: 2 },
                    text: text.to_string(),
                },
            ],
        ),
        decl,
    }
}

fn texts_at(comments: &Registry, pos: u32) -> Option<Vec<String>> {
    comments.get_leading(pos).map(|found| found.into_iter().map(|c| c.text).collect())
}

fn foo() -> ClassDecl {
    class(
        "Foo",
        None,
        vec![
            constructor(
                30,
                vec![ParamOrTsParamProp::Param(param("bar0", string()))],
            ),
            prop(50, "bar", number(), false),
        ],
    )
}

fn foo_members() -> Vec<TsTypeElement> {
    vec![
        TsTypeElement::TsConstructSignatureDecl(TsConstructSignatureDecl {
            span: Span { lo: 30, hi: 31 },
            params: vec![TsFnParam::Ident(binding("bar0", Some(string())))],
            type_ann: Some(TsType::TypeRef { name: ident("Foo"), type_args: None }),
            type_params: None,
        }),
        property(Span { lo: 50, hi: 51 }, false, "bar", Some(number())),
    ]
}

fn api_type(positions_first: u32, members: Vec<TsTypeElement>) -> ModuleItem {
    ModuleItem::ModuleDecl(ModuleDecl::ExportDecl(ExportDecl {
        span: at(positions_first),
        decl: Decl::TsTypeAlias(TsTypeAliasDecl {
            span: NOWHERE,
            declare: false,
            id: ident("VSCodeAPI"),
            type_params: None,
            type_ann: TsType::TypeLit(members),
        }),
    }))
}

#[test]
fn a_class_with_a_constructor_and_a_property_end_to_end() {
    // type VSCodeAPI = { Foo: { new (bar0: string): Foo; bar: number } }
    let mut comments = Registry::new();
    let collected = vec![plain(ResultDecl::Class(foo()))];
    let got = module_item_at(&vec![1000, 1001], 0, &mut comments, &collected);
    let expected = api_type(
        1000,
        vec![property(at(1001), true, "Foo", Some(TsType::TypeLit(foo_members())))],
    );
    assert_eq!(got, expected);
    match got {
        ModuleItem::ModuleDecl(ModuleDecl::ExportDecl(ExportDecl {
            decl: Decl::TsTypeAlias(TsTypeAliasDecl { type_ann: TsType::TypeLit(outer), .. }),
            ..
        })) => {
            assert_eq!(outer.len(), 1);
            match &outer[0] {
                TsTypeElement::TsPropertySignature(TsPropertySignature {
                    type_ann: Some(TsType::TypeLit(members)),
                    ..
                }) => {
                    assert_eq!(members.len(), 2);
                    assert!(matches!(members[0], TsTypeElement::TsConstructSignatureDecl(_)));
                    assert!(matches!(members[1], TsTypeElement::TsPropertySignature(_)));
                }
                other => panic!("the class gave {:?}", other),
            }
        }
        other => panic!("the module item is {:?}", other),
    }
}

#[test]
fn the_nested_type_is_named_in_a_comment_before_it() {
    let mut comments = Registry::new();
    let _ = module_item_at(&vec![77], 0, &mut comments, &vec![]);
    let found = comments.get_leading(77).unwrap();
    assert_eq!(found.len(), 1);
    assert_eq!(found[0].kind, CommentKind::Block);
    assert_eq!(
        found[0].text,
        "*\n * Type Definition for Visual Studio Code 1.75 Extension API\n * See https://code.visualstudio.com/api for more information\n "
    );
}

#[test]
fn a_generic_class_is_made_with_its_own_parameters() {
    let type_params = TsTypeParamDecl {
        span: Span { lo: 4, hi: 10 },
        params: vec![
            TsTypeParam {
                span: Span { lo: 5, hi: 6 },
                name: ident("T"),
                is_in: false,
                is_out: false,
                is_const: false,
                constraint: Some(TsType::Opaque(NodeId(3))),
                default: None,
            },
            TsTypeParam {
                span: Span { lo: 8, hi: 9 },
                name: ident("U"),
                is_in: false,
                is_out: false,
                is_const: false,
                constraint: None,
                default: None,
            },
        ],
    };
    let member = constructor(12, vec![]);
    let got = class_member_to_ts_type_element(&member, &ident("Pair"), &Some(type_params.clone()));
    let expected = TsTypeElement::TsConstructSignatureDecl(TsConstructSignatureDecl {
        span: Span { lo: 12, hi: 13 },
        params: vec![],
        type_ann: Some(TsType::TypeRef {
            name: ident("Pair"),
            type_args: Some(vec![
                TsType::TypeRef { name: ident("T"), type_args: None },
                TsType::TypeRef { name: ident("U"), type_args: None },
            ]),
        }),
        type_params: Some(type_params),
    });
    assert_eq!(got, Some(expected));
}

#[test]
fn static_and_private_members_give_no_member() {
    let name = ident("C");
    let dropped = vec![
        prop(1, "shared", number(), true),
        ClassMember::Method(ClassMethod {
            span: Span { lo: 2, hi: 3 },
            key: PropName::Ident(ident("make")),
            function: function(vec![], None),
            is_static: true,
            is_optional: false,
        }),
        ClassMember::PrivateMethod,
        ClassMember::PrivateProp,
        ClassMember::TsIndexSignature,
        ClassMember::Empty,
        ClassMember::StaticBlock,
        ClassMember::AutoAccessor,
    ];
    for member in dropped.iter() {
        assert_eq!(class_member_to_ts_type_element(member, &name, &None), None);
    }
}

#[test]
fn a_method_keeps_name_parameters_result_and_question_mark() {
    let method = ClassMember::Method(ClassMethod {
        span: Span { lo: 20, hi: 40 },
        key: PropName::Ident(ident("show")),
        function: Function {
            params: vec![param("message", string())],
            span: NOWHERE,
            body: None,
            is_generator: false,
            is_async: false,
            type_params: Some(TsTypeParamDecl { span: NOWHERE, params: vec![] }),
            return_type: Some(keyword(TsKeywordTypeKind::TsVoidKeyword)),
        },
        is_static: false,
        is_optional: true,
    });
    let got = class_member_to_ts_type_element(&method, &ident("C"), &None);
    let expected = TsTypeElement::TsMethodSignature(TsMethodSignature {
        span: Span { lo: 20, hi: 40 },
        readonly: false,
        key: Expr::Ident(ident("show")),
        computed: false,
        optional: true,
        params: vec![TsFnParam::Ident(binding("message", Some(string())))],
        type_ann: Some(keyword(TsKeywordTypeKind::TsVoidKeyword)),
        type_params: Some(TsTypeParamDecl { span: NOWHERE, params: vec![] }),
    });
    assert_eq!(got, Some(expected));
}

#[test]
fn a_computed_name_is_marked_on_a_method() {
    let method = ClassMember::Method(ClassMethod {
        span: Span { lo: 20, hi: 40 },
        key: PropName::Computed(Expr::Opaque(NodeId(9))),
        function: function(vec![], None),
        is_static: false,
        is_optional: false,
    });
    match class_member_to_ts_type_element(&method, &ident("C"), &None) {
        Some(TsTypeElement::TsMethodSignature(signature)) => {
            assert!(signature.computed);
            assert_eq!(signature.key, Expr::Opaque(NodeId(9)));
        }
        other => panic!("the method gave {:?}", other),
    }
}

#[test]
fn a_class_of_which_no_member_converts_still_gives_its_property() {
    let mut comments = Registry::new();
    let collected = vec![
        with_doc(
            "kept",
            ResultDecl::Class(class("Empty", None, vec![prop(1, "s", number(), true)])),
        ),
        plain(ResultDecl::Class(class("Bare", None, vec![]))),
    ];
    assert_eq!(positions_count(&collected), Some(2));
    let got = result_decl_vec_to_ts_type_at(&collected, &vec![500, 501], 0, &mut comments);
    let expected = TsType::TypeLit(vec![
        property(at(500), true, "Empty", Some(TsType::TypeLit(vec![]))),
        property(at(501), true, "Bare", Some(TsType::TypeLit(vec![]))),
    ]);
    assert_eq!(got, expected);
    assert_eq!(texts_at(&comments, 500), Some(vec!["kept".to_string()]));
    assert_eq!(texts_at(&comments, 501), None);
}

#[test]
fn an_enum_keeps_the_sign_of_its_values() {
    // enum E { A = 1, B = -2 }
    let members = vec![
        TsEnumMember {
            span: Span { lo: 10, hi: 15 },
            id: TsEnumMemberId::Ident(ident("A")),
            init: Some(Expr::Lit(Lit::Num(num(1.0)))),
        },
        TsEnumMember {
            span: Span { lo: 17, hi: 23 },
            id: TsEnumMemberId::Ident(ident("B")),
            init: Some(Expr::Unary {
                op: UnaryOp::Minus,
                arg: Box::new(Expr::Lit(Lit::Num(num(2.0)))),
            }),
        },
    ];
    let decl = TsEnumDecl {
        span: NOWHERE,
        declare: false,
        is_const: false,
        id: ident("E"),
        members,
    };
    let mut comments = Registry::new();
    let got = result_decl_vec_to_ts_type_at(
        &vec![plain(ResultDecl::TsEnum(decl))],
        &vec![900],
        0,
        &mut comments,
    );
    let inner = match got {
        TsType::TypeLit(outer) => {
            assert_eq!(outer.len(), 1);
            match outer.into_iter().next().unwrap() {
                TsTypeElement::TsPropertySignature(TsPropertySignature {
                    span,
                    readonly: true,
                    key,
                    type_ann: Some(TsType::TypeLit(inner)),
                    ..
                }) => {
                    assert_eq!(span, at(900));
                    assert_eq!(key, Expr::Ident(ident("E")));
                    inner
                }
                other => panic!("the enum gave {:?}", other),
            }
        }
        other => panic!("not a type literal: {:?}", other),
    };
    assert_eq!(inner.len(), 2);
    let values: Vec<f64> = inner
        .iter()
        .map(|member| match member {
            TsTypeElement::TsPropertySignature(TsPropertySignature {
                readonly: true,
                type_ann: Some(TsType::Lit(TsLit::Number(n))),
                ..
            }) => f64::from_bits(n.bits),
            other => panic!("the member gave {:?}", other),
        })
        .collect();
    assert_eq!(values, vec![1.0, -2.0]);
    assert_eq!(
        inner[0],
        property(Span { lo: 10, hi: 15 }, true, "A", Some(TsType::Lit(TsLit::Number(num(1.0)))))
    );
    assert_eq!(
        inner[1],
        property(Span { lo: 17, hi: 23 }, true, "B", Some(TsType::Lit(TsLit::Number(num(-2.0)))))
    );
}

#[test]
fn negating_flips_the_sign_and_nothing_else() {
    assert_eq!(f64::from_bits(num(2.0).negated().bits), -2.0);
    assert_eq!(f64::from_bits(num(-2.0).negated().bits), 2.0);
    assert_eq!(f64::from_bits(num(0.5).negated().bits), -0.5);
    assert_eq!(num(0.0).negated().bits, (-0.0f64).to_bits());
    let written = Number {
        span: Span { lo: 3, hi: 4 },
        bits: 7.0f64.to_bits(),
        raw: Some("7".to_string()),
    };
    assert_eq!(written.negated(), Number { span: NOWHERE, bits: (-7.0f64).to_bits(), raw: None });
}

#[test]
fn an_enum_member_named_by_a_string_keeps_the_string() {
    let name = Str {
        span: Span { lo: 1, hi: 4 },
        value: "a-b".to_string(),
        raw: Some("'a-b'".to_string()),
    };
    let member = TsEnumMember {
        span: Span { lo: 1, hi: 8 },
        id: TsEnumMemberId::Str(name.clone()),
        init: Some(Expr::Lit(Lit::Num(Number {
            span: Span { lo: 7, hi: 8 },
            bits: 3.0f64.to_bits(),
            raw: Some("3".to_string()),
        }))),
    };
    let expected = TsTypeElement::TsPropertySignature(TsPropertySignature {
        span: Span { lo: 1, hi: 8 },
        readonly: true,
        key: Expr::Lit(Lit::Str(name)),
        computed: false,
        optional: false,
        type_ann: Some(TsType::Lit(TsLit::Number(Number {
            span: Span { lo: 7, hi: 8 },
            bits: 3.0f64.to_bits(),
            raw: Some("3".to_string()),
        }))),
    });
    assert_eq!(enum_member_to_ts_type_element(&member), expected);
}

#[test]
fn only_numbers_and_their_negations_are_enum_values() {
    assert_eq!(enum_member_value(&Some(Expr::Lit(Lit::Num(num(4.0))))), Some(num(4.0)));
    assert_eq!(enum_member_value(&None), None);
    assert_eq!(enum_member_value(&Some(Expr::Lit(Lit::Null))), None);
    assert_eq!(enum_member_value(&Some(Expr::Lit(Lit::Bool(true)))), None);
    assert_eq!(enum_member_value(&Some(Expr::Lit(Lit::BigInt(NodeId(1))))), None);
    assert_eq!(
        enum_member_value(
            &Some(Expr::Lit(Lit::Str(Str { span: NOWHERE, value: "s".to_string(), raw: None }))),
        ),
        None
    );
    assert_eq!(enum_member_value(&Some(Expr::Opaque(NodeId(2)))), None);
    let plus = Expr::Unary { op: UnaryOp::Plus, arg: Box::new(Expr::Lit(Lit::Num(num(4.0)))) };
    assert_eq!(enum_member_value(&Some(plus)), None);
    let minus_name = Expr::Unary { op: UnaryOp::Minus, arg: Box::new(Expr::Ident(ident("x"))) };
    assert_eq!(enum_member_value(&Some(minus_name)), None);
}

fn two_bindings(kind: VarDeclKind) -> VarDecl {
    VarDecl {
        span: NOWHERE,
        kind,
        declare: true,
        decls: vec![
            VarDeclarator {
                span: NOWHERE,
                name: Pat::Ident(binding("a", Some(string()))),
                init: None,
                definite: false,
            },
            VarDeclarator {
                span: NOWHERE,
                name: Pat::Ident(binding("b", Some(number()))),
                init: None,
                definite: false,
            },
        ],
    }
}

#[test]
fn a_const_declaration_gives_a_readonly_property_for_each_binding() {
    // const a: string, b: number
    let mut comments = Registry::new();
    let collected = vec![plain(ResultDecl::Var(two_bindings(VarDeclKind::Const)))];
    assert_eq!(positions_count(&collected), Some(2));
    let got = result_decl_vec_to_ts_type_at(&collected, &vec![11, 12], 0, &mut comments);
    let expected = TsType::TypeLit(vec![
        property(at(11), true, "a", Some(string())),
        property(at(12), true, "b", Some(number())),
    ]);
    assert_eq!(got, expected);
}

#[test]
fn let_and_var_give_properties_that_can_be_written() {
    for kind in [VarDeclKind::Let, VarDeclKind::Var] {
        let mut comments = Registry::new();
        let collected = vec![plain(ResultDecl::Var(two_bindings(kind)))];
        let got = result_decl_vec_to_ts_type_at(&collected, &vec![11, 12], 0, &mut comments);
        let expected = TsType::TypeLit(vec![
            property(at(11), false, "a", Some(string())),
            property(at(12), false, "b", Some(number())),
        ]);
        assert_eq!(got, expected);
    }
}

#[test]
fn the_comments_of_a_variable_declaration_stand_before_each_binding() {
    let mut comments = Registry::new();
    let collected = vec![with_doc("both", ResultDecl::Var(two_bindings(VarDeclKind::Const)))];
    let _ = result_decl_vec_to_ts_type_at(&collected, &vec![11, 12], 0, &mut comments);
    assert_eq!(texts_at(&comments, 11), Some(vec!["both".to_string()]));
    assert_eq!(texts_at(&comments, 12), Some(vec!["both".to_string()]));
}

#[test]
fn a_function_gives_a_method() {
    let decl = FnDecl {
        ident: ident("open"),
        declare: true,
        function: Function {
            params: vec![
                param("path", string()),
                Param { span: NOWHERE, pat: Pat::Rest(NodeId(5)) },
            ],
            span: Span { lo: 3, hi: 30 },
            body: None,
            is_generator: false,
            is_async: false,
            type_params: None,
            return_type: Some(TsType::Opaque(NodeId(6))),
        },
    };
    let mut comments = Registry::new();
    let got = result_decl_vec_to_ts_type_at(
        &vec![with_doc("opens", ResultDecl::Fn(decl))],
        &vec![8, 42],
        1,
        &mut comments,
    );
    let expected = TsType::TypeLit(vec![TsTypeElement::TsMethodSignature(TsMethodSignature {
        span: at(42),
        readonly: false,
        key: Expr::Ident(ident("open")),
        computed: false,
        optional: false,
        params: vec![TsFnParam::Ident(binding("path", Some(string()))), TsFnParam::Rest(NodeId(5))],
        type_ann: Some(TsType::Opaque(NodeId(6))),
        type_params: None,
    })]);
    assert_eq!(got, expected);
    assert_eq!(texts_at(&comments, 42), Some(vec!["opens".to_string()]));
    assert_eq!(texts_at(&comments, 8), None);
}

#[test]
fn interfaces_and_type_aliases_give_no_member() {
    let mut comments = Registry::new();
    let collected = vec![
        with_doc(
            "i",
            ResultDecl::TsInterface(
                TsInterfaceDecl { span: NOWHERE, id: ident("I"), node: NodeId(1) },
            ),
        ),
        with_doc(
            "t",
            ResultDecl::TsTypeAlias(TsTypeAliasDecl {
                span: NOWHERE,
                declare: false,
                id: ident("T"),
                type_params: None,
                type_ann: string(),
            }),
        ),
    ];
    assert_eq!(positions_count(&collected), Some(0));
    let got = result_decl_vec_to_ts_type_at(&collected, &vec![], 0, &mut comments);
    assert_eq!(got, TsType::TypeLit(vec![]));
}

fn nested() -> Vec<ResultDeclWithComments> {
    let inner = SubModule {
        name: TsModuleName::Ident(ident("env")),
        decl_vec: vec![
            with_doc("first inside", ResultDecl::Var(two_bindings(VarDeclKind::Const))),
            with_doc("second inside", ResultDecl::Class(foo())),
        ],
    };
    vec![
        with_doc("before", ResultDecl::Class(foo())),
        with_doc("the namespace", ResultDecl::SubModule(Box::new(inner))),
        with_doc("after", ResultDecl::Var(two_bindings(VarDeclKind::Let))),
    ]
}

#[test]
fn a_namespace_gives_a_nested_object_and_positions_follow_the_members() {
    let collected = nested();
    assert_eq!(positions_count(&collected), Some(7));
    let mut comments = Registry::new();
    let positions = vec![100, 101, 102, 103, 104, 105, 106];
    let got = result_decl_vec_to_ts_type_at(&collected, &positions, 0, &mut comments);
    let expected = TsType::TypeLit(vec![
        property(at(100), true, "Foo", Some(TsType::TypeLit(foo_members()))),
        property(
            at(101),
            true,
            "env",
            Some(TsType::TypeLit(vec![
                property(at(102), true, "a", Some(string())),
                property(at(103), true, "b", Some(number())),
                property(at(104), true, "Foo", Some(TsType::TypeLit(foo_members()))),
            ])),
        ),
        property(at(105), false, "a", Some(string())),
        property(at(106), false, "b", Some(number())),
    ]);
    assert_eq!(got, expected);
    assert_eq!(texts_at(&comments, 100), Some(vec!["before".to_string()]));
    assert_eq!(texts_at(&comments, 101), Some(vec!["the namespace".to_string()]));
    assert_eq!(texts_at(&comments, 102), Some(vec!["first inside".to_string()]));
    assert_eq!(texts_at(&comments, 103), Some(vec!["first inside".to_string()]));
    assert_eq!(texts_at(&comments, 104), Some(vec!["second inside".to_string()]));
    assert_eq!(texts_at(&comments, 105), Some(vec!["after".to_string()]));
    assert_eq!(texts_at(&comments, 106), Some(vec!["after".to_string()]));
}

#[test]
fn comments_are_put_behind_what_a_position_holds_already() {
    let mut comments = Registry::new();
    comments.add_leading_comments(
        5,
        vec![Comment { kind: CommentKind::Line, span: NOWHERE, text: "was here".to_string() }],
    );
    let decl = FnDecl { ident: ident("f"), declare: false, function: function(vec![], None) };
    let _ = result_decl_vec_to_ts_type_at(
        &vec![with_doc("new", ResultDecl::Fn(decl))],
        &vec![5],
        0,
        &mut comments,
    );
    assert_eq!(texts_at(&comments, 5), Some(vec!["was here".to_string(), "new".to_string()]));
}

#[test]
fn a_declaration_without_comments_leaves_no_entry() {
    let mut comments = Registry::new();
    let decl = FnDecl { ident: ident("f"), declare: false, function: function(vec![], None) };
    let _ = result_decl_vec_to_ts_type_at(
        &vec![plain(ResultDecl::Fn(decl))],
        &vec![5],
        0,
        &mut comments,
    );
    assert!(comments.get_leading(5).is_none());
    let decl = FnDecl { ident: ident("g"), declare: false, function: function(vec![], None) };
    let empty = ResultDeclWithComments { comments: Some(vec![]), decl: ResultDecl::Fn(decl) };
    let _ = result_decl_vec_to_ts_type_at(&vec![empty], &vec![6], 0, &mut comments);
    assert_eq!(texts_at(&comments, 6), Some(vec![]));
}

#[test]
fn what_cannot_be_written_is_told_beforehand() {
    assert!(is_supported(&nested()));
    assert!(is_supported(&vec![]));
    let destructured = VarDecl {
        span: NOWHERE,
        kind: VarDeclKind::Const,
        declare: false,
        decls: vec![
            VarDeclarator {
                span: NOWHERE,
                name: Pat::Object(NodeId(1)),
                init: None,
                definite: false,
            },
        ],
    };
    assert!(!is_supported(&vec![plain(ResultDecl::Var(destructured))]));
    let unset = TsEnumDecl {
        span: NOWHERE,
        declare: false,
        is_const: false,
        id: ident("E"),
        members: vec![
            TsEnumMember { span: NOWHERE, id: TsEnumMemberId::Ident(ident("A")), init: None },
        ],
    };
    assert!(!is_supported(&vec![plain(ResultDecl::TsEnum(unset))]));
    let quoted = SubModule {
        name: TsModuleName::Str(Str { span: NOWHERE, value: "m".to_string(), raw: None }),
        decl_vec: vec![],
    };
    assert!(!is_supported(&vec![plain(ResultDecl::SubModule(Box::new(quoted)))]));
    let text = TsEnumDecl {
        span: NOWHERE,
        declare: false,
        is_const: false,
        id: ident("E"),
        members: vec![TsEnumMember {
            span: NOWHERE,
            id: TsEnumMemberId::Ident(ident("A")),
            init: Some(
                Expr::Lit(Lit::Str(Str { span: NOWHERE, value: "a".to_string(), raw: None })),
            ),
        }],
    };
    let deep = SubModule {
        name: TsModuleName::Ident(ident("n")),
        decl_vec: vec![plain(ResultDecl::TsEnum(text))],
    };
    assert!(!is_supported(&vec![plain(ResultDecl::SubModule(Box::new(deep)))]));
}

#[test]
fn with_positions_from_swc_every_comment_is_found_where_its_member_begins() {
    let mut comments = Registry::new();
    let globals = Globals::default();
    let got = module_item(&mut comments, &globals, &nested());
    let (top, members) = match got {
        ModuleItem::ModuleDecl(ModuleDecl::ExportDecl(ExportDecl {
            span,
            decl: Decl::TsTypeAlias(TsTypeAliasDecl { id, type_ann: TsType::TypeLit(members), .. }),
        })) => {
            assert_eq!(id, ident("VSCodeAPI"));
            (span, members)
        }
        other => panic!("the module item is {:?}", other),
    };
    assert_eq!(members.len(), 4);
    let spans: Vec<Span> = members
        .iter()
        .map(|m| match m {
            TsTypeElement::TsPropertySignature(p) => p.span,
            other => panic!("the member is {:?}", other),
        })
        .collect();
    let doc = texts_at(&comments, top.lo).unwrap();
    assert_eq!(doc.len(), 1);
    assert!(doc[0].contains("Visual Studio Code"));
    assert_eq!(texts_at(&comments, spans[0].lo), Some(vec!["before".to_string()]));
    assert_eq!(texts_at(&comments, spans[1].lo), Some(vec!["the namespace".to_string()]));
    assert_eq!(texts_at(&comments, spans[2].lo), Some(vec!["after".to_string()]));
    assert_eq!(texts_at(&comments, spans[3].lo), Some(vec!["after".to_string()]));
    let mut all = vec![top.lo, spans[0].lo, spans[1].lo, spans[2].lo, spans[3].lo];
    all.sort();
    all.dedup();
    assert_eq!(all.len(), 5);

    // what the printer will find in the registry that it is handed
    let handed_out = comments.into_inner();
    let found = swc_common::comments::Comments::get_leading(
        &handed_out,
        swc_common::BytePos(spans[1].lo),
    )
    .unwrap();
    assert_eq!(found.len(), 1);
    assert_eq!(found[0].kind, swc_common::comments::CommentKind::Block);
    assert_eq!(found[0].text.to_string(), "the namespace");
    assert_eq!(found[0].span.lo.0, 1);
    assert_eq!(found[0].span.hi.0, 2);
}

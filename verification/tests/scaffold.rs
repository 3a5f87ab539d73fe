use swc_common::Globals;
use vscode_api_gen::ast::decl::{
    BodyStmt, FnBody, FnDecl, Function, VarDecl, VarDeclKind, VarDeclarator,
};
use vscode_api_gen::ast::expr::{BinaryOp, Expr, Lit, UnaryOp};
use vscode_api_gen::ast::module::{Decl, ExportDecl, ModuleDecl, ModuleItem, Stmt};
use vscode_api_gen::ast::pat::Pat;
use vscode_api_gen::ast::span::Span;
use vscode_api_gen::ast::token::{Ident, Str};
use vscode_api_gen::ast::ts_type::{BindingIdent, TsFnParam, TsKeywordTypeKind, TsLit, TsType};
use vscode_api_gen::comments::{CommentKind, Registry};
use vscode_api_gen::ident::vs_code_api_ident;
use vscode_api_gen::require_vs_code::{
    declare_const_require, func, func_body, module_items, module_items_at, require_function_type,
};

const NOWHERE: Span = Span { lo: 0, hi: 0 };

fn ident(name: &str) -> Ident {
    Ident { span: NOWHERE, sym: name.to_string(), optional: false }
}

fn name(sym: &str) -> Expr {
    Expr::Ident(ident(sym))
}

fn text(value: &str) -> Expr {
    Expr::Lit(Lit::Str(Str { span: NOWHERE, value: value.to_string(), raw: None }))
}

fn api() -> TsType {
    TsType::TypeRef { name: ident("VSCodeAPI"), type_args: None }
}

fn undefined() -> TsType {
    TsType::Keyword(TsKeywordTypeKind::TsUndefinedKeyword)
}

fn expected_require_type() -> TsType {
    TsType::Union(vec![
        undefined(),
        TsType::Parenthesized(Box::new(TsType::Function {
            params: vec![TsFnParam::Ident(BindingIdent {
                id: ident("path"),
                type_ann: Some(TsType::Lit(TsLit::Str(Str {
                    span: NOWHERE,
                    value: "vscode".to_string(),
                    raw: None,
                }))),
            })],
            type_ann: Box::new(api()),
        })),
    ])
}

fn expected_body() -> FnBody {
    let first = VarDecl {
        span: NOWHERE,
        kind: VarDeclKind::Const,
        declare: false,
        decls: vec![VarDeclarator {
            span: NOWHERE,
            name: Pat::Ident(BindingIdent { id: ident("requireFunc"), type_ann: None }),
            init: Some(Expr::Cond {
                test: Box::new(Expr::Bin {
                    op: BinaryOp::EqEqEq,
                    left: Box::new(
                        Expr::Unary { op: UnaryOp::TypeOf, arg: Box::new(name("require")) },
                    ),
                    right: Box::new(text("function")),
                }),
                cons: Box::new(name("require")),
                alt: Box::new(name("undefined")),
            }),
            definite: true,
        }],
    };
    let second = Expr::Cond {
        test: Box::new(Expr::Bin {
            op: BinaryOp::EqEqEq,
            left: Box::new(name("requireFunc")),
            right: Box::new(name("undefined")),
        }),
        cons: Box::new(name("undefined")),
        alt: Box::new(
            Expr::Call { callee: Box::new(name("requireFunc")), args: vec![text("vscode")] },
        ),
    };
    FnBody { span: NOWHERE, stmts: vec![BodyStmt::Var(first), BodyStmt::Return(Some(second))] }
}

fn expected_function() -> Function {
    Function {
        params: vec![],
        span: NOWHERE,
        body: Some(expected_body()),
        is_generator: false,
        is_async: false,
        type_params: None,
        return_type: Some(TsType::Union(vec![api(), undefined()])),
    }
}

fn expected_declaration() -> Stmt {
    Stmt::Decl(Decl::Var(VarDecl {
        span: NOWHERE,
        kind: VarDeclKind::Const,
        declare: true,
        decls: vec![VarDeclarator {
            span: NOWHERE,
            name: Pat::Ident(
                BindingIdent { id: ident("require"), type_ann: Some(expected_require_type()) },
            ),
            init: None,
            definite: true,
        }],
    }))
}

#[test]
fn the_name_of_the_interface_is_vs_code_api() {
    assert_eq!(vs_code_api_ident(), ident("VSCodeAPI"));
}

#[test]
fn require_is_a_function_or_undefined() {
    assert_eq!(require_function_type(), expected_require_type());
}

#[test]
fn require_is_declared_as_a_constant() {
    assert_eq!(declare_const_require(), expected_declaration());
}

#[test]
fn the_body_looks_for_require_and_calls_it() {
    assert_eq!(func_body(), expected_body());
}

#[test]
fn the_function_returns_the_interface_or_undefined() {
    assert_eq!(func(), expected_function());
}

#[test]
fn the_declaration_comes_first_and_the_function_second() {
    let mut comments = Registry::new();
    let got = module_items_at(321, &mut comments);
    let expected = vec![
        ModuleItem::Stmt(expected_declaration()),
        ModuleItem::ModuleDecl(ModuleDecl::ExportDecl(ExportDecl {
            span: Span { lo: 321, hi: 321 },
            decl: Decl::Fn(
                FnDecl {
                    ident: ident("importVsCodeApi"),
                    declare: false,
                    function: expected_function(),
                },
            ),
        })),
    ];
    assert_eq!(got, expected);
    let found = comments.get_leading(321).unwrap();
    assert_eq!(found.len(), 1);
    assert_eq!(found[0].kind, CommentKind::Block);
    assert_eq!(
        found[0].text,
        "* import VS Code API\n```ts\nrequire(\"vscode\")\n```\n\nReturns VSCodeApi only within the vscode extension.\n"
    );
}

#[test]
fn with_a_position_from_swc_the_comment_stands_before_the_function() {
    let mut comments = Registry::new();
    let globals = Globals::default();
    let got = module_items(&mut comments, &globals);
    assert_eq!(got.len(), 2);
    assert_eq!(got[0], ModuleItem::Stmt(expected_declaration()));
    let lo = match &got[1] {
        ModuleItem::ModuleDecl(ModuleDecl::ExportDecl(e)) => e.span.lo,
        other => panic!("not exported: {:?}", other),
    };
    let found = comments.get_leading(lo).unwrap();
    assert_eq!(found.len(), 1);
    assert!(found[0].text.starts_with("* import VS Code API"));
}

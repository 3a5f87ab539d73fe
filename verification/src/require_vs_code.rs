//! The function that fetches the interface at run time, and the declaration of `require`
//! that it leans on.
//!
//! ```ts
//! declare const require: undefined | ((path: "vscode") => VSCodeAPI);
//! export function importVsCodeApi(): VSCodeAPI | undefined {
//!     const requireFunc = typeof require === "function" ? require : undefined;
//!     return requireFunc === undefined ? undefined : requireFunc("vscode");
//! }
//! ```
//!
//! Nothing here depends on the declarations that were collected.

use vstd::prelude::*;
use crate::ast::decl::{
    BodyStmt, BodyStmtView, FnBody, FnBodyView, FnDecl, FnDeclView, Function, FunctionView, VarDecl,
    VarDeclKind, VarDeclView, VarDeclarator, VarDeclaratorView,
};
use crate::ast::expr::{BinaryOp, Expr, ExprView, Lit, LitView, UnaryOp};
use crate::ast::module::{Decl, DeclView, ModuleItem, ModuleItemView, Stmt, StmtView};
use crate::ast::pat::{Param, Pat, PatView};
use crate::ast::span::Span;
use crate::ast::token::{Ident, IdentView, Str, StrView};
use crate::ast::ts_type::{
    BindingIdent, BindingIdentView, TsFnParam, TsFnParamView, TsKeywordTypeKind, TsLit, TsLitView,
    TsType, TsTypeView,
};
use crate::comments::{
    add_leading_comments, dummy_with_cmt, with_added, Comment, CommentKind, CommentView, Registry,
};
use crate::ident::{spec_vs_code_api_ident, vs_code_api_ident};
use crate::type_decls::{exported, spec_exported};

verus! {

/// The name `sym`, as an expression.
pub open spec fn spec_name(sym: Seq<char>) -> ExprView {
    ExprView::Ident(IdentView::new(sym, Span::spec_dummy()))
}

/// The string `value`, as an expression.
pub open spec fn spec_str(value: Seq<char>) -> ExprView {
    ExprView::Lit(LitView::Str(StrView::new(value)))
}

/// `left === right`
pub open spec fn spec_strict_equal(left: ExprView, right: ExprView) -> ExprView {
    ExprView::Bin { op: BinaryOp::EqEqEq, left: Box::new(left), right: Box::new(right) }
}

/// `test ? cons : alt`
pub open spec fn spec_cond(test: ExprView, cons: ExprView, alt: ExprView) -> ExprView {
    ExprView::Cond { test: Box::new(test), cons: Box::new(cons), alt: Box::new(alt) }
}

/// `undefined`
pub open spec fn spec_undefined_expr() -> ExprView {
    spec_name("undefined"@)
}

/// The name of the local that holds `require`, if there is one: `requireFunc`.
pub open spec fn spec_require_func_ident() -> IdentView {
    IdentView::new("requireFunc"@, Span::spec_dummy())
}

/// `typeof require === "function" ? require : undefined`
pub open spec fn spec_require_if_present() -> ExprView {
    spec_cond(
        spec_strict_equal(
            ExprView::Unary { op: UnaryOp::TypeOf, arg: Box::new(spec_name("require"@)) },
            spec_str("function"@),
        ),
        spec_name("require"@),
        spec_undefined_expr(),
    )
}

/// `requireFunc === undefined ? undefined : requireFunc("vscode")`
pub open spec fn spec_api_if_present() -> ExprView {
    spec_cond(
        spec_strict_equal(ExprView::Ident(spec_require_func_ident()), spec_undefined_expr()),
        spec_undefined_expr(),
        ExprView::Call {
            callee: Box::new(ExprView::Ident(spec_require_func_ident())),
            args: seq![spec_str("vscode"@)],
        },
    )
}

/// `const name = init`, or `declare const name` where `declare` is set.
pub open spec fn spec_const(
    declare: bool,
    name: BindingIdentView,
    init: Option<ExprView>,
) -> VarDeclView {
    VarDeclView {
        span: Span::spec_dummy(),
        kind: VarDeclKind::Const,
        declare,
        decls: seq![
            VarDeclaratorView {
                span: Span::spec_dummy(),
                name: PatView::Ident(name),
                init,
                definite: true,
            },
        ],
    }
}

/// The two statements of `importVsCodeApi`.
pub open spec fn spec_func_body() -> FnBodyView {
    FnBodyView {
        span: Span::spec_dummy(),
        stmts: seq![
            BodyStmtView::Var(
                spec_const(
                    false,
                    BindingIdentView { id: spec_require_func_ident(), type_ann: None },
                    Some(spec_require_if_present()),
                ),
            ),
            BodyStmtView::Return(Some(spec_api_if_present())),
        ],
    }
}

/// `undefined`, as a type.
pub open spec fn spec_undefined_type() -> TsTypeView {
    TsTypeView::Keyword(TsKeywordTypeKind::TsUndefinedKeyword)
}

/// `(): VSCodeAPI | undefined { .. }`
pub open spec fn spec_func() -> FunctionView {
    FunctionView {
        params: Seq::empty(),
        span: Span::spec_dummy(),
        body: Some(spec_func_body()),
        is_generator: false,
        is_async: false,
        type_params: None,
        return_type: Some(
            TsTypeView::Union(
                seq![TsTypeView::named(spec_vs_code_api_ident()), spec_undefined_type()],
            ),
        ),
    }
}

/// `(path: "vscode") => VSCodeAPI`
pub open spec fn spec_require_signature() -> TsTypeView {
    TsTypeView::Function {
        params: seq![
            TsFnParamView::Ident(
                BindingIdentView {
                    id: IdentView::new("path"@, Span::spec_dummy()),
                    type_ann: Some(TsTypeView::Lit(TsLitView::Str(StrView::new("vscode"@)))),
                },
            ),
        ],
        type_ann: Box::new(TsTypeView::named(spec_vs_code_api_ident())),
    }
}

/// `undefined | ((path: "vscode") => VSCodeAPI)`
pub open spec fn spec_require_function_type() -> TsTypeView {
    TsTypeView::Union(
        seq![
            spec_undefined_type(),
            TsTypeView::Parenthesized(Box::new(spec_require_signature())),
        ],
    )
}

/// `declare const require: undefined | ((path: "vscode") => VSCodeAPI)`
pub open spec fn spec_declare_const_require() -> StmtView {
    StmtView::Decl(
        DeclView::Var(
            spec_const(
                true,
                BindingIdentView {
                    id: IdentView::new("require"@, Span::spec_dummy()),
                    type_ann: Some(spec_require_function_type()),
                },
                None,
            ),
        ),
    )
}

/// `function importVsCodeApi(): VSCodeAPI | undefined { .. }`
pub open spec fn spec_import_function() -> DeclView {
    DeclView::Fn(
        FnDeclView {
            ident: IdentView::new("importVsCodeApi"@, Span::spec_dummy()),
            declare: false,
            function: spec_func(),
        },
    )
}

/// The text of the comment that stands before `importVsCodeApi`.
pub const IMPORT_DOC: &'static str =
    "* import VS Code API\n```ts\nrequire(\"vscode\")\n```\n\nReturns VSCodeApi only within the vscode extension.\n";

/// The text of the comment that stands before `importVsCodeApi`.
pub open spec fn spec_import_doc_text() -> Seq<char> {
    IMPORT_DOC@
}

/// The comment that stands before `importVsCodeApi`.
pub open spec fn spec_import_doc() -> CommentView {
    CommentView { kind: CommentKind::Block, span: Span::spec_dummy(), text: spec_import_doc_text() }
}

/// The declaration of `require`, then the exported function, which begins at `pos`.
pub open spec fn spec_module_items(pos: u32) -> Seq<ModuleItemView> {
    seq![
        ModuleItemView::Stmt(spec_declare_const_require()),
        spec_exported(pos, spec_import_function()),
    ]
}

fn name(sym: &str) -> (r: Expr)
    ensures
        r@ == spec_name(sym@),
{
    Expr::Ident(Ident::new(sym, Span::dummy()))
}

fn string(value: &str) -> (r: Expr)
    ensures
        r@ == spec_str(value@),
{
    Expr::Lit(Lit::Str(Str::new(value)))
}

fn strict_equal(left: Expr, right: Expr) -> (r: Expr)
    ensures
        r@ == spec_strict_equal(left@, right@),
{
    Expr::Bin { op: BinaryOp::EqEqEq, left: Box::new(left), right: Box::new(right) }
}

fn cond(test: Expr, cons: Expr, alt: Expr) -> (r: Expr)
    ensures
        r@ == spec_cond(test@, cons@, alt@),
{
    Expr::Cond { test: Box::new(test), cons: Box::new(cons), alt: Box::new(alt) }
}

fn undefined_expr() -> (r: Expr)
    ensures
        r@ == spec_undefined_expr(),
{
    name("undefined")
}

fn require_func_ident() -> (r: Ident)
    ensures
        r@ == spec_require_func_ident(),
{
    Ident::new("requireFunc", Span::dummy())
}

fn require_if_present() -> (r: Expr)
    ensures
        r@ == spec_require_if_present(),
{
    let found = Expr::Unary { op: UnaryOp::TypeOf, arg: Box::new(name("require")) };
    cond(strict_equal(found, string("function")), name("require"), undefined_expr())
}

fn api_if_present() -> (r: Expr)
    ensures
        r@ == spec_api_if_present(),
{
    let mut args: Vec<Expr> = Vec::new();
    args.push(string("vscode"));
    assert(Expr::models(args@) =~= seq![spec_str("vscode"@)]);
    let callee = Expr::Ident(require_func_ident());
    assert(callee@ == ExprView::Ident(spec_require_func_ident()));
    let call = Expr::Call { callee: Box::new(callee), args };
    let unset = Expr::Ident(require_func_ident());
    cond(strict_equal(unset, undefined_expr()), undefined_expr(), call)
}

fn constant(declare: bool, name: BindingIdent, init: Option<Expr>) -> (r: VarDecl)
    ensures
        r@ == spec_const(declare, name@, init.deep_view()),
{
    let mut decls: Vec<VarDeclarator> = Vec::new();
    decls.push(
        VarDeclarator { span: Span::dummy(), name: Pat::Ident(name), init, definite: true },
    );
    VarDecl { span: Span::dummy(), kind: VarDeclKind::Const, declare, decls }
}

/// The body of `importVsCodeApi`.
pub fn func_body() -> (r: FnBody)
    ensures
        r@ == spec_func_body(),
{
    let mut stmts: Vec<BodyStmt> = Vec::new();
    stmts.push(
        BodyStmt::Var(
            constant(
                false,
                BindingIdent { id: require_func_ident(), type_ann: None },
                Some(require_if_present()),
            ),
        ),
    );
    stmts.push(BodyStmt::Return(Some(api_if_present())));
    FnBody { span: Span::dummy(), stmts }
}

fn api_or_undefined() -> (r: TsType)
    ensures
        r@ == TsTypeView::Union(
            seq![TsTypeView::named(spec_vs_code_api_ident()), spec_undefined_type()],
        ),
{
    let mut types: Vec<TsType> = Vec::new();
    types.push(TsType::named(vs_code_api_ident()));
    types.push(TsType::Keyword(TsKeywordTypeKind::TsUndefinedKeyword));
    assert(TsType::models(types@) =~= seq![
        TsTypeView::named(spec_vs_code_api_ident()),
        spec_undefined_type(),
    ]);
    TsType::Union(types)
}

/// Parameters, result and body of `importVsCodeApi`.
pub fn func() -> (r: Function)
    ensures
        r@ == spec_func(),
{
    let params: Vec<Param> = Vec::new();
    Function {
        params,
        span: Span::dummy(),
        body: Some(func_body()),
        is_generator: false,
        is_async: false,
        type_params: None,
        return_type: Some(api_or_undefined()),
    }
}

fn require_signature() -> (r: TsType)
    ensures
        r@ == spec_require_signature(),
{
    let path_type = TsType::Lit(TsLit::Str(Str::new("vscode")));
    let path = TsFnParam::Ident(
        BindingIdent { id: Ident::new("path", Span::dummy()), type_ann: Some(path_type) },
    );
    let ghost path_view = path@;
    let mut params: Vec<TsFnParam> = Vec::new();
    params.push(path);
    assert(TsFnParam::models(params@) =~= seq![path_view]);
    TsType::Function { params, type_ann: Box::new(TsType::named(vs_code_api_ident())) }
}

/// The type of `require`: `undefined | ((path: "vscode") => VSCodeAPI)`.
pub fn require_function_type() -> (r: TsType)
    ensures
        r@ == spec_require_function_type(),
{
    let signature = TsType::Parenthesized(Box::new(require_signature()));
    let mut types: Vec<TsType> = Vec::new();
    types.push(TsType::Keyword(TsKeywordTypeKind::TsUndefinedKeyword));
    types.push(signature);
    assert(TsType::models(types@) =~= seq![
        spec_undefined_type(),
        TsTypeView::Parenthesized(Box::new(spec_require_signature())),
    ]);
    TsType::Union(types)
}

/// `declare const require: undefined | ((path: "vscode") => VSCodeAPI)`
pub fn declare_const_require() -> (r: Stmt)
    ensures
        r@ == spec_declare_const_require(),
{
    let binding = BindingIdent {
        id: Ident::new("require", Span::dummy()),
        type_ann: Some(require_function_type()),
    };
    Stmt::Decl(Decl::Var(constant(true, binding, None)))
}

fn import_function() -> (r: Decl)
    ensures
        r@ == spec_import_function(),
{
    Decl::Fn(
        FnDecl {
            ident: Ident::new("importVsCodeApi", Span::dummy()),
            declare: false,
            function: func(),
        },
    )
}

fn import_doc() -> (r: Vec<Comment>)
    ensures
        Comment::models(r@) == seq![spec_import_doc()],
{
    let mut r: Vec<Comment> = Vec::new();
    r.push(
        Comment {
            kind: CommentKind::Block,
            span: Span::dummy(),
            text: IMPORT_DOC.to_owned(),
        },
    );
    r
}

/// Makes the declaration of `require` and the exported function, which begins at a position
/// that the caller chose, and puts the function's comment before it.
pub fn module_items_at(
    pos: u32,
    comments: &mut Registry,
) -> (r: Vec<ModuleItem>)
    ensures
        ModuleItem::models(r@) == spec_module_items(pos),
        final(comments)@ == with_added(
            old(comments)@,
            pos,
            seq![spec_import_doc()],
        ),
{
    add_leading_comments(comments, pos, import_doc());
    let mut r: Vec<ModuleItem> = Vec::new();
    r.push(ModuleItem::Stmt(declare_const_require()));
    r.push(exported(pos, import_function()));
    r
}

/// Makes the declaration of `require` and the exported function, and puts the function's
/// comment before it.
///
/// The function begins at a position that `swc_common` hands out for nodes that stand
/// nowhere in the source text; for that position the result is what [`module_items_at`]
/// gives.
pub fn module_items(
    comments: &mut Registry,
    globals: &swc_common::Globals,
) -> (r: Vec<ModuleItem>)
    ensures
        exists|pos: u32|
            {
                &&& ModuleItem::models(r@) == spec_module_items(pos)
                &&& final(comments)@ == with_added(
                    old(comments)@,
                    pos,
                    seq![spec_import_doc()],
                )
            },
{
    let pos = dummy_with_cmt(globals);
    module_items_at(pos, comments)
}

} // verus!

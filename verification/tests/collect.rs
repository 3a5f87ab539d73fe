use vscode_api_gen::ast::decl::{
    Class, ClassDecl, FnDecl, Function, TsEnumDecl, TsInterfaceDecl, TsModuleName, TsTypeAliasDecl,
    VarDecl, VarDeclKind,
};
use vscode_api_gen::ast::module::{
    BlockStmt, Decl, ExportDecl, ModuleDecl, ModuleItem, Stmt, TsModuleBlock, TsModuleDecl,
    TsNamespaceBody,
};
use vscode_api_gen::ast::span::{NodeId, Span};
use vscode_api_gen::ast::token::{Ident, Str};
use vscode_api_gen::ast::ts_type::{TsKeywordTypeKind, TsType};
use vscode_api_gen::comments::{Comment, CommentKind, Registry};
use vscode_api_gen::pickup::{is_collectable, pick_module_item, ResultDecl, ResultDeclWithComments};

fn ident(name: &str) -> Ident {
    Ident { span: Span { lo: 0, hi: 0 }, sym: name.to_string(), optional: false }
}

fn class(name: &str, lo: u32) -> ClassDecl {
    ClassDecl {
        ident: ident(name),
        declare: false,
        class: Class {
            span: Span { lo, hi: lo + 10 },
            body: vec![],
            super_class: None,
            is_abstract: false,
            type_params: None,
        },
    }
}

fn function(name: &str, lo: u32) -> FnDecl {
    FnDecl {
        ident: ident(name),
        declare: false,
        function: Function {
            params: vec![],
            span: Span { lo, hi: lo + 10 },
            body: None,
            is_generator: false,
            is_async: false,
            type_params: None,
            return_type: None,
        },
    }
}

fn var(lo: u32) -> VarDecl {
    VarDecl {
        span: Span { lo, hi: lo + 10 },
        kind: VarDeclKind::Const,
        declare: false,
        decls: vec![],
    }
}

fn interface(name: &str, lo: u32, node: u64) -> TsInterfaceDecl {
    TsInterfaceDecl { span: Span { lo, hi: lo + 10 }, id: ident(name), node: NodeId(node) }
}

fn alias(name: &str, lo: u32) -> TsTypeAliasDecl {
    TsTypeAliasDecl {
        span: Span { lo, hi: lo + 10 },
        declare: false,
        id: ident(name),
        type_params: None,
        type_ann: TsType::Keyword(TsKeywordTypeKind::TsStringKeyword),
    }
}

fn enumeration(name: &str, lo: u32) -> TsEnumDecl {
    TsEnumDecl {
        span: Span { lo, hi: lo + 10 },
        declare: false,
        is_const: false,
        id: ident(name),
        members: vec![],
    }
}

fn namespace(name: &str, body: Vec<ModuleItem>) -> TsModuleDecl {
    TsModuleDecl {
        span: Span { lo: 0, hi: 0 },
        declare: true,
        global: false,
        id: TsModuleName::Ident(ident(name)),
        body: Some(
            TsNamespaceBody::TsModuleBlock(TsModuleBlock { span: Span { lo: 0, hi: 0 }, body }),
        ),
    }
}

fn exported(lo: u32, decl: Decl) -> ModuleItem {
    ModuleItem::ModuleDecl(
        ModuleDecl::ExportDecl(ExportDecl { span: Span { lo, hi: lo + 20 }, decl }),
    )
}

fn statement(decl: Decl) -> ModuleItem {
    ModuleItem::Stmt(Stmt::Decl(decl))
}

fn plain(decl: ResultDecl) -> ResultDeclWithComments {
    ResultDeclWithComments { comments: None, decl }
}

fn doc(text: &str, lo: u32) -> Comment {
    Comment { kind: CommentKind::Block, span: Span { lo, hi: lo + 5 }, text: text.to_string() }
}

#[test]
fn every_kind_of_declaration_is_collected_in_source_order() {
    let comments = Registry::new();
    let items = vec![
        exported(10, Decl::Class(class("A", 17))),
        exported(40, Decl::Fn(function("f", 47))),
        exported(70, Decl::Var(var(77))),
        exported(100, Decl::TsInterface(interface("I", 107, 1))),
        exported(130, Decl::TsTypeAlias(alias("T", 137))),
        exported(160, Decl::TsEnum(enumeration("E", 167))),
    ];
    let got = pick_module_item(&items, &comments);
    let expected = vec![
        plain(ResultDecl::Class(class("A", 17))),
        plain(ResultDecl::Fn(function("f", 47))),
        plain(ResultDecl::Var(var(77))),
        plain(ResultDecl::TsInterface(interface("I", 107, 1))),
        plain(ResultDecl::TsTypeAlias(alias("T", 137))),
        plain(ResultDecl::TsEnum(enumeration("E", 167))),
    ];
    assert_eq!(got, expected);
}

#[test]
fn declarations_without_export_are_collected_too() {
    let comments = Registry::new();
    let items = vec![
        statement(Decl::Class(class("A", 5))),
        statement(Decl::TsEnum(enumeration("E", 50))),
    ];
    let got = pick_module_item(&items, &comments);
    assert_eq!(
        got,
        vec![
            plain(ResultDecl::Class(class("A", 5))),
            plain(ResultDecl::TsEnum(enumeration("E", 50))),
        ]
    );
}

#[test]
fn imports_and_other_exports_give_nothing() {
    let comments = Registry::new();
    let items = vec![
        ModuleItem::ModuleDecl(ModuleDecl::Import),
        ModuleItem::ModuleDecl(ModuleDecl::ExportNamed),
        ModuleItem::ModuleDecl(ModuleDecl::ExportDefaultDecl),
        ModuleItem::ModuleDecl(ModuleDecl::ExportDefaultExpr),
        ModuleItem::ModuleDecl(ModuleDecl::ExportAll),
        ModuleItem::ModuleDecl(ModuleDecl::TsImportEquals),
        ModuleItem::ModuleDecl(ModuleDecl::TsExportAssignment),
        ModuleItem::ModuleDecl(ModuleDecl::TsNamespaceExport),
        exported(3, Decl::Using),
        statement(Decl::Using),
    ];
    assert_eq!(pick_module_item(&items, &comments), vec![]);
}

#[test]
fn statements_that_declare_nothing_give_nothing() {
    let comments = Registry::new();
    let items = vec![
        ModuleItem::Stmt(Stmt::Empty),
        ModuleItem::Stmt(Stmt::Debugger),
        ModuleItem::Stmt(Stmt::With),
        ModuleItem::Stmt(Stmt::Return),
        ModuleItem::Stmt(Stmt::Labeled),
        ModuleItem::Stmt(Stmt::Break),
        ModuleItem::Stmt(Stmt::Continue),
        ModuleItem::Stmt(Stmt::If),
        ModuleItem::Stmt(Stmt::Switch),
        ModuleItem::Stmt(Stmt::Throw),
        ModuleItem::Stmt(Stmt::Try),
        ModuleItem::Stmt(Stmt::While),
        ModuleItem::Stmt(Stmt::DoWhile),
        ModuleItem::Stmt(Stmt::For),
        ModuleItem::Stmt(Stmt::ForIn),
        ModuleItem::Stmt(Stmt::ForOf),
    ];
    assert!(is_collectable(&items));
    assert_eq!(pick_module_item(&items, &comments), vec![]);
}

#[test]
fn a_namespace_statement_is_opened_at_any_depth() {
    let comments = Registry::new();
    let innermost = namespace("c", vec![statement(Decl::Fn(function("deep", 300)))]);
    let middle = namespace(
        "b",
        vec![
            statement(Decl::Class(class("B1", 200))),
            statement(Decl::TsModule(innermost)),
            statement(Decl::TsEnum(enumeration("B2", 400))),
        ],
    );
    let items = vec![
        statement(Decl::Var(var(100))),
        statement(Decl::TsModule(middle)),
        statement(Decl::TsTypeAlias(alias("Last", 500))),
    ];
    let got = pick_module_item(&items, &comments);
    let expected = vec![
        plain(ResultDecl::Var(var(100))),
        plain(ResultDecl::Class(class("B1", 200))),
        plain(ResultDecl::Fn(function("deep", 300))),
        plain(ResultDecl::TsEnum(enumeration("B2", 400))),
        plain(ResultDecl::TsTypeAlias(alias("Last", 500))),
    ];
    assert_eq!(got.len(), 5);
    assert_eq!(got, expected);
}

#[test]
fn an_exported_namespace_is_opened_like_any_other() {
    let mut comments = Registry::new();
    comments.add_leading_comments(10, vec![doc("about the namespace", 2)]);
    comments.add_leading_comments(20, vec![doc("about open", 12)]);
    let inner = namespace(
        "env",
        vec![exported(20, Decl::Fn(function("open", 27))), exported(60, Decl::Var(var(67)))],
    );
    let items = vec![
        exported(10, Decl::TsModule(inner)),
        exported(90, Decl::Class(class("After", 97))),
    ];
    let got = pick_module_item(&items, &comments);
    let expected = vec![
        ResultDeclWithComments {
            comments: Some(vec![doc("about open", 12)]),
            decl: ResultDecl::Fn(function("open", 27)),
        },
        plain(ResultDecl::Var(var(67))),
        plain(ResultDecl::Class(class("After", 97))),
    ];
    assert_eq!(got, expected);
}

#[test]
fn a_namespace_is_collected_alike_exported_or_not() {
    let comments = Registry::new();
    let body = || vec![statement(Decl::Class(class("Inside", 30)))];
    let as_statement = pick_module_item(
        &vec![statement(Decl::TsModule(namespace("n", body())))],
        &comments,
    );
    let as_export = pick_module_item(
        &vec![exported(10, Decl::TsModule(namespace("n", body())))],
        &comments,
    );
    assert_eq!(as_statement, vec![plain(ResultDecl::Class(class("Inside", 30)))]);
    assert_eq!(as_export, as_statement);
}

#[test]
fn a_namespace_without_braces_gives_nothing() {
    let comments = Registry::new();
    let dotted = || TsModuleDecl {
        span: Span { lo: 0, hi: 0 },
        declare: false,
        global: false,
        id: TsModuleName::Ident(ident("a")),
        body: Some(TsNamespaceBody::TsNamespaceDecl),
    };
    let bodiless = || TsModuleDecl {
        span: Span { lo: 0, hi: 0 },
        declare: true,
        global: false,
        id: TsModuleName::Str(Str {
            span: Span { lo: 0, hi: 0 },
            value: "m".to_string(),
            raw: None,
        }),
        body: None,
    };
    let items = vec![
        statement(Decl::TsModule(dotted())),
        exported(4, Decl::TsModule(dotted())),
        statement(Decl::TsModule(bodiless())),
        exported(8, Decl::TsModule(bodiless())),
    ];
    assert!(is_collectable(&items));
    assert_eq!(pick_module_item(&items, &comments), vec![]);
}

#[test]
fn the_statements_of_a_block_are_walked() {
    let comments = Registry::new();
    let block = Stmt::Block(BlockStmt {
        span: Span { lo: 0, hi: 0 },
        stmts: vec![
            Stmt::Decl(Decl::Class(class("InBlock", 9))),
            Stmt::If,
            Stmt::Block(BlockStmt {
                span: Span { lo: 0, hi: 0 },
                stmts: vec![Stmt::Decl(Decl::Fn(function("deeper", 30)))],
            }),
        ],
    });
    let got = pick_module_item(&vec![ModuleItem::Stmt(block)], &comments);
    assert_eq!(
        got,
        vec![
            plain(ResultDecl::Class(class("InBlock", 9))),
            plain(ResultDecl::Fn(function("deeper", 30))),
        ]
    );
}

#[test]
fn an_exported_declaration_takes_the_comments_before_the_export() {
    let mut comments = Registry::new();
    comments.add_leading_comments(10, vec![doc("* about A ", 2)]);
    comments.add_leading_comments(10, vec![doc("* more about A ", 6)]);
    comments.add_leading_comments(17, vec![doc("not taken", 12)]);
    let items = vec![exported(10, Decl::Class(class("A", 17)))];
    let got = pick_module_item(&items, &comments);
    assert_eq!(got.len(), 1);
    let expected = Some(vec![
        Comment {
            kind: CommentKind::Block,
            span: Span { lo: 2, hi: 7 },
            text: "* about A ".to_string(),
        },
        Comment {
            kind: CommentKind::Block,
            span: Span { lo: 6, hi: 11 },
            text: "* more about A ".to_string(),
        },
    ]);
    assert_eq!(got[0].comments, expected);
}

#[test]
fn a_plain_declaration_takes_the_comments_where_it_begins() {
    let mut comments = Registry::new();
    comments.add_leading_comments(5, vec![doc("class", 0)]);
    comments.add_leading_comments(47, vec![doc("function", 40)]);
    comments.add_leading_comments(77, vec![doc("var", 70)]);
    comments.add_leading_comments(107, vec![doc("interface", 100)]);
    comments.add_leading_comments(137, vec![doc("alias", 130)]);
    comments.add_leading_comments(167, vec![doc("enum", 160)]);
    let items = vec![
        statement(Decl::Class(class("A", 5))),
        statement(Decl::Fn(function("f", 47))),
        statement(Decl::Var(var(77))),
        statement(Decl::TsInterface(interface("I", 107, 1))),
        statement(Decl::TsTypeAlias(alias("T", 137))),
        statement(Decl::TsEnum(enumeration("E", 167))),
    ];
    let got = pick_module_item(&items, &comments);
    let texts: Vec<String> =
        got.iter().map(|d| d.comments.as_ref().unwrap()[0].text.clone()).collect();
    assert_eq!(texts, vec!["class", "function", "var", "interface", "alias", "enum"]);
}

#[test]
fn a_line_comment_keeps_its_kind() {
    let mut comments = Registry::new();
    comments.add_leading_comments(
        10,
        vec![Comment {
            kind: CommentKind::Line,
            span: Span { lo: 1, hi: 9 },
            text: " one line".to_string(),
        }],
    );
    let got = pick_module_item(&vec![exported(10, Decl::Var(var(17)))], &comments);
    assert_eq!(
        got[0].comments,
        Some(vec![Comment {
            kind: CommentKind::Line,
            span: Span { lo: 1, hi: 9 },
            text: " one line".to_string()
        }])
    );
}

#[test]
fn collecting_leaves_the_registry_as_it_was() {
    let mut comments = Registry::new();
    comments.add_leading_comments(10, vec![doc("kept", 2)]);
    let items = vec![exported(10, Decl::Class(class("A", 17)))];
    let _ = pick_module_item(&items, &comments);
    let still = comments.get_leading(10).unwrap();
    assert_eq!(still.len(), 1);
    assert_eq!(still[0].text, "kept");
}

#[test]
fn an_expression_statement_is_told_beforehand() {
    assert!(!is_collectable(&vec![ModuleItem::Stmt(Stmt::Expr)]));
    let in_block = Stmt::Block(
        BlockStmt { span: Span { lo: 0, hi: 0 }, stmts: vec![Stmt::Empty, Stmt::Expr] },
    );
    assert!(!is_collectable(&vec![ModuleItem::Stmt(in_block)]));
    let in_namespace = namespace("n", vec![ModuleItem::Stmt(Stmt::Expr)]);
    assert!(!is_collectable(&vec![statement(Decl::TsModule(in_namespace))]));
    let in_exported_namespace = namespace("n", vec![ModuleItem::Stmt(Stmt::Expr)]);
    assert!(!is_collectable(&vec![exported(0, Decl::TsModule(in_exported_namespace))]));
    assert!(is_collectable(&vec![exported(0, Decl::Class(class("A", 7)))]));
    assert!(is_collectable(&vec![]));
}

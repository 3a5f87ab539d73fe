use swc_common::Globals;
use vscode_api_gen::{assemble_at, count_assembly_positions, count_siblings, generate, Error};
use vscode_api_gen::ast::decl::{
    Class, ClassDecl, ClassMember, ClassProp, FnDecl, Function, PropName, TsEnumDecl,
    TsInterfaceDecl, TsModuleName, TsTypeAliasDecl,
};
use vscode_api_gen::ast::module::{
    Decl, ExportDecl, ModuleDecl, ModuleItem, Stmt, TsModuleBlock, TsModuleDecl, TsNamespaceBody,
};
use vscode_api_gen::ast::span::{NodeId, Span};
use vscode_api_gen::ast::token::Ident;
use vscode_api_gen::ast::ts_type::{TsKeywordTypeKind, TsType, TsTypeElement};
use vscode_api_gen::comments::{Comment, CommentKind, Registry};
use vscode_api_gen::pickup::pick_module_item;
use vscode_api_gen::require_vs_code::module_items_at;
use vscode_api_gen::type_decls::{module_item_transform_at, value_of_type};
use vscode_api_gen::vs_code_api_type::{draw_positions, module_item_at};

const NOWHERE: Span = Span { lo: 0, hi: 0 };

fn ident(name: &str) -> Ident {
    Ident { span: NOWHERE, sym: name.to_string(), optional: false }
}

fn class(name: &str, lo: u32) -> ClassDecl {
    ClassDecl {
        ident: ident(name),
        declare: true,
        class: Class {
            span: Span { lo, hi: lo + 30 },
            body: vec![ClassMember::ClassProp(ClassProp {
                span: Span { lo: lo + 2, hi: lo + 9 },
                key: PropName::Ident(ident("bar")),
                type_ann: Some(TsType::Keyword(TsKeywordTypeKind::TsNumberKeyword)),
                is_static: false,
                is_optional: false,
                readonly: false,
            })],
            super_class: None,
            is_abstract: false,
            type_params: None,
        },
    }
}

fn function(name: &str) -> FnDecl {
    FnDecl {
        ident: ident(name),
        declare: true,
        function: Function {
            params: vec![],
            span: NOWHERE,
            body: None,
            is_generator: false,
            is_async: false,
            type_params: None,
            return_type: None,
        },
    }
}

fn exported(lo: u32, decl: Decl) -> ModuleItem {
    ModuleItem::ModuleDecl(
        ModuleDecl::ExportDecl(ExportDecl { span: Span { lo, hi: lo + 40 }, decl }),
    )
}

fn declaration_file() -> Vec<ModuleItem> {
    let inside = vec![
        exported(20, Decl::Class(class("Foo", 27))),
        exported(60, Decl::Fn(function("open"))),
        exported(
            90,
            Decl::TsInterface(
                TsInterfaceDecl { span: Span { lo: 97, hi: 120 }, id: ident("I"), node: NodeId(1) },
            ),
        ),
        exported(
            130,
            Decl::TsModule(TsModuleDecl {
                span: Span { lo: 137, hi: 200 },
                declare: false,
                global: false,
                id: TsModuleName::Ident(ident("env")),
                body: Some(TsNamespaceBody::TsModuleBlock(TsModuleBlock {
                    span: NOWHERE,
                    body: vec![exported(150, Decl::Fn(function("inner")))],
                })),
            }),
        ),
        exported(
            210,
            Decl::TsEnum(TsEnumDecl {
                span: Span { lo: 217, hi: 230 },
                declare: false,
                is_const: false,
                id: ident("Kind"),
                members: vec![],
            }),
        ),
    ];
    vec![ModuleItem::Stmt(Stmt::Decl(Decl::TsModule(TsModuleDecl {
        span: Span { lo: 0, hi: 300 },
        declare: true,
        global: false,
        id: TsModuleName::Str(vscode_api_gen::ast::token::Str {
            span: NOWHERE,
            value: "vscode".to_string(),
            raw: None,
        }),
        body: Some(TsNamespaceBody::TsModuleBlock(TsModuleBlock { span: NOWHERE, body: inside })),
    })))]
}

fn doc(text: &str) -> Vec<Comment> {
    vec![Comment { kind: CommentKind::Block, span: NOWHERE, text: text.to_string() }]
}

fn source_comments() -> Registry {
    let mut comments = Registry::new();
    comments.add_leading_comments(20, doc("about Foo"));
    comments.add_leading_comments(150, doc("about inner"));
    comments
}

fn texts_at(comments: &Registry, pos: u32) -> Option<Vec<String>> {
    comments.get_leading(pos).map(|found| found.into_iter().map(|c| c.text).collect())
}

#[test]
fn text_that_was_not_parsed_is_the_one_error() {
    let mut comments = Registry::new();
    comments.add_leading_comments(3, doc("kept"));
    let globals = Globals::default();
    let got = generate(None, &mut comments, &globals);
    assert_eq!(got, Err(Error::ParseModuleError));
    assert_eq!(Error::ParseModuleError.message(), "parse module error");
    assert_eq!(texts_at(&comments, 3), Some(vec!["kept".to_string()]));
}

#[test]
fn the_module_is_written_in_a_fixed_order() {
    let items = declaration_file();
    let mut written = source_comments();
    let collected = pick_module_item(&items, &written);
    // Foo, open, I, inner (out of the namespace env), Kind
    assert_eq!(collected.len(), 5);
    assert_eq!(count_siblings(&collected), 3);
    // one for the function, one for the nested type, Foo, open, inner, Kind, and three
    // declarations beside the type
    assert_eq!(count_assembly_positions(&collected), Some(9));

    let positions: Vec<u32> = (5000..5009).collect();
    let got = assemble_at(&collected, &positions, &mut written);

    let mut expected_comments = source_comments();
    let mut expected = module_items_at(5000, &mut expected_comments);
    expected.push(module_item_at(&positions, 1, &mut expected_comments, &collected));
    expected.push(value_of_type());
    expected.push(module_item_transform_at(&collected[0], 5006, &mut expected_comments).unwrap());
    expected.push(module_item_transform_at(&collected[2], 5007, &mut expected_comments).unwrap());
    expected.push(module_item_transform_at(&collected[4], 5008, &mut expected_comments).unwrap());
    assert_eq!(got, expected);
    assert_eq!(got.len(), 7);

    assert_eq!(texts_at(&written, 5002), Some(vec!["about Foo".to_string()]));
    assert_eq!(texts_at(&written, 5004), Some(vec!["about inner".to_string()]));
    assert_eq!(texts_at(&written, 5006), Some(vec!["about Foo".to_string()]));
    assert_eq!(texts_at(&written, 5003), None);
    assert_eq!(texts_at(&written, 5007), None);
    for pos in 5000..5009 {
        assert_eq!(texts_at(&written, pos), texts_at(&expected_comments, pos));
    }
    assert_eq!(texts_at(&written, 20), Some(vec!["about Foo".to_string()]));
}

#[test]
fn a_parsed_file_is_collected_and_written() {
    let items = declaration_file();
    let mut comments = source_comments();
    let globals = Globals::default();
    let got = generate(Some(&items), &mut comments, &globals).unwrap();
    assert_eq!(got.len(), 7);
    let foo_at = match &got[2] {
        ModuleItem::ModuleDecl(ModuleDecl::ExportDecl(ExportDecl {
            decl: Decl::TsTypeAlias(TsTypeAliasDecl { id, type_ann: TsType::TypeLit(members), .. }),
            ..
        })) => {
            assert_eq!(id, &ident("VSCodeAPI"));
            assert_eq!(members.len(), 4);
            match &members[0] {
                TsTypeElement::TsPropertySignature(p) => p.span.lo,
                other => panic!("the class gave {:?}", other),
            }
        }
        other => panic!("the third item is {:?}", other),
    };
    assert_eq!(texts_at(&comments, foo_at), Some(vec!["about Foo".to_string()]));
    assert_eq!(got[3], value_of_type());
    let names: Vec<String> = got[4..]
        .iter()
        .map(|item| match item {
            ModuleItem::ModuleDecl(
                ModuleDecl::ExportDecl(ExportDecl { decl: Decl::TsTypeAlias(a), .. }),
            ) => {
                a.id.sym.clone()
            }
            ModuleItem::ModuleDecl(
                ModuleDecl::ExportDecl(ExportDecl { decl: Decl::TsInterface(i), .. }),
            ) => {
                i.id.sym.clone()
            }
            other => panic!("beside the type stands {:?}", other),
        })
        .collect();
    assert_eq!(names, vec!["Foo", "I", "Kind"]);
}

#[test]
fn positions_are_drawn_one_for_each_that_is_asked_for() {
    let globals = Globals::default();
    assert_eq!(draw_positions(&globals, 0), Vec::<u32>::new());
    let drawn = draw_positions(&globals, 4);
    assert_eq!(drawn.len(), 4);
    let mut distinct = drawn.clone();
    distinct.sort();
    distinct.dedup();
    assert_eq!(distinct.len(), 4);
}

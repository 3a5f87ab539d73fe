//! The declarations that stand beside the one nested type: a type for the values of each
//! class and of each enum, and the interfaces and type aliases as they were.
//!
//! ```ts
//! type ValueOf<T> = T[keyof T];
//! export type Widget<T> = Base & { readonly title: string; show(x): string };
//! export type Kind = ValueOf<VSCodeAPI["Kind"]>;
//! export interface Disposable { .. }
//! ```
//!
//! The type of a class's values lists the properties and methods that are not static, each
//! with its name, its types, its `readonly` and its `?`. The nested type lists the same
//! members for a class, after the constructors: see [`crate::vs_code_api_type`].
//!
//! Functions, variables and namespaces are values only, and give no declaration here.

use vstd::prelude::*;
use crate::ast::decl::{
    ClassDecl, ClassDeclView, ClassMember, ClassMemberView, TsEnumDecl, TsEnumDeclView,
    TsTypeAliasDecl, TsTypeAliasDeclView,
};
use crate::ast::expr::{Expr, ExprView};
use crate::ast::module::{
    Decl, DeclView, ExportDecl, ExportDeclView, ModuleDecl, ModuleDeclView, ModuleItem,
    ModuleItemView, Stmt, StmtView,
};
use crate::ast::span::Span;
use crate::ast::token::{Ident, IdentView, Str, StrView};
use crate::ast::ts_type::{
    TsLit, TsLitView, TsMethodSignature, TsMethodSignatureView, TsPropertySignature,
    TsPropertySignatureView, TsType, TsTypeElement, TsTypeElementView, TsTypeParam, TsTypeParamDecl,
    TsTypeParamDeclView, TsTypeParamView, TsTypeView,
};
use crate::comments::{attach, dummy_with_cmt, with_attached, CommentView, Registry};
use crate::fn_to_type::{
    is_computed, params_to_ts_fn_params, prop_name_to_expr, spec_is_computed,
    spec_params_to_ts_fn_params, spec_prop_name_to_expr,
};
use crate::ident::{spec_vs_code_api_ident, vs_code_api_ident};
use crate::pickup::{ResultDecl, ResultDeclView, ResultDeclWithComments, ResultDeclWithCommentsView};

verus! {

/// The name of the helper type: `ValueOf`.
pub open spec fn spec_value_of_ident() -> IdentView {
    IdentView::new("ValueOf"@, Span::spec_dummy())
}

fn value_of_ident() -> (r: Ident)
    ensures
        r@ == spec_value_of_ident(),
{
    Ident::new("ValueOf", Span::dummy())
}

/// A generic parameter that is a name and nothing more.
pub open spec fn spec_plain_type_param(name: IdentView) -> TsTypeParamView {
    TsTypeParamView {
        span: Span::spec_dummy(),
        name,
        is_in: false,
        is_out: false,
        is_const: false,
        constraint: None,
        default: None,
    }
}

/// `T[keyof T]`
pub open spec fn spec_values_of(t: IdentView) -> TsTypeView {
    TsTypeView::IndexedAccess {
        obj_type: Box::new(TsTypeView::named(t)),
        index_type: Box::new(TsTypeView::KeyOf(Box::new(TsTypeView::named(t)))),
    }
}

/// `type ValueOf<T> = T[keyof T]`
pub open spec fn spec_value_of_alias() -> TsTypeAliasDeclView {
    let t = IdentView::new("T"@, Span::spec_dummy());
    TsTypeAliasDeclView {
        span: Span::spec_dummy(),
        declare: false,
        id: spec_value_of_ident(),
        type_params: Some(
            TsTypeParamDeclView {
                span: Span::spec_dummy(),
                params: seq![spec_plain_type_param(t)],
            },
        ),
        type_ann: spec_values_of(t),
    }
}

/// `type ValueOf<T> = T[keyof T]`, as a statement of the module.
pub open spec fn spec_value_of_type() -> ModuleItemView {
    ModuleItemView::Stmt(StmtView::Decl(DeclView::TsTypeAlias(spec_value_of_alias())))
}

fn values_of(t: &Ident) -> (r: TsType)
    ensures
        r@ == spec_values_of(t@),
{
    let key_of = TsType::KeyOf(Box::new(TsType::named(t.clone())));
    assert(key_of@ == TsTypeView::KeyOf(Box::new(TsTypeView::named(t@))));
    TsType::IndexedAccess {
        obj_type: Box::new(TsType::named(t.clone())),
        index_type: Box::new(key_of),
    }
}

fn value_of_alias() -> (r: TsTypeAliasDecl)
    ensures
        r@ == spec_value_of_alias(),
{
    let t = Ident::new("T", Span::dummy());
    let mut params: Vec<TsTypeParam> = Vec::new();
    params.push(
        TsTypeParam {
            span: Span::dummy(),
            name: t.clone(),
            is_in: false,
            is_out: false,
            is_const: false,
            constraint: None,
            default: None,
        },
    );
    assert(TsTypeParam::models(params@) =~= seq![spec_plain_type_param(t@)]);
    TsTypeAliasDecl {
        span: Span::dummy(),
        declare: false,
        id: value_of_ident(),
        type_params: Some(TsTypeParamDecl { span: Span::dummy(), params }),
        type_ann: values_of(&t),
    }
}

/// The helper type that gives the type of an object's values: `type ValueOf<T> = T[keyof T]`.
pub fn value_of_type() -> (r: ModuleItem)
    ensures
        r@ == spec_value_of_type(),
{
    ModuleItem::Stmt(Stmt::Decl(Decl::TsTypeAlias(value_of_alias())))
}

/// The signature that stands for a member of a class in the type of the class's values.
///
/// A property or a method that is not static gives a signature with the member's name,
/// types, `readonly` and `?`. Every other member gives none: static members belong to the
/// class itself, constructors are written where the class is named, and for private
/// members, index signatures, static blocks and accessors a type literal has no place.
pub open spec fn spec_class_member_to_ts_type_element(
    class_member: ClassMemberView,
) -> Option<TsTypeElementView> {
    match class_member {
        ClassMemberView::ClassProp(class_prop) => if class_prop.is_static {
            None
        } else {
            Some(
                TsTypeElementView::TsPropertySignature(
                    TsPropertySignatureView {
                        span: class_prop.span,
                        readonly: class_prop.readonly,
                        key: spec_prop_name_to_expr(class_prop.key),
                        computed: false,
                        optional: class_prop.is_optional,
                        type_ann: class_prop.type_ann,
                    },
                ),
            )
        },
        ClassMemberView::Method(method) => if method.is_static {
            None
        } else {
            Some(
                TsTypeElementView::TsMethodSignature(
                    TsMethodSignatureView {
                        span: method.span,
                        readonly: false,
                        key: spec_prop_name_to_expr(method.key),
                        computed: spec_is_computed(method.key),
                        optional: method.is_optional,
                        params: spec_params_to_ts_fn_params(method.function.params),
                        type_ann: method.function.return_type,
                        type_params: method.function.type_params,
                    },
                ),
            )
        },
        _ => None,
    }
}

/// [`spec_class_member_to_ts_type_element`] as a value.
pub open spec fn member_signature() -> spec_fn(ClassMemberView) -> Option<TsTypeElementView> {
    |class_member: ClassMemberView| spec_class_member_to_ts_type_element(class_member)
}

/// The signatures of the members of a class body that have one, in the order of the body.
pub open spec fn spec_instance_members(body: Seq<ClassMemberView>) -> Seq<TsTypeElementView> {
    body.filter_map(member_signature())
}

/// Whether a member of a class is a property or a method of the class's values.
pub open spec fn is_instance_member(class_member: ClassMemberView) -> bool {
    match class_member {
        ClassMemberView::ClassProp(class_prop) => !class_prop.is_static,
        ClassMemberView::Method(method) => !method.is_static,
        _ => false,
    }
}

/// The signature for a member of a class in the type of the class's values, if it has one.
pub fn class_member_to_ts_type_element(class_member: &ClassMember) -> (r: Option<TsTypeElement>)
    ensures
        r.deep_view() == spec_class_member_to_ts_type_element(class_member@),
{
    match class_member {
        ClassMember::ClassProp(class_prop) => {
            if class_prop.is_static {
                None
            } else {
                Some(
                    TsTypeElement::TsPropertySignature(
                        TsPropertySignature {
                            span: class_prop.span,
                            readonly: class_prop.readonly,
                            key: prop_name_to_expr(&class_prop.key),
                            computed: false,
                            optional: class_prop.is_optional,
                            type_ann: match &class_prop.type_ann {
                                Some(t) => Some(t.clone()),
                                None => None,
                            },
                        },
                    ),
                )
            }
        },
        ClassMember::Method(method) => {
            if method.is_static {
                None
            } else {
                Some(
                    TsTypeElement::TsMethodSignature(
                        TsMethodSignature {
                            span: method.span,
                            readonly: false,
                            key: prop_name_to_expr(&method.key),
                            computed: is_computed(&method.key),
                            optional: method.is_optional,
                            params: params_to_ts_fn_params(&method.function.params),
                            type_ann: match &method.function.return_type {
                                Some(t) => Some(t.clone()),
                                None => None,
                            },
                            type_params: match &method.function.type_params {
                                Some(t) => Some(t.clone()),
                                None => None,
                            },
                        },
                    ),
                )
            }
        },
        _ => None,
    }
}

/// The signatures of the members of a class body that have one, in the order of the body.
pub fn instance_members(body: &Vec<ClassMember>) -> (r: Vec<TsTypeElement>)
    ensures
        TsTypeElement::models(r@) == spec_instance_members(ClassMember::models(body@)),
{
    let ghost all = ClassMember::models(body@);
    let mut r: Vec<TsTypeElement> = Vec::new();
    let mut i: usize = 0;
    while i < body.len()
        invariant
            i <= body.len(),
            all == ClassMember::models(body@),
            TsTypeElement::models(r@) == all.take(i as int).filter_map(member_signature()),
        decreases body.len() - i,
    {
        proof {
            all.lemma_filter_map_take_succ(member_signature(), i as int);
        }
        match class_member_to_ts_type_element(&body[i]) {
            Some(element) => {
                r.push(element);
            },
            None => {},
        }
        i += 1;
    }
    assert(all.take(body.len() as int) =~= all);
    r
}

/// The type that a class extends, where it is written as a plain name; nothing else where
/// the class extends nothing or an expression that is no name.
pub open spec fn spec_super_types(super_class: Option<ExprView>) -> Seq<TsTypeView> {
    match super_class {
        Some(ExprView::Ident(super_class_ident)) => seq![TsTypeView::named(super_class_ident)],
        _ => Seq::empty(),
    }
}

/// The type of the values of a class: what it extends, intersected with a type literal of
/// its members' signatures, under the name and the generic parameters of the class.
pub open spec fn spec_class_alias(class: ClassDeclView) -> TsTypeAliasDeclView {
    TsTypeAliasDeclView {
        span: Span::spec_dummy(),
        declare: false,
        id: class.ident,
        type_params: class.class.type_params,
        type_ann: TsTypeView::Intersection(
            spec_super_types(class.class.super_class) + seq![
                TsTypeView::TypeLit(spec_instance_members(class.class.body)),
            ],
        ),
    }
}

/// `VSCodeAPI["name"]`
pub open spec fn spec_api_member(name: Seq<char>) -> TsTypeView {
    TsTypeView::IndexedAccess {
        obj_type: Box::new(TsTypeView::named(spec_vs_code_api_ident())),
        index_type: Box::new(TsTypeView::Lit(TsLitView::Str(StrView::new(name)))),
    }
}

/// The type of the values of an enum: `type Name = ValueOf<VSCodeAPI["Name"]>`.
pub open spec fn spec_enum_alias(enum_decl: TsEnumDeclView) -> TsTypeAliasDeclView {
    TsTypeAliasDeclView {
        span: Span::spec_dummy(),
        declare: false,
        id: enum_decl.id,
        type_params: None,
        type_ann: TsTypeView::TypeRef {
            name: spec_value_of_ident(),
            type_args: Some(seq![spec_api_member(enum_decl.id.sym)]),
        },
    }
}

/// `export decl`, beginning at `pos`.
pub open spec fn spec_exported(pos: u32, decl: DeclView) -> ModuleItemView {
    ModuleItemView::ModuleDecl(
        ModuleDeclView::ExportDecl(ExportDeclView { span: Span::spec_at(pos), decl }),
    )
}

/// Whether a collected declaration gives a declaration beside the nested type: classes,
/// interfaces, type aliases and enums do; functions, variables and namespaces do not.
pub open spec fn has_sibling(decl: ResultDeclView) -> bool {
    decl is Class || decl is TsInterface || decl is TsTypeAlias || decl is TsEnum
}

/// The declaration that stands beside the nested type for a collected declaration, with
/// `pos` as the position that it begins at.
///
/// A class gives the type of its values and an enum the type of its values. An interface
/// and a type alias are handed on as they are.
pub open spec fn spec_module_item_transform(
    module_item: ResultDeclWithCommentsView,
    pos: u32,
) -> Option<ModuleItemView> {
    match module_item.decl {
        ResultDeclView::Class(class) => Some(
            spec_exported(pos, DeclView::TsTypeAlias(spec_class_alias(class))),
        ),
        ResultDeclView::TsInterface(interface) => Some(
            spec_exported(pos, DeclView::TsInterface(interface)),
        ),
        ResultDeclView::TsTypeAlias(alias) => Some(
            spec_exported(pos, DeclView::TsTypeAlias(alias)),
        ),
        ResultDeclView::TsEnum(enum_decl) => Some(
            spec_exported(pos, DeclView::TsTypeAlias(spec_enum_alias(enum_decl))),
        ),
        _ => None,
    }
}

/// What the registry holds after [`module_item_transform_at`]: the comments of the
/// declaration stand before `pos` where a declaration was made, and nothing changed where
/// none was.
pub open spec fn spec_module_item_transform_comments(
    held: Map<u32, Seq<CommentView>>,
    module_item: ResultDeclWithCommentsView,
    pos: u32,
) -> Map<u32, Seq<CommentView>> {
    if has_sibling(module_item.decl) {
        with_attached(held, pos, module_item.comments)
    } else {
        held
    }
}

fn super_types(super_class: &Option<Expr>) -> (r: Vec<TsType>)
    ensures
        TsType::models(r@) == spec_super_types(super_class.deep_view()),
{
    let mut r: Vec<TsType> = Vec::new();
    match super_class {
        Some(Expr::Ident(super_class_ident)) => {
            r.push(TsType::named(super_class_ident.clone()));
        },
        _ => {},
    }
    r
}

fn class_alias(class: &ClassDecl) -> (r: TsTypeAliasDecl)
    ensures
        r@ == spec_class_alias(class@),
{
    let mut types = super_types(&class.class.super_class);
    let ghost before = TsType::models(types@);
    let members = TsType::type_lit(instance_members(&class.class.body));
    let ghost pushed = members@;
    types.push(members);
    assert(TsType::models(types@) =~= before + seq![pushed]);
    TsTypeAliasDecl {
        span: Span::dummy(),
        declare: false,
        id: class.ident.clone(),
        type_params: match &class.class.type_params {
            Some(t) => Some(t.clone()),
            None => None,
        },
        type_ann: TsType::Intersection(types),
    }
}

fn api_member(name: &String) -> (r: TsType)
    ensures
        r@ == spec_api_member(name@),
{
    let index = TsType::Lit(
        TsLit::Str(Str { span: Span::dummy(), value: name.clone(), raw: None }),
    );
    assert(index@ == TsTypeView::Lit(TsLitView::Str(StrView::new(name@))));
    TsType::IndexedAccess {
        obj_type: Box::new(TsType::named(vs_code_api_ident())),
        index_type: Box::new(index),
    }
}

fn enum_alias(enum_decl: &TsEnumDecl) -> (r: TsTypeAliasDecl)
    ensures
        r@ == spec_enum_alias(enum_decl@),
{
    let mut type_args: Vec<TsType> = Vec::new();
    type_args.push(api_member(&enum_decl.id.sym));
    assert(TsType::models(type_args@) =~= seq![spec_api_member(enum_decl@.id.sym)]);
    TsTypeAliasDecl {
        span: Span::dummy(),
        declare: false,
        id: enum_decl.id.clone(),
        type_params: None,
        type_ann: TsType::TypeRef { name: value_of_ident(), type_args: Some(type_args) },
    }
}

/// `export decl`, beginning at `pos`.
pub fn exported(pos: u32, decl: Decl) -> (r: ModuleItem)
    ensures
        r@ == spec_exported(pos, decl@),
{
    ModuleItem::ModuleDecl(ModuleDecl::ExportDecl(ExportDecl { span: Span::at(pos), decl }))
}

/// Whether a collected declaration gives a declaration beside the nested type.
pub fn gives_sibling(module_item: &ResultDeclWithComments) -> (r: bool)
    ensures
        r == has_sibling(module_item@.decl),
{
    match &module_item.decl {
        ResultDecl::Class(_) => true,
        ResultDecl::TsInterface(_) => true,
        ResultDecl::TsTypeAlias(_) => true,
        ResultDecl::TsEnum(_) => true,
        _ => false,
    }
}

/// Makes the declaration that stands beside the nested type for a collected declaration,
/// at a position that the caller chose, and puts the declaration's comments before it.
pub fn module_item_transform_at(
    module_item: &ResultDeclWithComments,
    pos: u32,
    comments: &mut Registry,
) -> (r: Option<ModuleItem>)
    ensures
        r.deep_view() == spec_module_item_transform(module_item@, pos),
        final(comments)@ == spec_module_item_transform_comments(
            old(comments)@,
            module_item@,
            pos,
        ),
{
    match &module_item.decl {
        ResultDecl::Class(class) => {
            attach(comments, pos, &module_item.comments);
            Some(exported(pos, Decl::TsTypeAlias(class_alias(class))))
        },
        ResultDecl::TsInterface(interface) => {
            attach(comments, pos, &module_item.comments);
            Some(exported(pos, Decl::TsInterface(interface.clone())))
        },
        ResultDecl::TsTypeAlias(alias) => {
            attach(comments, pos, &module_item.comments);
            Some(exported(pos, Decl::TsTypeAlias(alias.clone())))
        },
        ResultDecl::TsEnum(enum_decl) => {
            attach(comments, pos, &module_item.comments);
            Some(exported(pos, Decl::TsTypeAlias(enum_alias(enum_decl))))
        },
        _ => None,
    }
}

/// Makes the declaration that stands beside the nested type for a collected declaration,
/// and puts the declaration's comments before it.
///
/// The declaration begins at a position that `swc_common` hands out for nodes that stand
/// nowhere in the source text; for that position the result is what
/// [`module_item_transform_at`] gives. Where no declaration is made, no position is taken.
pub fn module_item_transform(
    module_item: &ResultDeclWithComments,
    comments: &mut Registry,
    globals: &swc_common::Globals,
) -> (r: Option<ModuleItem>)
    ensures
        r is Some <==> has_sibling(module_item@.decl),
        exists|pos: u32|
            {
                &&& r.deep_view() == spec_module_item_transform(module_item@, pos)
                &&& final(comments)@ == spec_module_item_transform_comments(
                    old(comments)@,
                    module_item@,
                    pos,
                )
            },
{
    if gives_sibling(module_item) {
        let pos = dummy_with_cmt(globals);
        module_item_transform_at(module_item, pos, comments)
    } else {
        let r = module_item_transform_at(module_item, 0, comments);
        r
    }
}

/// [`is_instance_member`] as a value.
pub open spec fn instance_member() -> spec_fn(ClassMemberView) -> bool {
    |class_member: ClassMemberView| is_instance_member(class_member)
}

/// A class body gives as many signatures as it has properties and methods that are not
/// static.
pub proof fn lemma_instance_member_count(body: Seq<ClassMemberView>)
    ensures
        spec_instance_members(body).len() == body.filter(instance_member()).len(),
    decreases body.len(),
{
    reveal(Seq::filter);
    if body.len() > 0 {
        lemma_instance_member_count(body.drop_last());
    }
}

/// The type of a class's values holds the members of the values and nothing else.
///
/// For a class that extends the class named `super_class_ident`, and for every position:
/// the declaration made for it is one type alias under the name and the generic
/// parameters of the class; its body is the type `super_class_ident` intersected with one
/// type literal; the literal has as many members as the class body has properties and
/// methods that are not static; and each of its members is the signature of such a
/// property or method. So no static or private member, no constructor, index signature,
/// static block or accessor has a member in it.
pub proof fn lemma_class_alias_holds_the_instance_members(
    module_item: ResultDeclWithCommentsView,
    pos: u32,
    super_class_ident: IdentView,
)
    requires
        module_item.decl is Class,
        module_item.decl->Class_0.class.super_class == Some(ExprView::Ident(super_class_ident)),
    ensures
        spec_module_item_transform(module_item, pos) == Some(
            spec_exported(
                pos,
                DeclView::TsTypeAlias(
                    TsTypeAliasDeclView {
                        span: Span::spec_dummy(),
                        declare: false,
                        id: module_item.decl->Class_0.ident,
                        type_params: module_item.decl->Class_0.class.type_params,
                        type_ann: TsTypeView::Intersection(
                            seq![
                                TsTypeView::named(super_class_ident),
                                TsTypeView::TypeLit(
                                    spec_instance_members(module_item.decl->Class_0.class.body),
                                ),
                            ],
                        ),
                    },
                ),
            ),
        ),
        spec_instance_members(module_item.decl->Class_0.class.body).len()
            == module_item.decl->Class_0.class.body.filter(instance_member()).len(),
        forall|element: TsTypeElementView| #[trigger]
            spec_instance_members(module_item.decl->Class_0.class.body).contains(element)
                ==> exists|j: int|
                0 <= j < module_item.decl->Class_0.class.body.len() && is_instance_member(
                    module_item.decl->Class_0.class.body[j],
                ) && #[trigger] spec_class_member_to_ts_type_element(
                    module_item.decl->Class_0.class.body[j],
                ) == Some(element),
{
    let class = module_item.decl->Class_0;
    let body = class.class.body;
    let members = spec_instance_members(body);
    lemma_instance_member_count(body);
    assert(spec_super_types(class.class.super_class) + seq![TsTypeView::TypeLit(members)] =~= seq![
        TsTypeView::named(super_class_ident),
        TsTypeView::TypeLit(members),
    ]);
    assert forall|element: TsTypeElementView| #[trigger]
        members.contains(element) implies exists|j: int|
        0 <= j < body.len() && is_instance_member(body[j])
            && #[trigger] spec_class_member_to_ts_type_element(body[j]) == Some(element) by {
        body.lemma_filter_map_contains(member_signature(), element);
    }
}

/// An interface or a type alias that was handed on is collected again as what it was.
///
/// Take a collected interface or type alias, make the declaration that is written for it
/// at `pos`, and collect that declaration with the registry as it is then. One declaration
/// is collected, and it is the interface or type alias that the walk began with. If the
/// registry held nothing for `pos` before, the comments come back too, so that writing and
/// collecting again gives the same declaration once more.
pub proof fn lemma_handed_on_declarations_come_back(
    module_item: ResultDeclWithCommentsView,
    pos: u32,
    held: Map<u32, Seq<CommentView>>,
)
    requires
        module_item.decl is TsInterface || module_item.decl is TsTypeAlias,
    ensures
        spec_module_item_transform(module_item, pos) is Some,
        ({
            let written = spec_module_item_transform(module_item, pos)->0;
            let collected = crate::pickup::spec_pick_module_item(
                seq![written],
                spec_module_item_transform_comments(held, module_item, pos),
            );
            &&& collected.len() == 1
            &&& collected[0].decl == module_item.decl
            &&& !held.dom().contains(pos) ==> collected == seq![module_item]
            &&& !held.dom().contains(pos) ==> forall|again: u32|
                spec_module_item_transform(collected[0], again) == spec_module_item_transform(
                    module_item,
                    again,
                )
        }),
{
    let written = spec_module_item_transform(module_item, pos)->0;
    let after = spec_module_item_transform_comments(held, module_item, pos);
    let items = seq![written];
    let collected = crate::pickup::spec_pick_module_item(items, after);
    assert(crate::pickup::spec_module_items(items, after, 0) =~= Seq::empty());
    assert(collected =~= crate::pickup::spec_module_item(written, after));
}

} // verus!

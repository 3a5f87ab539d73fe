//! The one nested type: every collected declaration as a member of a type literal.
//!
//! A class is a member that holds how its values are made and what they offer: a construct
//! signature for each constructor, and the signatures of the properties and methods that
//! are not static. A function is a method, a variable a property, an enum a property that
//! holds one property for each of its members, and a [`SubModule`] a property that holds
//! the members made from the declarations inside it. Interfaces and type aliases give no
//! member: they are types, and the nested type describes values.
//!
//! Every member that stands for a declaration begins at a position of its own, so that the
//! comments of the declaration can stand before it. The functions whose names end in `_at`
//! take these positions from the caller, one for each such member, in the order in which the
//! members are met when the result is read from its beginning; [`positions_needed`] says how
//! many there are.

use vstd::prelude::*;
use crate::ast::decl::{
    ClassDecl, ClassDeclView, ClassMember, ClassMemberView, Constructor, ConstructorView, FnDecl,
    FnDeclView, TsEnumDecl, TsEnumMember, TsEnumMemberId, TsEnumMemberIdView, TsEnumMemberView,
    TsModuleName, TsTypeAliasDecl, TsTypeAliasDeclView, VarDecl, VarDeclKind, VarDeclView,
    VarDeclarator, VarDeclaratorView,
};
use crate::ast::expr::{Expr, ExprView, Lit, LitView, UnaryOp};
use crate::ast::module::{Decl, DeclView, ModuleItem, ModuleItemView};
use crate::ast::pat::Pat;
use crate::ast::span::Span;
use crate::ast::token::{Ident, IdentView, Number, NumberView, SIGN_BIT};
use crate::ast::ts_type::{
    TsConstructSignatureDecl, TsConstructSignatureDeclView, TsLit, TsLitView, TsMethodSignature,
    TsMethodSignatureView, TsPropertySignature, TsPropertySignatureView, TsType, TsTypeElement,
    TsTypeElementView, TsTypeParamDecl, TsTypeParamDeclView, TsTypeView,
};
use crate::comments::{
    add_leading_comments, attach, dummy_with_cmt, spec_found, with_added, with_attached, Comment,
    CommentKind, CommentView, Registry,
};
use crate::fn_to_type::{
    constructor_params_to_ts_fn_params, params_to_ts_fn_params,
    spec_constructor_params_to_ts_fn_params, spec_params_to_ts_fn_params,
};
use crate::ident::{spec_vs_code_api_ident, vs_code_api_ident};
use crate::pickup::{
    ResultDecl, ResultDeclView, ResultDeclWithComments, ResultDeclWithCommentsView, SubModule,
};
use crate::type_decls::{exported, spec_exported};

verus! {

/// The generic parameters of a class, as the arguments of a reference to the class: for
/// `<T, U>` the types `T` and `U`.
pub open spec fn spec_type_args(type_params: Option<TsTypeParamDeclView>) -> Option<
    Seq<TsTypeView>,
> {
    match type_params {
        Some(p) => Some(Seq::new(p.params.len(), |i: int| TsTypeView::named(p.params[i].name))),
        None => None,
    }
}

/// The construct signature for a constructor of the class `class_name`: the constructor's
/// parameters, lowered, and as the type of what is made the class with its own generic
/// parameters as arguments, so that `Foo<T>` is made as `Foo<T>`.
pub open spec fn spec_construct_signature(
    constructor: ConstructorView,
    class_name: IdentView,
    type_params: Option<TsTypeParamDeclView>,
) -> TsTypeElementView {
    TsTypeElementView::TsConstructSignatureDecl(
        TsConstructSignatureDeclView {
            span: constructor.span,
            params: spec_constructor_params_to_ts_fn_params(constructor.params),
            type_ann: Some(
                TsTypeView::TypeRef { name: class_name, type_args: spec_type_args(type_params) },
            ),
            type_params,
        },
    )
}

/// The member that stands for a member of the class `class_name` in the nested type: for a
/// constructor its construct signature, for any other member what
/// [`crate::type_decls::spec_class_member_to_ts_type_element`] gives.
pub open spec fn spec_class_member_to_ts_type_element(
    class_member: ClassMemberView,
    class_name: IdentView,
    type_params: Option<TsTypeParamDeclView>,
) -> Option<TsTypeElementView> {
    match class_member {
        ClassMemberView::Constructor(constructor) => Some(
            spec_construct_signature(constructor, class_name, type_params),
        ),
        _ => crate::type_decls::spec_class_member_to_ts_type_element(class_member),
    }
}

/// [`spec_class_member_to_ts_type_element`] for one class, as a value.
pub open spec fn class_member_signature(
    class_name: IdentView,
    type_params: Option<TsTypeParamDeclView>,
) -> spec_fn(ClassMemberView) -> Option<TsTypeElementView> {
    |class_member: ClassMemberView|
        spec_class_member_to_ts_type_element(class_member, class_name, type_params)
}

/// The members that stand for a class: those of its body that give one, in the order of
/// the body.
pub open spec fn spec_class_members(class: ClassDeclView) -> Seq<TsTypeElementView> {
    class.class.body.filter_map(class_member_signature(class.ident, class.class.type_params))
}

/// The number that an enum member is set to: a numeric literal, or the negation of one.
/// `None` for a member that is set to anything else, or to nothing.
pub open spec fn spec_enum_member_value(init: Option<ExprView>) -> Option<NumberView> {
    match init {
        Some(ExprView::Lit(LitView::Num(num))) => Some(num),
        Some(ExprView::Unary { op: UnaryOp::Minus, arg }) => match *arg {
            ExprView::Lit(LitView::Num(num)) => Some(num.negated()),
            _ => None,
        },
        _ => None,
    }
}

/// The key of the property that stands for an enum member.
pub open spec fn spec_enum_member_key(id: TsEnumMemberIdView) -> ExprView {
    match id {
        TsEnumMemberIdView::Ident(ident) => ExprView::Ident(ident),
        TsEnumMemberIdView::Str(str) => ExprView::Lit(LitView::Str(str)),
    }
}

/// The property that stands for an enum member: read-only, under the member's name, with
/// the literal type of the number that the member is set to.
pub open spec fn spec_enum_member_to_ts_type_element(
    enum_member: TsEnumMemberView,
) -> TsTypeElementView
    recommends
        spec_enum_member_value(enum_member.init) is Some,
{
    TsTypeElementView::TsPropertySignature(
        TsPropertySignatureView {
            span: enum_member.span,
            readonly: true,
            key: spec_enum_member_key(enum_member.id),
            computed: false,
            optional: false,
            type_ann: Some(
                TsTypeView::Lit(TsLitView::Number(spec_enum_member_value(enum_member.init)->0)),
            ),
        },
    )
}

/// The properties that stand for the members of an enum, one for one.
pub open spec fn spec_enum_members(members: Seq<TsEnumMemberView>) -> Seq<TsTypeElementView> {
    Seq::new(members.len(), |i: int| spec_enum_member_to_ts_type_element(members[i]))
}

/// Whether every member of an enum is set to a number.
pub open spec fn enum_members_supported(members: Seq<TsEnumMemberView>) -> bool {
    forall|i: int|
        0 <= i < members.len() ==> spec_enum_member_value((#[trigger] members[i]).init) is Some
}

/// An enum gives one property for each member, with the member's number as its type.
///
/// For an enum whose members are all set to numbers: there are as many properties as
/// members, in the order of the members; each is read-only and has a numeric literal type;
/// for a member set to a literal that literal is the type, and for a member set to the
/// negation of a literal the type is the literal with its sign bit flipped, so that `-2`
/// gives `-2`.
pub proof fn lemma_enum_properties_keep_the_values(members: Seq<TsEnumMemberView>)
    requires
        enum_members_supported(members),
    ensures
        spec_enum_members(members).len() == members.len(),
        forall|i: int|
            0 <= i < members.len() ==> {
                let property = #[trigger] spec_enum_members(members)[i];
                &&& property is TsPropertySignature
                &&& property->TsPropertySignature_0.readonly
                &&& property->TsPropertySignature_0.type_ann matches Some(
                    TsTypeView::Lit(TsLitView::Number(value)),
                )
                &&& members[i].init matches Some(ExprView::Lit(LitView::Num(written)))
                    ==> value == written
                &&& members[i].init matches Some(ExprView::Unary { op: UnaryOp::Minus, arg })
                    ==> *arg matches ExprView::Lit(LitView::Num(written)) && value.bits
                    == written.bits ^ SIGN_BIT
            },
{
    assert forall|i: int| 0 <= i < members.len() implies {
        let property = #[trigger] spec_enum_members(members)[i];
        &&& property is TsPropertySignature
        &&& property->TsPropertySignature_0.readonly
        &&& property->TsPropertySignature_0.type_ann matches Some(
            TsTypeView::Lit(TsLitView::Number(value)),
        )
        &&& members[i].init matches Some(ExprView::Lit(LitView::Num(written)))
            ==> value == written
        &&& members[i].init matches Some(ExprView::Unary { op: UnaryOp::Minus, arg })
            ==> *arg matches ExprView::Lit(LitView::Num(written)) && value.bits
            == written.bits ^ SIGN_BIT
    } by {
        assert(spec_enum_member_value(members[i].init) is Some);
    }
}

fn type_args(type_params: &Option<TsTypeParamDecl>) -> (r: Option<Vec<TsType>>)
    ensures
        (match r {
            Some(args) => Some(TsType::models(args@)),
            None => None,
        }) == spec_type_args(type_params.deep_view()),
{
    match type_params {
        Some(p) => {
            let mut args: Vec<TsType> = Vec::new();
            let mut i: usize = 0;
            while i < p.params.len()
                invariant
                    i <= p.params.len(),
                    args.len() == i,
                    forall|j: int| 0 <= j < i ==> args[j]@ == TsTypeView::named(p.params[j]@.name),
                decreases p.params.len() - i,
            {
                args.push(TsType::named(p.params[i].name.clone()));
                i += 1;
            }
            Some(args)
        },
        None => None,
    }
}

fn construct_signature(
    constructor: &Constructor,
    class_name: &Ident,
    type_params: &Option<TsTypeParamDecl>,
) -> (r: TsTypeElement)
    ensures
        r@ == spec_construct_signature(constructor@, class_name@, type_params.deep_view()),
{
    let class_type = TsType::TypeRef {
        name: class_name.clone(),
        type_args: type_args(type_params),
    };
    TsTypeElement::TsConstructSignatureDecl(
        TsConstructSignatureDecl {
            span: constructor.span,
            params: constructor_params_to_ts_fn_params(&constructor.params),
            type_ann: Some(class_type),
            type_params: match type_params {
                Some(t) => Some(t.clone()),
                None => None,
            },
        },
    )
}

/// The member that stands for a member of a class in the nested type, if it has one.
pub fn class_member_to_ts_type_element(
    class_member: &ClassMember,
    class_name: &Ident,
    type_params: &Option<TsTypeParamDecl>,
) -> (r: Option<TsTypeElement>)
    ensures
        r.deep_view() == spec_class_member_to_ts_type_element(
            class_member@,
            class_name@,
            type_params.deep_view(),
        ),
{
    match class_member {
        ClassMember::Constructor(constructor) => Some(
            construct_signature(constructor, class_name, type_params),
        ),
        _ => crate::type_decls::class_member_to_ts_type_element(class_member),
    }
}

/// The members that stand for a class, in the order of its body.
pub fn class_members(class: &ClassDecl) -> (r: Vec<TsTypeElement>)
    ensures
        TsTypeElement::models(r@) == spec_class_members(class@),
{
    let body = &class.class.body;
    let ghost all = ClassMember::models(body@);
    let ghost f = class_member_signature(class@.ident, class@.class.type_params);
    let mut r: Vec<TsTypeElement> = Vec::new();
    let mut i: usize = 0;
    while i < body.len()
        invariant
            i <= body.len(),
            body == &class.class.body,
            all == ClassMember::models(body@),
            f == class_member_signature(class@.ident, class@.class.type_params),
            TsTypeElement::models(r@) == all.take(i as int).filter_map(f),
        decreases body.len() - i,
    {
        proof {
            all.lemma_filter_map_take_succ(f, i as int);
        }
        match class_member_to_ts_type_element(&body[i], &class.ident, &class.class.type_params) {
            Some(element) => {
                r.push(element);
            },
            None => {},
        }
        i += 1;
    }
    assert(all.take(body.len() as int) =~= all);
    r
}

/// The number that an enum member is set to, where it is set to one.
pub fn enum_member_value(init: &Option<Expr>) -> (r: Option<Number>)
    ensures
        r.deep_view() == spec_enum_member_value(init.deep_view()),
{
    proof {
        reveal_with_fuel(Expr::model, 2);
    }
    match init {
        Some(Expr::Lit(Lit::Num(num))) => Some(num.clone()),
        Some(Expr::Unary { op: UnaryOp::Minus, arg }) => match &**arg {
            Expr::Lit(Lit::Num(num)) => Some(num.negated()),
            _ => None,
        },
        _ => None,
    }
}

/// The property that stands for an enum member.
pub fn enum_member_to_ts_type_element(enum_member: &TsEnumMember) -> (r: TsTypeElement)
    requires
        spec_enum_member_value(enum_member@.init) is Some,
    ensures
        r@ == spec_enum_member_to_ts_type_element(enum_member@),
{
    let key = match &enum_member.id {
        TsEnumMemberId::Ident(ident) => Expr::Ident(ident.clone()),
        TsEnumMemberId::Str(str) => Expr::Lit(Lit::Str(str.clone())),
    };
    let value = match enum_member_value(&enum_member.init) {
        Some(num) => num,
        None => unreached(),
    };
    TsTypeElement::TsPropertySignature(
        TsPropertySignature {
            span: enum_member.span,
            readonly: true,
            key,
            computed: false,
            optional: false,
            type_ann: Some(TsType::Lit(TsLit::Number(value))),
        },
    )
}

/// The properties that stand for the members of an enum, one for one.
pub fn enum_members(members: &Vec<TsEnumMember>) -> (r: Vec<TsTypeElement>)
    requires
        enum_members_supported(TsEnumMember::models(members@)),
    ensures
        TsTypeElement::models(r@) == spec_enum_members(TsEnumMember::models(members@)),
{
    let ghost all = TsEnumMember::models(members@);
    let mut r: Vec<TsTypeElement> = Vec::new();
    let mut i: usize = 0;
    while i < members.len()
        invariant
            i <= members.len(),
            all == TsEnumMember::models(members@),
            enum_members_supported(all),
            r.len() == i,
            forall|j: int| 0 <= j < i ==> r[j]@ == spec_enum_member_to_ts_type_element(all[j]),
        decreases members.len() - i,
    {
        assert(spec_enum_member_value(all[i as int].init) is Some);
        r.push(enum_member_to_ts_type_element(&members[i]));
        i += 1;
    }
    r
}

/// The property named `name` that begins at `pos`.
pub open spec fn spec_named_property(
    pos: u32,
    readonly: bool,
    name: IdentView,
    type_ann: Option<TsTypeView>,
) -> TsTypeElementView {
    TsTypeElementView::TsPropertySignature(
        TsPropertySignatureView {
            span: Span::spec_at(pos),
            readonly,
            key: ExprView::Ident(name),
            computed: false,
            optional: false,
            type_ann,
        },
    )
}

/// The method that stands for a function: its name, its parameters, lowered, its result and
/// its generic parameters.
pub open spec fn spec_fn_method(pos: u32, fn_decl: FnDeclView) -> TsTypeElementView {
    TsTypeElementView::TsMethodSignature(
        TsMethodSignatureView {
            span: Span::spec_at(pos),
            readonly: false,
            key: ExprView::Ident(fn_decl.ident),
            computed: false,
            optional: false,
            params: spec_params_to_ts_fn_params(fn_decl.function.params),
            type_ann: fn_decl.function.return_type,
            type_params: fn_decl.function.type_params,
        },
    )
}

/// The property that stands for one binding of a variable declaration: read-only exactly
/// when the declaration says `const`, with the type that the binding is declared with.
pub open spec fn spec_var_property(
    pos: u32,
    kind: VarDeclKind,
    declarator: VarDeclaratorView,
) -> TsTypeElementView
    recommends
        declarator.name is Ident,
{
    spec_named_property(
        pos,
        kind is Const,
        declarator.name->Ident_0.id,
        declarator.name->Ident_0.type_ann,
    )
}

/// The properties that stand for a variable declaration, one for each binding, beginning
/// at the positions from `ps[base]` on.
pub open spec fn spec_var_properties(var_decl: VarDeclView, ps: Seq<u32>, base: nat) -> Seq<
    TsTypeElementView,
> {
    Seq::new(
        var_decl.decls.len(),
        |i: int| spec_var_property(ps[base + i], var_decl.kind, var_decl.decls[i]),
    )
}

/// A variable declaration gives one property for each binding, and `const` alone makes them
/// read-only.
///
/// Whatever the positions: there are as many properties as bindings, in the order of the
/// bindings; each has the name and the declared type of its binding; and each is read-only
/// if the declaration says `const`, and can be written if it says `let` or `var`.
pub proof fn lemma_var_properties_follow_the_bindings(
    var_decl: VarDeclView,
    ps: Seq<u32>,
    base: nat,
)
    requires
        var_supported(var_decl),
    ensures
        spec_var_properties(var_decl, ps, base).len() == var_decl.decls.len(),
        forall|i: int|
            0 <= i < var_decl.decls.len() ==> {
                let property = #[trigger] spec_var_properties(var_decl, ps, base)[i];
                &&& property is TsPropertySignature
                &&& property->TsPropertySignature_0.readonly == (var_decl.kind is Const)
                &&& property->TsPropertySignature_0.key == ExprView::Ident(
                    var_decl.decls[i].name->Ident_0.id,
                )
                &&& property->TsPropertySignature_0.type_ann
                    == var_decl.decls[i].name->Ident_0.type_ann
            },
{
}

/// The registry's contents after `comments` were put before each of the `n` positions from
/// `ps[base]` on.
pub open spec fn with_attached_each(
    held: Map<u32, Seq<CommentView>>,
    ps: Seq<u32>,
    base: nat,
    n: nat,
    comments: Option<Seq<CommentView>>,
) -> Map<u32, Seq<CommentView>>
    decreases n,
{
    if n == 0 {
        held
    } else {
        with_attached(
            with_attached_each(held, ps, base, (n - 1) as nat, comments),
            ps[base + n - 1],
            comments,
        )
    }
}

/// Whether every binding of a variable declaration is a plain name.
pub open spec fn var_supported(var_decl: VarDeclView) -> bool {
    forall|i: int| 0 <= i < var_decl.decls.len() ==> (#[trigger] var_decl.decls[i]).name is Ident
}

/// Whether a member can be made for a collected declaration: every binding of a variable
/// declaration is a plain name, every member of an enum is set to a number, and a namespace
/// has a plain name and holds nothing but such declarations.
pub open spec fn supported_one(result: ResultDeclWithCommentsView) -> bool
    decreases result, 0nat,
{
    match result.decl {
        ResultDeclView::Var(var_decl) => var_supported(var_decl),
        ResultDeclView::TsEnum(ts_enum) => enum_members_supported(ts_enum.members),
        ResultDeclView::SubModule(sub_module) => sub_module.name is Ident && supported(
            sub_module.decl_vec,
        ),
        _ => true,
    }
}

/// Whether a member can be made for each of the collected declarations.
pub open spec fn supported(result_vec: Seq<ResultDeclWithCommentsView>) -> bool
    decreases result_vec, 0nat,
{
    forall|i: int| 0 <= i < result_vec.len() ==> supported_one(#[trigger] result_vec[i])
}

/// How many positions the members for one collected declaration take: one for each member
/// that stands for a declaration, the members inside a namespace included.
pub open spec fn positions_needed_one(result: ResultDeclWithCommentsView) -> nat
    decreases result, 0nat,
{
    match result.decl {
        ResultDeclView::Class(_) => 1,
        ResultDeclView::Fn(_) => 1,
        ResultDeclView::Var(var_decl) => var_decl.decls.len(),
        ResultDeclView::TsInterface(_) => 0,
        ResultDeclView::TsTypeAlias(_) => 0,
        ResultDeclView::TsEnum(_) => 1,
        ResultDeclView::SubModule(sub_module) => 1 + positions_needed(
            sub_module.decl_vec,
            sub_module.decl_vec.len(),
        ),
    }
}

/// How many positions the members for the first `n` collected declarations take.
pub open spec fn positions_needed(result_vec: Seq<ResultDeclWithCommentsView>, n: nat) -> nat
    decreases result_vec, n,
{
    if n == 0 || n > result_vec.len() {
        0
    } else {
        positions_needed(result_vec, (n - 1) as nat) + positions_needed_one(result_vec[n - 1])
    }
}

/// The members that stand for one collected declaration, beginning at the positions from
/// `ps[base]` on.
pub open spec fn spec_result_decl_to_ts_property_signature(
    result: ResultDeclWithCommentsView,
    ps: Seq<u32>,
    base: nat,
) -> Seq<TsTypeElementView>
    decreases result, 0nat,
{
    match result.decl {
        ResultDeclView::Class(class) => seq![
            spec_named_property(
                ps[base as int],
                true,
                class.ident,
                Some(TsTypeView::TypeLit(spec_class_members(class))),
            ),
        ],
        ResultDeclView::Fn(fn_decl) => seq![spec_fn_method(ps[base as int], fn_decl)],
        ResultDeclView::Var(var_decl) => spec_var_properties(var_decl, ps, base),
        ResultDeclView::TsInterface(_) => Seq::empty(),
        ResultDeclView::TsTypeAlias(_) => Seq::empty(),
        ResultDeclView::TsEnum(ts_enum) => seq![
            spec_named_property(
                ps[base as int],
                true,
                ts_enum.id,
                Some(TsTypeView::TypeLit(spec_enum_members(ts_enum.members))),
            ),
        ],
        ResultDeclView::SubModule(sub_module) => seq![
            spec_named_property(
                ps[base as int],
                true,
                sub_module.name->Ident_0,
                Some(
                    TsTypeView::TypeLit(
                        spec_result_decl_vec_to_members(
                            sub_module.decl_vec,
                            ps,
                            base + 1,
                            sub_module.decl_vec.len(),
                        ),
                    ),
                ),
            ),
        ],
    }
}

/// The members that stand for the first `n` collected declarations, beginning at the
/// positions from `ps[base]` on: what each declaration gives, one after the other.
pub open spec fn spec_result_decl_vec_to_members(
    result_vec: Seq<ResultDeclWithCommentsView>,
    ps: Seq<u32>,
    base: nat,
    n: nat,
) -> Seq<TsTypeElementView>
    decreases result_vec, n,
{
    if n == 0 || n > result_vec.len() {
        Seq::empty()
    } else {
        spec_result_decl_vec_to_members(result_vec, ps, base, (n - 1) as nat)
            + spec_result_decl_to_ts_property_signature(
            result_vec[n - 1],
            ps,
            base + positions_needed(result_vec, (n - 1) as nat),
        )
    }
}

/// The type literal of the members that stand for the collected declarations.
pub open spec fn spec_result_decl_vec_to_ts_type(
    result_vec: Seq<ResultDeclWithCommentsView>,
    ps: Seq<u32>,
    base: nat,
) -> TsTypeView {
    TsTypeView::TypeLit(spec_result_decl_vec_to_members(result_vec, ps, base, result_vec.len()))
}

/// What the registry holds after the members for one collected declaration were made: the
/// comments of the declaration stand before each member that stands for it.
pub open spec fn spec_comments_one(
    held: Map<u32, Seq<CommentView>>,
    result: ResultDeclWithCommentsView,
    ps: Seq<u32>,
    base: nat,
) -> Map<u32, Seq<CommentView>>
    decreases result, 0nat,
{
    match result.decl {
        ResultDeclView::Class(_) => with_attached(held, ps[base as int], result.comments),
        ResultDeclView::Fn(_) => with_attached(held, ps[base as int], result.comments),
        ResultDeclView::Var(var_decl) => with_attached_each(
            held,
            ps,
            base,
            var_decl.decls.len(),
            result.comments,
        ),
        ResultDeclView::TsInterface(_) => held,
        ResultDeclView::TsTypeAlias(_) => held,
        ResultDeclView::TsEnum(_) => with_attached(held, ps[base as int], result.comments),
        ResultDeclView::SubModule(sub_module) => spec_comments(
            with_attached(held, ps[base as int], result.comments),
            sub_module.decl_vec,
            ps,
            base + 1,
            sub_module.decl_vec.len(),
        ),
    }
}

/// What the registry holds after the members for the first `n` collected declarations were
/// made.
pub open spec fn spec_comments(
    held: Map<u32, Seq<CommentView>>,
    result_vec: Seq<ResultDeclWithCommentsView>,
    ps: Seq<u32>,
    base: nat,
    n: nat,
) -> Map<u32, Seq<CommentView>>
    decreases result_vec, n,
{
    if n == 0 || n > result_vec.len() {
        held
    } else {
        spec_comments_one(
            spec_comments(held, result_vec, ps, base, (n - 1) as nat),
            result_vec[n - 1],
            ps,
            base + positions_needed(result_vec, (n - 1) as nat),
        )
    }
}

/// The members for fewer declarations take no more positions.
pub proof fn lemma_positions_needed_grows(
    result_vec: Seq<ResultDeclWithCommentsView>,
    m: nat,
    n: nat,
)
    requires
        m <= n <= result_vec.len(),
    ensures
        positions_needed(result_vec, m) <= positions_needed(result_vec, n),
    decreases n,
{
    if m < n {
        lemma_positions_needed_grows(result_vec, m, (n - 1) as nat);
    }
}

fn named_property(pos: u32, readonly: bool, name: Ident, type_ann: Option<TsType>) -> (r:
    TsTypeElement)
    ensures
        r@ == spec_named_property(pos, readonly, name@, type_ann.deep_view()),
{
    TsTypeElement::TsPropertySignature(
        TsPropertySignature {
            span: Span::at(pos),
            readonly,
            key: Expr::Ident(name),
            computed: false,
            optional: false,
            type_ann,
        },
    )
}

fn fn_method(pos: u32, fn_decl: &FnDecl) -> (r: TsTypeElement)
    ensures
        r@ == spec_fn_method(pos, fn_decl@),
{
    TsTypeElement::TsMethodSignature(
        TsMethodSignature {
            span: Span::at(pos),
            readonly: false,
            key: Expr::Ident(fn_decl.ident.clone()),
            computed: false,
            optional: false,
            params: params_to_ts_fn_params(&fn_decl.function.params),
            type_ann: match &fn_decl.function.return_type {
                Some(t) => Some(t.clone()),
                None => None,
            },
            type_params: match &fn_decl.function.type_params {
                Some(t) => Some(t.clone()),
                None => None,
            },
        },
    )
}

fn var_property(pos: u32, kind: VarDeclKind, declarator: &VarDeclarator) -> (r: TsTypeElement)
    requires
        declarator@.name is Ident,
    ensures
        r@ == spec_var_property(pos, kind, declarator@),
{
    let readonly = match kind {
        VarDeclKind::Var => false,
        VarDeclKind::Let => false,
        VarDeclKind::Const => true,
    };
    match &declarator.name {
        Pat::Ident(binding_ident) => named_property(
            pos,
            readonly,
            binding_ident.id.clone(),
            match &binding_ident.type_ann {
                Some(t) => Some(t.clone()),
                None => None,
            },
        ),
        _ => unreached(),
    }
}

fn one(element: TsTypeElement) -> (r: Vec<TsTypeElement>)
    ensures
        TsTypeElement::models(r@) == seq![element@],
{
    let mut r: Vec<TsTypeElement> = Vec::new();
    r.push(element);
    r
}

fn nothing() -> (r: Vec<TsTypeElement>)
    ensures
        TsTypeElement::models(r@) == Seq::<TsTypeElementView>::empty(),
{
    let r: Vec<TsTypeElement> = Vec::new();
    r
}

fn var_properties(
    var_decl: &VarDecl,
    found: &Option<Vec<Comment>>,
    positions: &Vec<u32>,
    base: usize,
    comments: &mut Registry,
) -> (r: Vec<TsTypeElement>)
    requires
        var_supported(var_decl@),
        base + var_decl.decls.len() <= positions.len(),
    ensures
        TsTypeElement::models(r@) == spec_var_properties(var_decl@, positions@, base as nat),
        final(comments)@ == with_attached_each(
            old(comments)@,
            positions@,
            base as nat,
            var_decl.decls.len() as nat,
            spec_found(*found),
        ),
{
    let ghost held = comments@;
    let mut r: Vec<TsTypeElement> = Vec::new();
    let mut i: usize = 0;
    while i < var_decl.decls.len()
        invariant
            i <= var_decl.decls.len(),
            var_supported(var_decl@),
            base + var_decl.decls.len() <= positions.len(),
            r.len() == i,
            forall|j: int|
                0 <= j < i ==> r[j]@ == spec_var_property(
                    positions@[base + j],
                    var_decl@.kind,
                    var_decl@.decls[j],
                ),
            comments@ == with_attached_each(
                held,
                positions@,
                base as nat,
                i as nat,
                spec_found(*found),
            ),
        decreases var_decl.decls.len() - i,
    {
        let pos = positions[base + i];
        assert(var_decl@.decls[i as int] == var_decl.decls[i as int]@);
        attach(comments, pos, found);
        r.push(var_property(pos, var_decl.kind, &var_decl.decls[i]));
        i += 1;
    }
    r
}

fn module_name(name: &TsModuleName) -> (r: Ident)
    requires
        name@ is Ident,
    ensures
        r@ == name@->Ident_0,
{
    match name {
        TsModuleName::Ident(ident) => ident.clone(),
        TsModuleName::Str(_) => unreached(),
    }
}

fn members_for_one(
    result: &ResultDeclWithComments,
    positions: &Vec<u32>,
    next: &mut usize,
    comments: &mut Registry,
) -> (r: Vec<TsTypeElement>)
    requires
        supported_one(result@),
        *old(next) + positions_needed_one(result@) <= positions.len(),
    ensures
        *final(next) == *old(next) + positions_needed_one(result@),
        TsTypeElement::models(r@) == spec_result_decl_to_ts_property_signature(
            result@,
            positions@,
            *old(next) as nat,
        ),
        final(comments)@ == spec_comments_one(
            old(comments)@,
            result@,
            positions@,
            *old(next) as nat,
        ),
    decreases result, 0nat,
{
    let base = *next;
    match &result.decl {
        ResultDecl::Class(class) => {
            let pos = positions[base];
            *next = base + 1;
            attach(comments, pos, &result.comments);
            let members = class_members(class);
            one(named_property(pos, true, class.ident.clone(), Some(TsType::type_lit(members))))
        },
        ResultDecl::Fn(fn_decl) => {
            let pos = positions[base];
            *next = base + 1;
            attach(comments, pos, &result.comments);
            one(fn_method(pos, fn_decl))
        },
        ResultDecl::Var(var_decl) => {
            *next = base + var_decl.decls.len();
            var_properties(var_decl, &result.comments, positions, base, comments)
        },
        ResultDecl::TsInterface(_) => nothing(),
        ResultDecl::TsTypeAlias(_) => nothing(),
        ResultDecl::TsEnum(ts_enum) => {
            let pos = positions[base];
            *next = base + 1;
            attach(comments, pos, &result.comments);
            let members = enum_members(&ts_enum.members);
            one(named_property(pos, true, ts_enum.id.clone(), Some(TsType::type_lit(members))))
        },
        ResultDecl::SubModule(sub_module) => {
            let pos = positions[base];
            *next = base + 1;
            attach(comments, pos, &result.comments);
            let inner = members_for_all(&sub_module.decl_vec, positions, next, comments);
            one(
                named_property(
                    pos,
                    true,
                    module_name(&sub_module.name),
                    Some(TsType::type_lit(inner)),
                ),
            )
        },
    }
}

fn members_for_all(
    result_vec: &Vec<ResultDeclWithComments>,
    positions: &Vec<u32>,
    next: &mut usize,
    comments: &mut Registry,
) -> (r: Vec<TsTypeElement>)
    requires
        supported(ResultDeclWithComments::models(result_vec@)),
        *old(next) + positions_needed(
            ResultDeclWithComments::models(result_vec@),
            result_vec.len() as nat,
        ) <= positions.len(),
    ensures
        *final(next) == *old(next) + positions_needed(
            ResultDeclWithComments::models(result_vec@),
            result_vec.len() as nat,
        ),
        TsTypeElement::models(r@) == spec_result_decl_vec_to_members(
            ResultDeclWithComments::models(result_vec@),
            positions@,
            *old(next) as nat,
            result_vec.len() as nat,
        ),
        final(comments)@ == spec_comments(
            old(comments)@,
            ResultDeclWithComments::models(result_vec@),
            positions@,
            *old(next) as nat,
            result_vec.len() as nat,
        ),
    decreases result_vec, 1nat,
{
    let ghost all = ResultDeclWithComments::models(result_vec@);
    let ghost held = comments@;
    let ghost base = *next as nat;
    let mut r: Vec<TsTypeElement> = nothing();
    let mut i: usize = 0;
    while i < result_vec.len()
        invariant
            i <= result_vec.len(),
            all == ResultDeclWithComments::models(result_vec@),
            supported(all),
            base + positions_needed(all, result_vec.len() as nat) <= positions.len(),
            *next == base + positions_needed(all, i as nat),
            TsTypeElement::models(r@) == spec_result_decl_vec_to_members(
                all,
                positions@,
                base,
                i as nat,
            ),
            comments@ == spec_comments(held, all, positions@, base, i as nat),
        decreases result_vec.len() - i,
    {
        proof {
            lemma_positions_needed_grows(all, (i + 1) as nat, result_vec.len() as nat);
        }
        let mut found = members_for_one(&result_vec[i], positions, next, comments);
        r.append(&mut found);
        i += 1;
    }
    r
}

/// Makes the members that stand for one collected declaration, at positions that the
/// caller chose, and puts the comments of the declaration before each member that stands
/// for it.
///
/// The positions are taken from `positions[base]` on: one for a class, a function or an
/// enum, one for each binding of a variable declaration, and for a namespace one, followed
/// by those of the members inside it.
pub fn result_decl_to_ts_property_signature_at(
    result: &ResultDeclWithComments,
    positions: &Vec<u32>,
    base: usize,
    comments: &mut Registry,
) -> (r: Vec<TsTypeElement>)
    requires
        supported_one(result@),
        base + positions_needed_one(result@) <= positions.len(),
    ensures
        TsTypeElement::models(r@) == spec_result_decl_to_ts_property_signature(
            result@,
            positions@,
            base as nat,
        ),
        final(comments)@ == spec_comments_one(
            old(comments)@,
            result@,
            positions@,
            base as nat,
        ),
{
    let mut next = base;
    members_for_one(result, positions, &mut next, comments)
}

/// Makes the type literal of the members that stand for the collected declarations, at
/// positions that the caller chose, and puts the comments of each declaration before the
/// members that stand for it.
///
/// The positions are taken from `positions[base]` on, one for each member that stands for
/// a declaration, in the order in which these members begin in the result.
pub fn result_decl_vec_to_ts_type_at(
    result_vec: &Vec<ResultDeclWithComments>,
    positions: &Vec<u32>,
    base: usize,
    comments: &mut Registry,
) -> (r: TsType)
    requires
        supported(ResultDeclWithComments::models(result_vec@)),
        base + positions_needed(
            ResultDeclWithComments::models(result_vec@),
            result_vec.len() as nat,
        ) <= positions.len(),
    ensures
        r@ == spec_result_decl_vec_to_ts_type(
            ResultDeclWithComments::models(result_vec@),
            positions@,
            base as nat,
        ),
        final(comments)@ == spec_comments(
            old(comments)@,
            ResultDeclWithComments::models(result_vec@),
            positions@,
            base as nat,
            result_vec.len() as nat,
        ),
{
    let mut next = base;
    TsType::type_lit(members_for_all(result_vec, positions, &mut next, comments))
}

/// The text of the comment that stands before the nested type.
pub const API_DOC: &'static str =
    "*\n * Type Definition for Visual Studio Code 1.75 Extension API\n * See https://code.visualstudio.com/api for more information\n ";

/// The text of the comment that stands before the nested type.
pub open spec fn spec_api_doc_text() -> Seq<char> {
    API_DOC@
}

/// The comment that stands before the nested type.
pub open spec fn spec_api_doc() -> CommentView {
    CommentView { kind: CommentKind::Block, span: Span::spec_dummy(), text: spec_api_doc_text() }
}

/// `export type VSCodeAPI = { .. }`: the nested type under its name, beginning at
/// `ps[base]`, with the members for the collected declarations at the positions that follow.
pub open spec fn spec_module_item(
    result_vec: Seq<ResultDeclWithCommentsView>,
    ps: Seq<u32>,
    base: nat,
) -> ModuleItemView {
    spec_exported(
        ps[base as int],
        DeclView::TsTypeAlias(
            TsTypeAliasDeclView {
                span: Span::spec_dummy(),
                declare: false,
                id: spec_vs_code_api_ident(),
                type_params: None,
                type_ann: spec_result_decl_vec_to_ts_type(result_vec, ps, base + 1),
            },
        ),
    )
}

/// What the registry holds after [`module_item_at`]: the comment that names the interface
/// stands before `ps[base]`, and the comments of each declaration before the members that
/// stand for it.
pub open spec fn spec_module_item_comments(
    held: Map<u32, Seq<CommentView>>,
    result_vec: Seq<ResultDeclWithCommentsView>,
    ps: Seq<u32>,
    base: nat,
) -> Map<u32, Seq<CommentView>> {
    spec_comments(
        with_added(held, ps[base as int], seq![spec_api_doc()]),
        result_vec,
        ps,
        base + 1,
        result_vec.len(),
    )
}

fn api_doc() -> (r: Vec<Comment>)
    ensures
        Comment::models(r@) == seq![spec_api_doc()],
{
    let mut r: Vec<Comment> = Vec::new();
    r.push(
        Comment {
            kind: CommentKind::Block,
            span: Span::dummy(),
            text: API_DOC.to_owned(),
        },
    );
    r
}

/// Makes `export type VSCodeAPI = { .. }` for the collected declarations, at positions
/// that the caller chose, and puts the comments before what they belong to.
///
/// The type begins at `positions[base]`; its members take the positions that follow.
pub fn module_item_at(
    positions: &Vec<u32>,
    base: usize,
    comments: &mut Registry,
    result_vec: &Vec<ResultDeclWithComments>,
) -> (r: ModuleItem)
    requires
        supported(ResultDeclWithComments::models(result_vec@)),
        base + 1 + positions_needed(
            ResultDeclWithComments::models(result_vec@),
            result_vec.len() as nat,
        ) <= positions.len(),
    ensures
        r@ == spec_module_item(
            ResultDeclWithComments::models(result_vec@),
            positions@,
            base as nat,
        ),
        final(comments)@ == spec_module_item_comments(
            old(comments)@,
            ResultDeclWithComments::models(result_vec@),
            positions@,
            base as nat,
        ),
{
    let pos = positions[base];
    add_leading_comments(comments, pos, api_doc());
    let alias = TsTypeAliasDecl {
        span: Span::dummy(),
        declare: false,
        id: vs_code_api_ident(),
        type_params: None,
        type_ann: result_decl_vec_to_ts_type_at(result_vec, positions, base + 1, comments),
    };
    exported(pos, Decl::TsTypeAlias(alias))
}

fn positions_count_one(result: &ResultDeclWithComments) -> (r: Option<usize>)
    ensures
        match r {
            Some(n) => n == positions_needed_one(result@),
            None => positions_needed_one(result@) > usize::MAX,
        },
    decreases result, 0nat,
{
    match &result.decl {
        ResultDecl::Class(_) => Some(1),
        ResultDecl::Fn(_) => Some(1),
        ResultDecl::Var(var_decl) => Some(var_decl.decls.len()),
        ResultDecl::TsInterface(_) => Some(0),
        ResultDecl::TsTypeAlias(_) => Some(0),
        ResultDecl::TsEnum(_) => Some(1),
        ResultDecl::SubModule(sub_module) => match positions_count(&sub_module.decl_vec) {
            Some(n) => if n < usize::MAX {
                Some(n + 1)
            } else {
                None
            },
            None => None,
        },
    }
}

/// How many positions the members for the collected declarations take; `None` where the
/// number is too large to be counted.
pub fn positions_count(result_vec: &Vec<ResultDeclWithComments>) -> (r: Option<usize>)
    ensures
        match r {
            Some(n) => n == positions_needed(
                ResultDeclWithComments::models(result_vec@),
                result_vec.len() as nat,
            ),
            None => positions_needed(
                ResultDeclWithComments::models(result_vec@),
                result_vec.len() as nat,
            ) > usize::MAX,
        },
    decreases result_vec, 1nat,
{
    let ghost all = ResultDeclWithComments::models(result_vec@);
    let mut total: usize = 0;
    let mut i: usize = 0;
    while i < result_vec.len()
        invariant
            i <= result_vec.len(),
            all == ResultDeclWithComments::models(result_vec@),
            total == positions_needed(all, i as nat),
        decreases result_vec.len() - i,
    {
        proof {
            lemma_positions_needed_grows(all, (i + 1) as nat, result_vec.len() as nat);
        }
        match positions_count_one(&result_vec[i]) {
            Some(n) => {
                if n > usize::MAX - total {
                    return None;
                }
                total = total + n;
            },
            None => {
                return None;
            },
        }
        i += 1;
    }
    Some(total)
}

/// Takes `n` positions from `swc_common`, one after the other.
pub fn draw_positions(globals: &swc_common::Globals, n: usize) -> (r: Vec<u32>)
    ensures
        r.len() == n,
{
    let mut r: Vec<u32> = Vec::new();
    let mut i: usize = 0;
    while i < n
        invariant
            i <= n,
            r.len() == i,
        decreases n - i,
    {
        r.push(dummy_with_cmt(globals));
        i += 1;
    }
    r
}

/// Makes `export type VSCodeAPI = { .. }` for the collected declarations, and puts the
/// comments before what they belong to.
///
/// The positions come from `swc_common`, which hands them out for nodes that stand nowhere
/// in the source text; for these positions the result is what [`module_item_at`] gives.
pub fn module_item(
    comments: &mut Registry,
    globals: &swc_common::Globals,
    result_vec: &Vec<ResultDeclWithComments>,
) -> (r: ModuleItem)
    requires
        supported(ResultDeclWithComments::models(result_vec@)),
        positions_needed(ResultDeclWithComments::models(result_vec@), result_vec.len() as nat)
            < usize::MAX,
    ensures
        exists|ps: Seq<u32>|
            {
                &&& ps.len() == 1 + positions_needed(
                    ResultDeclWithComments::models(result_vec@),
                    result_vec.len() as nat,
                )
                &&& r@ == spec_module_item(ResultDeclWithComments::models(result_vec@), ps, 0)
                &&& final(comments)@ == spec_module_item_comments(
                    old(comments)@,
                    ResultDeclWithComments::models(result_vec@),
                    ps,
                    0,
                )
            },
{
    let n = match positions_count(result_vec) {
        Some(n) => n,
        None => unreached(),
    };
    let positions = draw_positions(globals, n + 1);
    module_item_at(&positions, 0, comments, result_vec)
}

fn var_is_supported(var_decl: &VarDecl) -> (r: bool)
    ensures
        r == var_supported(var_decl@),
{
    let mut i: usize = 0;
    while i < var_decl.decls.len()
        invariant
            i <= var_decl.decls.len(),
            forall|j: int| 0 <= j < i ==> (#[trigger] var_decl@.decls[j]).name is Ident,
        decreases var_decl.decls.len() - i,
    {
        assert(var_decl@.decls[i as int] == var_decl.decls[i as int]@);
        match &var_decl.decls[i].name {
            Pat::Ident(_) => {},
            _ => {
                return false;
            },
        }
        i += 1;
    }
    true
}

fn enum_is_supported(ts_enum: &TsEnumDecl) -> (r: bool)
    ensures
        r == enum_members_supported(ts_enum@.members),
{
    let mut i: usize = 0;
    while i < ts_enum.members.len()
        invariant
            i <= ts_enum.members.len(),
            forall|j: int|
                0 <= j < i ==> spec_enum_member_value(
                    (#[trigger] ts_enum@.members[j]).init,
                ) is Some,
        decreases ts_enum.members.len() - i,
    {
        assert(ts_enum@.members[i as int] == ts_enum.members[i as int]@);
        if enum_member_value(&ts_enum.members[i].init).is_none() {
            return false;
        }
        i += 1;
    }
    true
}

fn is_supported_one(result: &ResultDeclWithComments) -> (r: bool)
    ensures
        r == supported_one(result@),
    decreases result, 0nat,
{
    match &result.decl {
        ResultDecl::Var(var_decl) => var_is_supported(var_decl),
        ResultDecl::TsEnum(ts_enum) => enum_is_supported(ts_enum),
        ResultDecl::SubModule(sub_module) => match &sub_module.name {
            TsModuleName::Ident(_) => is_supported(&sub_module.decl_vec),
            TsModuleName::Str(_) => false,
        },
        _ => true,
    }
}

/// Whether a member can be made for each of the collected declarations: what
/// [`module_item`] asks of them.
pub fn is_supported(result_vec: &Vec<ResultDeclWithComments>) -> (r: bool)
    ensures
        r == supported(ResultDeclWithComments::models(result_vec@)),
    decreases result_vec, 1nat,
{
    let ghost all = ResultDeclWithComments::models(result_vec@);
    let mut i: usize = 0;
    while i < result_vec.len()
        invariant
            i <= result_vec.len(),
            all == ResultDeclWithComments::models(result_vec@),
            forall|j: int| 0 <= j < i ==> supported_one(#[trigger] all[j]),
        decreases result_vec.len() - i,
    {
        if !is_supported_one(&result_vec[i]) {
            assert(!supported_one(all[i as int]));
            return false;
        }
        i += 1;
    }
    true
}

} // verus!

//! Type expressions and the members of a type literal.

use vstd::prelude::*;
use crate::ast::expr::{Expr, ExprView};
use crate::ast::span::{NodeId, Span};
use crate::ast::token::{Ident, IdentView, Number, NumberView, Str, StrView};

verus! {

/// The keyword of a keyword type.
#[derive(Clone, Copy, Debug, PartialEq, Eq, Structural)]
pub enum TsKeywordTypeKind {
    TsAnyKeyword,
    TsUnknownKeyword,
    TsNumberKeyword,
    TsObjectKeyword,
    TsBooleanKeyword,
    TsBigIntKeyword,
    TsStringKeyword,
    TsSymbolKeyword,
    TsVoidKeyword,
    TsUndefinedKeyword,
    TsNullKeyword,
    TsNeverKeyword,
    TsIntrinsicKeyword,
}

/// The literal of a literal type.
#[derive(Debug, PartialEq, Eq)]
pub enum TsLit {
    Number(Number),
    Str(Str),
}

/// The value of [`TsLit`] that contracts speak of.
#[verifier::ext_equal]
pub ghost enum TsLitView {
    Number(NumberView),
    Str(StrView),
}

impl TsLit {
    /// The value that `self` stands for.
    pub open spec fn model(self) -> TsLitView {
        match self {
            TsLit::Number(a) => TsLitView::Number(a.model()),
            TsLit::Str(a) => TsLitView::Str(a.model()),
        }
    }
}

impl View for TsLit {
    type V = TsLitView;

    open spec fn view(&self) -> TsLitView {
        self.model()
    }
}

impl DeepView for TsLit {
    type V = TsLitView;

    open spec fn deep_view(&self) -> TsLitView {
        self.model()
    }
}

impl Clone for TsLit {
    fn clone(&self) -> (r: Self)
        ensures
            r@ == self@,
    {
        match self {
            TsLit::Number(a) => TsLit::Number(a.clone()),
            TsLit::Str(a) => TsLit::Str(a.clone()),
        }
    }
}

/// A type expression, as far as this crate reads or writes one.
#[derive(Debug, PartialEq, Eq)]
pub enum TsType {
    /// `string`, `undefined`, ...
    Keyword(TsKeywordTypeKind),
    /// `name` or `name<type_args>`
    TypeRef { name: Ident, type_args: Option<Vec<TsType>> },
    /// `{ members }`
    TypeLit(Vec<TsTypeElement>),
    /// `1`, `"vscode"`
    Lit(TsLit),
    /// `a | b`
    Union(Vec<TsType>),
    /// `a & b`
    Intersection(Vec<TsType>),
    /// `(a)`
    Parenthesized(Box<TsType>),
    /// `(params) => type_ann`
    Function { params: Vec<TsFnParam>, type_ann: Box<TsType> },
    /// `keyof a`
    KeyOf(Box<TsType>),
    /// `obj_type[index_type]`
    IndexedAccess { obj_type: Box<TsType>, index_type: Box<TsType> },
    /// Any other type, kept by the caller.
    Opaque(NodeId),
}

/// The value of [`TsType`] that contracts speak of.
#[verifier::ext_equal]
pub ghost enum TsTypeView {
    Keyword(TsKeywordTypeKind),
    TypeRef { name: IdentView, type_args: Option<Seq<TsTypeView>> },
    TypeLit(Seq<TsTypeElementView>),
    Lit(TsLitView),
    Union(Seq<TsTypeView>),
    Intersection(Seq<TsTypeView>),
    Parenthesized(Box<TsTypeView>),
    Function { params: Seq<TsFnParamView>, type_ann: Box<TsTypeView> },
    KeyOf(Box<TsTypeView>),
    IndexedAccess { obj_type: Box<TsTypeView>, index_type: Box<TsTypeView> },
    Opaque(NodeId),
}

impl TsType {
    /// The value that `self` stands for.
    pub open spec fn model(self) -> TsTypeView
        decreases self,
    {
        match self {
            TsType::Keyword(a) => TsTypeView::Keyword(a),
            TsType::TypeRef { name, type_args } => TsTypeView::TypeRef {
                name: name.model(),
                type_args: match type_args { Some(x) => Some(TsType::models(x@)), None => None },
            },
            TsType::TypeLit(a) => TsTypeView::TypeLit(TsTypeElement::models(a@)),
            TsType::Lit(a) => TsTypeView::Lit(a.model()),
            TsType::Union(a) => TsTypeView::Union(TsType::models(a@)),
            TsType::Intersection(a) => TsTypeView::Intersection(TsType::models(a@)),
            TsType::Parenthesized(a) => TsTypeView::Parenthesized(Box::new((*a).model())),
            TsType::Function { params, type_ann } => TsTypeView::Function {
                params: TsFnParam::models(params@),
                type_ann: Box::new((*type_ann).model()),
            },
            TsType::KeyOf(a) => TsTypeView::KeyOf(Box::new((*a).model())),
            TsType::IndexedAccess { obj_type, index_type } => TsTypeView::IndexedAccess {
                obj_type: Box::new((*obj_type).model()),
                index_type: Box::new((*index_type).model()),
            },
            TsType::Opaque(a) => TsTypeView::Opaque(a),
        }
    }

    /// The values that the items of `v` stand for, in order.
    pub open spec fn models(v: Seq<TsType>) -> Seq<TsTypeView>
        decreases v,
    {
        Seq::new(
            v.len(),
            |i: int| if 0 <= i < v.len() { v[i].model() } else { arbitrary() },
        )
    }

    /// A copy of every item of `v`, in order.
    pub fn clone_all(v: &Vec<TsType>) -> (r: Vec<TsType>)
        ensures
            TsType::models(r@) == TsType::models(v@),
        decreases v,
    {
        let mut r: Vec<TsType> = Vec::new();
        let mut i: usize = 0;
        while i < v.len()
            invariant
                i <= v.len(),
                r.len() == i,
                forall|j: int| 0 <= j < i ==> r[j]@ == v[j]@,
            decreases v.len() - i,
        {
            r.push(v[i].clone());
            i += 1;
        }
        r
    }
}

impl View for TsType {
    type V = TsTypeView;

    open spec fn view(&self) -> TsTypeView {
        self.model()
    }
}

impl DeepView for TsType {
    type V = TsTypeView;

    open spec fn deep_view(&self) -> TsTypeView {
        self.model()
    }
}

impl Clone for TsType {
    fn clone(&self) -> (r: Self)
        ensures
            r@ == self@,
        decreases self,
    {
        match self {
            TsType::Keyword(a) => TsType::Keyword(*a),
            TsType::TypeRef { name, type_args } => TsType::TypeRef {
                name: name.clone(),
                type_args: match type_args { Some(x) => Some(TsType::clone_all(x)), None => None },
            },
            TsType::TypeLit(a) => TsType::TypeLit(TsTypeElement::clone_all(a)),
            TsType::Lit(a) => TsType::Lit(a.clone()),
            TsType::Union(a) => TsType::Union(TsType::clone_all(a)),
            TsType::Intersection(a) => TsType::Intersection(TsType::clone_all(a)),
            TsType::Parenthesized(a) => TsType::Parenthesized(Box::new((**a).clone())),
            TsType::Function { params, type_ann } => TsType::Function {
                params: TsFnParam::clone_all(params),
                type_ann: Box::new((**type_ann).clone()),
            },
            TsType::KeyOf(a) => TsType::KeyOf(Box::new((**a).clone())),
            TsType::IndexedAccess { obj_type, index_type } => TsType::IndexedAccess {
                obj_type: Box::new((**obj_type).clone()),
                index_type: Box::new((**index_type).clone()),
            },
            TsType::Opaque(a) => TsType::Opaque(*a),
        }
    }
}

/// One generic parameter of a declaration.
#[derive(Debug, PartialEq, Eq)]
pub struct TsTypeParam {
    pub span: Span,
    pub name: Ident,
    pub is_in: bool,
    pub is_out: bool,
    pub is_const: bool,
    pub constraint: Option<TsType>,
    pub default: Option<TsType>,
}

/// The value of [`TsTypeParam`] that contracts speak of.
#[verifier::ext_equal]
pub ghost struct TsTypeParamView {
    pub span: Span,
    pub name: IdentView,
    pub is_in: bool,
    pub is_out: bool,
    pub is_const: bool,
    pub constraint: Option<TsTypeView>,
    pub default: Option<TsTypeView>,
}

impl TsTypeParam {
    /// The value that `self` stands for.
    pub open spec fn model(self) -> TsTypeParamView
        decreases self,
    {
        TsTypeParamView {
            span: self.span,
            name: self.name.model(),
            is_in: self.is_in,
            is_out: self.is_out,
            is_const: self.is_const,
            constraint: match self.constraint { Some(x) => Some(x.model()), None => None },
            default: match self.default { Some(x) => Some(x.model()), None => None },
        }
    }

    /// The values that the items of `v` stand for, in order.
    pub open spec fn models(v: Seq<TsTypeParam>) -> Seq<TsTypeParamView>
        decreases v,
    {
        Seq::new(
            v.len(),
            |i: int| if 0 <= i < v.len() { v[i].model() } else { arbitrary() },
        )
    }

    /// A copy of every item of `v`, in order.
    pub fn clone_all(v: &Vec<TsTypeParam>) -> (r: Vec<TsTypeParam>)
        ensures
            TsTypeParam::models(r@) == TsTypeParam::models(v@),
        decreases v,
    {
        let mut r: Vec<TsTypeParam> = Vec::new();
        let mut i: usize = 0;
        while i < v.len()
            invariant
                i <= v.len(),
                r.len() == i,
                forall|j: int| 0 <= j < i ==> r[j]@ == v[j]@,
            decreases v.len() - i,
        {
            r.push(v[i].clone());
            i += 1;
        }
        r
    }
}

impl View for TsTypeParam {
    type V = TsTypeParamView;

    open spec fn view(&self) -> TsTypeParamView {
        self.model()
    }
}

impl DeepView for TsTypeParam {
    type V = TsTypeParamView;

    open spec fn deep_view(&self) -> TsTypeParamView {
        self.model()
    }
}

impl Clone for TsTypeParam {
    fn clone(&self) -> (r: Self)
        ensures
            r@ == self@,
        decreases self,
    {
        TsTypeParam {
            span: self.span,
            name: self.name.clone(),
            is_in: self.is_in,
            is_out: self.is_out,
            is_const: self.is_const,
            constraint: match &self.constraint { Some(x) => Some(x.clone()), None => None },
            default: match &self.default { Some(x) => Some(x.clone()), None => None },
        }
    }
}

/// The generic parameters of a declaration: `<T, U>`.
#[derive(Debug, PartialEq, Eq)]
pub struct TsTypeParamDecl {
    pub span: Span,
    pub params: Vec<TsTypeParam>,
}

/// The value of [`TsTypeParamDecl`] that contracts speak of.
#[verifier::ext_equal]
pub ghost struct TsTypeParamDeclView {
    pub span: Span,
    pub params: Seq<TsTypeParamView>,
}

impl TsTypeParamDecl {
    /// The value that `self` stands for.
    pub open spec fn model(self) -> TsTypeParamDeclView
        decreases self,
    {
        TsTypeParamDeclView {
            span: self.span,
            params: TsTypeParam::models(self.params@),
        }
    }
}

impl View for TsTypeParamDecl {
    type V = TsTypeParamDeclView;

    open spec fn view(&self) -> TsTypeParamDeclView {
        self.model()
    }
}

impl DeepView for TsTypeParamDecl {
    type V = TsTypeParamDeclView;

    open spec fn deep_view(&self) -> TsTypeParamDeclView {
        self.model()
    }
}

impl Clone for TsTypeParamDecl {
    fn clone(&self) -> (r: Self)
        ensures
            r@ == self@,
        decreases self,
    {
        TsTypeParamDecl {
            span: self.span,
            params: TsTypeParam::clone_all(&self.params),
        }
    }
}

/// A name that is bound, with the type it is declared with.
#[derive(Debug, PartialEq, Eq)]
pub struct BindingIdent {
    pub id: Ident,
    pub type_ann: Option<TsType>,
}

/// The value of [`BindingIdent`] that contracts speak of.
#[verifier::ext_equal]
pub ghost struct BindingIdentView {
    pub id: IdentView,
    pub type_ann: Option<TsTypeView>,
}

impl BindingIdent {
    /// The value that `self` stands for.
    pub open spec fn model(self) -> BindingIdentView
        decreases self,
    {
        BindingIdentView {
            id: self.id.model(),
            type_ann: match self.type_ann { Some(x) => Some(x.model()), None => None },
        }
    }
}

impl View for BindingIdent {
    type V = BindingIdentView;

    open spec fn view(&self) -> BindingIdentView {
        self.model()
    }
}

impl DeepView for BindingIdent {
    type V = BindingIdentView;

    open spec fn deep_view(&self) -> BindingIdentView {
        self.model()
    }
}

impl Clone for BindingIdent {
    fn clone(&self) -> (r: Self)
        ensures
            r@ == self@,
        decreases self,
    {
        BindingIdent {
            id: self.id.clone(),
            type_ann: match &self.type_ann { Some(x) => Some(x.clone()), None => None },
        }
    }
}

/// A parameter of a signature.
#[derive(Debug, PartialEq, Eq)]
pub enum TsFnParam {
    Ident(BindingIdent),
    /// An array pattern, kept by the caller.
    Array(NodeId),
    /// A rest pattern, kept by the caller.
    Rest(NodeId),
    /// An object pattern, kept by the caller.
    Object(NodeId),
}

/// The value of [`TsFnParam`] that contracts speak of.
#[verifier::ext_equal]
pub ghost enum TsFnParamView {
    Ident(BindingIdentView),
    Array(NodeId),
    Rest(NodeId),
    Object(NodeId),
}

impl TsFnParam {
    /// The value that `self` stands for.
    pub open spec fn model(self) -> TsFnParamView
        decreases self,
    {
        match self {
            TsFnParam::Ident(a) => TsFnParamView::Ident(a.model()),
            TsFnParam::Array(a) => TsFnParamView::Array(a),
            TsFnParam::Rest(a) => TsFnParamView::Rest(a),
            TsFnParam::Object(a) => TsFnParamView::Object(a),
        }
    }

    /// The values that the items of `v` stand for, in order.
    pub open spec fn models(v: Seq<TsFnParam>) -> Seq<TsFnParamView>
        decreases v,
    {
        Seq::new(
            v.len(),
            |i: int| if 0 <= i < v.len() { v[i].model() } else { arbitrary() },
        )
    }

    /// A copy of every item of `v`, in order.
    pub fn clone_all(v: &Vec<TsFnParam>) -> (r: Vec<TsFnParam>)
        ensures
            TsFnParam::models(r@) == TsFnParam::models(v@),
        decreases v,
    {
        let mut r: Vec<TsFnParam> = Vec::new();
        let mut i: usize = 0;
        while i < v.len()
            invariant
                i <= v.len(),
                r.len() == i,
                forall|j: int| 0 <= j < i ==> r[j]@ == v[j]@,
            decreases v.len() - i,
        {
            r.push(v[i].clone());
            i += 1;
        }
        r
    }
}

impl View for TsFnParam {
    type V = TsFnParamView;

    open spec fn view(&self) -> TsFnParamView {
        self.model()
    }
}

impl DeepView for TsFnParam {
    type V = TsFnParamView;

    open spec fn deep_view(&self) -> TsFnParamView {
        self.model()
    }
}

impl Clone for TsFnParam {
    fn clone(&self) -> (r: Self)
        ensures
            r@ == self@,
        decreases self,
    {
        match self {
            TsFnParam::Ident(a) => TsFnParam::Ident(a.clone()),
            TsFnParam::Array(a) => TsFnParam::Array(*a),
            TsFnParam::Rest(a) => TsFnParam::Rest(*a),
            TsFnParam::Object(a) => TsFnParam::Object(*a),
        }
    }
}

/// `new (params): type_ann`
#[derive(Debug, PartialEq, Eq)]
pub struct TsConstructSignatureDecl {
    pub span: Span,
    pub params: Vec<TsFnParam>,
    pub type_ann: Option<TsType>,
    pub type_params: Option<TsTypeParamDecl>,
}

/// The value of [`TsConstructSignatureDecl`] that contracts speak of.
#[verifier::ext_equal]
pub ghost struct TsConstructSignatureDeclView {
    pub span: Span,
    pub params: Seq<TsFnParamView>,
    pub type_ann: Option<TsTypeView>,
    pub type_params: Option<TsTypeParamDeclView>,
}

impl TsConstructSignatureDecl {
    /// The value that `self` stands for.
    pub open spec fn model(self) -> TsConstructSignatureDeclView
        decreases self,
    {
        TsConstructSignatureDeclView {
            span: self.span,
            params: TsFnParam::models(self.params@),
            type_ann: match self.type_ann { Some(x) => Some(x.model()), None => None },
            type_params: match self.type_params { Some(x) => Some(x.model()), None => None },
        }
    }
}

impl View for TsConstructSignatureDecl {
    type V = TsConstructSignatureDeclView;

    open spec fn view(&self) -> TsConstructSignatureDeclView {
        self.model()
    }
}

impl DeepView for TsConstructSignatureDecl {
    type V = TsConstructSignatureDeclView;

    open spec fn deep_view(&self) -> TsConstructSignatureDeclView {
        self.model()
    }
}

impl Clone for TsConstructSignatureDecl {
    fn clone(&self) -> (r: Self)
        ensures
            r@ == self@,
        decreases self,
    {
        TsConstructSignatureDecl {
            span: self.span,
            params: TsFnParam::clone_all(&self.params),
            type_ann: match &self.type_ann { Some(x) => Some(x.clone()), None => None },
            type_params: match &self.type_params { Some(x) => Some(x.clone()), None => None },
        }
    }
}

/// `key: type_ann`
#[derive(Debug, PartialEq, Eq)]
pub struct TsPropertySignature {
    pub span: Span,
    pub readonly: bool,
    pub key: Expr,
    pub computed: bool,
    pub optional: bool,
    pub type_ann: Option<TsType>,
}

/// The value of [`TsPropertySignature`] that contracts speak of.
#[verifier::ext_equal]
pub ghost struct TsPropertySignatureView {
    pub span: Span,
    pub readonly: bool,
    pub key: ExprView,
    pub computed: bool,
    pub optional: bool,
    pub type_ann: Option<TsTypeView>,
}

impl TsPropertySignature {
    /// The value that `self` stands for.
    pub open spec fn model(self) -> TsPropertySignatureView
        decreases self,
    {
        TsPropertySignatureView {
            span: self.span,
            readonly: self.readonly,
            key: self.key.model(),
            computed: self.computed,
            optional: self.optional,
            type_ann: match self.type_ann { Some(x) => Some(x.model()), None => None },
        }
    }
}

impl View for TsPropertySignature {
    type V = TsPropertySignatureView;

    open spec fn view(&self) -> TsPropertySignatureView {
        self.model()
    }
}

impl DeepView for TsPropertySignature {
    type V = TsPropertySignatureView;

    open spec fn deep_view(&self) -> TsPropertySignatureView {
        self.model()
    }
}

impl Clone for TsPropertySignature {
    fn clone(&self) -> (r: Self)
        ensures
            r@ == self@,
        decreases self,
    {
        TsPropertySignature {
            span: self.span,
            readonly: self.readonly,
            key: self.key.clone(),
            computed: self.computed,
            optional: self.optional,
            type_ann: match &self.type_ann { Some(x) => Some(x.clone()), None => None },
        }
    }
}

/// `key(params): type_ann`
#[derive(Debug, PartialEq, Eq)]
pub struct TsMethodSignature {
    pub span: Span,
    pub readonly: bool,
    pub key: Expr,
    pub computed: bool,
    pub optional: bool,
    pub params: Vec<TsFnParam>,
    pub type_ann: Option<TsType>,
    pub type_params: Option<TsTypeParamDecl>,
}

/// The value of [`TsMethodSignature`] that contracts speak of.
#[verifier::ext_equal]
pub ghost struct TsMethodSignatureView {
    pub span: Span,
    pub readonly: bool,
    pub key: ExprView,
    pub computed: bool,
    pub optional: bool,
    pub params: Seq<TsFnParamView>,
    pub type_ann: Option<TsTypeView>,
    pub type_params: Option<TsTypeParamDeclView>,
}

impl TsMethodSignature {
    /// The value that `self` stands for.
    pub open spec fn model(self) -> TsMethodSignatureView
        decreases self,
    {
        TsMethodSignatureView {
            span: self.span,
            readonly: self.readonly,
            key: self.key.model(),
            computed: self.computed,
            optional: self.optional,
            params: TsFnParam::models(self.params@),
            type_ann: match self.type_ann { Some(x) => Some(x.model()), None => None },
            type_params: match self.type_params { Some(x) => Some(x.model()), None => None },
        }
    }
}

impl View for TsMethodSignature {
    type V = TsMethodSignatureView;

    open spec fn view(&self) -> TsMethodSignatureView {
        self.model()
    }
}

impl DeepView for TsMethodSignature {
    type V = TsMethodSignatureView;

    open spec fn deep_view(&self) -> TsMethodSignatureView {
        self.model()
    }
}

impl Clone for TsMethodSignature {
    fn clone(&self) -> (r: Self)
        ensures
            r@ == self@,
        decreases self,
    {
        TsMethodSignature {
            span: self.span,
            readonly: self.readonly,
            key: self.key.clone(),
            computed: self.computed,
            optional: self.optional,
            params: TsFnParam::clone_all(&self.params),
            type_ann: match &self.type_ann { Some(x) => Some(x.clone()), None => None },
            type_params: match &self.type_params { Some(x) => Some(x.clone()), None => None },
        }
    }
}

/// A member of a type literal.
#[derive(Debug, PartialEq, Eq)]
pub enum TsTypeElement {
    TsConstructSignatureDecl(TsConstructSignatureDecl),
    TsPropertySignature(TsPropertySignature),
    TsMethodSignature(TsMethodSignature),
}

/// The value of [`TsTypeElement`] that contracts speak of.
#[verifier::ext_equal]
pub ghost enum TsTypeElementView {
    TsConstructSignatureDecl(TsConstructSignatureDeclView),
    TsPropertySignature(TsPropertySignatureView),
    TsMethodSignature(TsMethodSignatureView),
}

impl TsTypeElement {
    /// The value that `self` stands for.
    pub open spec fn model(self) -> TsTypeElementView
        decreases self,
    {
        match self {
            TsTypeElement::TsConstructSignatureDecl(a) => {
                TsTypeElementView::TsConstructSignatureDecl(a.model())
            },
            TsTypeElement::TsPropertySignature(a) => {
                TsTypeElementView::TsPropertySignature(a.model())
            },
            TsTypeElement::TsMethodSignature(a) => TsTypeElementView::TsMethodSignature(a.model()),
        }
    }

    /// The values that the items of `v` stand for, in order.
    pub open spec fn models(v: Seq<TsTypeElement>) -> Seq<TsTypeElementView>
        decreases v,
    {
        Seq::new(
            v.len(),
            |i: int| if 0 <= i < v.len() { v[i].model() } else { arbitrary() },
        )
    }

    /// A copy of every item of `v`, in order.
    pub fn clone_all(v: &Vec<TsTypeElement>) -> (r: Vec<TsTypeElement>)
        ensures
            TsTypeElement::models(r@) == TsTypeElement::models(v@),
        decreases v,
    {
        let mut r: Vec<TsTypeElement> = Vec::new();
        let mut i: usize = 0;
        while i < v.len()
            invariant
                i <= v.len(),
                r.len() == i,
                forall|j: int| 0 <= j < i ==> r[j]@ == v[j]@,
            decreases v.len() - i,
        {
            r.push(v[i].clone());
            i += 1;
        }
        r
    }
}

impl View for TsTypeElement {
    type V = TsTypeElementView;

    open spec fn view(&self) -> TsTypeElementView {
        self.model()
    }
}

impl DeepView for TsTypeElement {
    type V = TsTypeElementView;

    open spec fn deep_view(&self) -> TsTypeElementView {
        self.model()
    }
}

impl Clone for TsTypeElement {
    fn clone(&self) -> (r: Self)
        ensures
            r@ == self@,
        decreases self,
    {
        match self {
            TsTypeElement::TsConstructSignatureDecl(a) => {
                TsTypeElement::TsConstructSignatureDecl(a.clone())
            },
            TsTypeElement::TsPropertySignature(a) => TsTypeElement::TsPropertySignature(a.clone()),
            TsTypeElement::TsMethodSignature(a) => TsTypeElement::TsMethodSignature(a.clone()),
        }
    }
}

impl TsTypeView {
    /// The type that `name` alone refers to.
    pub open spec fn named(name: IdentView) -> TsTypeView {
        TsTypeView::TypeRef { name, type_args: None }
    }
}

impl TsType {
    /// The type that `name` alone refers to.
    pub fn named(name: Ident) -> (r: TsType)
        ensures
            r@ == TsTypeView::named(name@),
    {
        TsType::TypeRef { name, type_args: None }
    }

    /// The type literal with these members.
    pub fn type_lit(members: Vec<TsTypeElement>) -> (r: TsType)
        ensures
            r@ == TsTypeView::TypeLit(TsTypeElement::models(members@)),
    {
        TsType::TypeLit(members)
    }
}

} // verus!

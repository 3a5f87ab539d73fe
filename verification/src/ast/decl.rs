//! Declarations, but for namespaces.

use vstd::prelude::*;
use crate::ast::expr::{Expr, ExprView};
use crate::ast::pat::{Param, ParamOrTsParamProp, ParamOrTsParamPropView, ParamView, Pat, PatView};
use crate::ast::span::{NodeId, Span};
use crate::ast::token::{Ident, IdentView, Number, NumberView, Str, StrView};
use crate::ast::ts_type::{TsType, TsTypeParamDecl, TsTypeParamDeclView, TsTypeView};

verus! {

/// The keyword of a variable declaration.
#[derive(Clone, Copy, Debug, PartialEq, Eq, Structural)]
pub enum VarDeclKind {
    Var,
    Let,
    Const,
}

/// One binding of a variable declaration.
#[derive(Debug, PartialEq, Eq)]
pub struct VarDeclarator {
    pub span: Span,
    pub name: Pat,
    pub init: Option<Expr>,
    pub definite: bool,
}

/// The value of [`VarDeclarator`] that contracts speak of.
#[verifier::ext_equal]
pub ghost struct VarDeclaratorView {
    pub span: Span,
    pub name: PatView,
    pub init: Option<ExprView>,
    pub definite: bool,
}

impl VarDeclarator {
    /// The value that `self` stands for.
    pub open spec fn model(self) -> VarDeclaratorView {
        VarDeclaratorView {
            span: self.span,
            name: self.name.model(),
            init: match self.init { Some(x) => Some(x.model()), None => None },
            definite: self.definite,
        }
    }

    /// The values that the items of `v` stand for, in order.
    pub open spec fn models(v: Seq<VarDeclarator>) -> Seq<VarDeclaratorView> {
        Seq::new(v.len(), |i: int| v[i].model())
    }

    /// A copy of every item of `v`, in order.
    pub fn clone_all(v: &Vec<VarDeclarator>) -> (r: Vec<VarDeclarator>)
        ensures
            VarDeclarator::models(r@) == VarDeclarator::models(v@),
    {
        let mut r: Vec<VarDeclarator> = Vec::new();
        let mut i: usize = 0;
        while i < v.len()
            invariant
                i <= v.len(),
                r.len() == i,
                forall|j: int| 0 <= j < i ==> r[j]@ == v[j]@,
            decreases v.len() - i,
        {
            r.push(v[i].clone());
            i += 1;
        }
        r
    }
}

impl View for VarDeclarator {
    type V = VarDeclaratorView;

    open spec fn view(&self) -> VarDeclaratorView {
        self.model()
    }
}

impl DeepView for VarDeclarator {
    type V = VarDeclaratorView;

    open spec fn deep_view(&self) -> VarDeclaratorView {
        self.model()
    }
}

impl Clone for VarDeclarator {
    fn clone(&self) -> (r: Self)
        ensures
            r@ == self@,
    {
        VarDeclarator {
            span: self.span,
            name: self.name.clone(),
            init: match &self.init { Some(x) => Some(x.clone()), None => None },
            definite: self.definite,
        }
    }
}

/// `const a: T, b: U`
#[derive(Debug, PartialEq, Eq)]
pub struct VarDecl {
    pub span: Span,
    pub kind: VarDeclKind,
    pub declare: bool,
    pub decls: Vec<VarDeclarator>,
}

/// The value of [`VarDecl`] that contracts speak of.
#[verifier::ext_equal]
pub ghost struct VarDeclView {
    pub span: Span,
    pub kind: VarDeclKind,
    pub declare: bool,
    pub decls: Seq<VarDeclaratorView>,
}

impl VarDecl {
    /// The value that `self` stands for.
    pub open spec fn model(self) -> VarDeclView {
        VarDeclView {
            span: self.span,
            kind: self.kind,
            declare: self.declare,
            decls: VarDeclarator::models(self.decls@),
        }
    }
}

impl View for VarDecl {
    type V = VarDeclView;

    open spec fn view(&self) -> VarDeclView {
        self.model()
    }
}

impl DeepView for VarDecl {
    type V = VarDeclView;

    open spec fn deep_view(&self) -> VarDeclView {
        self.model()
    }
}

impl Clone for VarDecl {
    fn clone(&self) -> (r: Self)
        ensures
            r@ == self@,
    {
        VarDecl {
            span: self.span,
            kind: self.kind,
            declare: self.declare,
            decls: VarDeclarator::clone_all(&self.decls),
        }
    }
}

/// A statement of a function body.
#[derive(Debug, PartialEq, Eq)]
pub enum BodyStmt {
    Var(VarDecl),
    Return(Option<Expr>),
    /// Any other statement, kept by the caller.
    Opaque(NodeId),
}

/// The value of [`BodyStmt`] that contracts speak of.
#[verifier::ext_equal]
pub ghost enum BodyStmtView {
    Var(VarDeclView),
    Return(Option<ExprView>),
    Opaque(NodeId),
}

impl BodyStmt {
    /// The value that `self` stands for.
    pub open spec fn model(self) -> BodyStmtView {
        match self {
            BodyStmt::Var(a) => BodyStmtView::Var(a.model()),
            BodyStmt::Return(a) => BodyStmtView::Return(
                match a {
                    Some(x) => Some(x.model()),
                    None => None,
                },
            ),
            BodyStmt::Opaque(a) => BodyStmtView::Opaque(a),
        }
    }

    /// The values that the items of `v` stand for, in order.
    pub open spec fn models(v: Seq<BodyStmt>) -> Seq<BodyStmtView> {
        Seq::new(v.len(), |i: int| v[i].model())
    }

    /// A copy of every item of `v`, in order.
    pub fn clone_all(v: &Vec<BodyStmt>) -> (r: Vec<BodyStmt>)
        ensures
            BodyStmt::models(r@) == BodyStmt::models(v@),
    {
        let mut r: Vec<BodyStmt> = Vec::new();
        let mut i: usize = 0;
        while i < v.len()
            invariant
                i <= v.len(),
                r.len() == i,
                forall|j: int| 0 <= j < i ==> r[j]@ == v[j]@,
            decreases v.len() - i,
        {
            r.push(v[i].clone());
            i += 1;
        }
        r
    }
}

impl View for BodyStmt {
    type V = BodyStmtView;

    open spec fn view(&self) -> BodyStmtView {
        self.model()
    }
}

impl DeepView for BodyStmt {
    type V = BodyStmtView;

    open spec fn deep_view(&self) -> BodyStmtView {
        self.model()
    }
}

impl Clone for BodyStmt {
    fn clone(&self) -> (r: Self)
        ensures
            r@ == self@,
    {
        match self {
            BodyStmt::Var(a) => BodyStmt::Var(a.clone()),
            BodyStmt::Return(a) => BodyStmt::Return(
                match a {
                    Some(x) => Some(x.clone()),
                    None => None,
                },
            ),
            BodyStmt::Opaque(a) => BodyStmt::Opaque(*a),
        }
    }
}

/// The body of a function.
#[derive(Debug, PartialEq, Eq)]
pub struct FnBody {
    pub span: Span,
    pub stmts: Vec<BodyStmt>,
}

/// The value of [`FnBody`] that contracts speak of.
#[verifier::ext_equal]
pub ghost struct FnBodyView {
    pub span: Span,
    pub stmts: Seq<BodyStmtView>,
}

impl FnBody {
    /// The value that `self` stands for.
    pub open spec fn model(self) -> FnBodyView {
        FnBodyView {
            span: self.span,
            stmts: BodyStmt::models(self.stmts@),
        }
    }
}

impl View for FnBody {
    type V = FnBodyView;

    open spec fn view(&self) -> FnBodyView {
        self.model()
    }
}

impl DeepView for FnBody {
    type V = FnBodyView;

    open spec fn deep_view(&self) -> FnBodyView {
        self.model()
    }
}

impl Clone for FnBody {
    fn clone(&self) -> (r: Self)
        ensures
            r@ == self@,
    {
        FnBody {
            span: self.span,
            stmts: BodyStmt::clone_all(&self.stmts),
        }
    }
}

/// Parameters, result and body that a function declaration and a method share.
#[derive(Debug, PartialEq, Eq)]
pub struct Function {
    pub params: Vec<Param>,
    pub span: Span,
    pub body: Option<FnBody>,
    pub is_generator: bool,
    pub is_async: bool,
    pub type_params: Option<TsTypeParamDecl>,
    pub return_type: Option<TsType>,
}

/// The value of [`Function`] that contracts speak of.
#[verifier::ext_equal]
pub ghost struct FunctionView {
    pub params: Seq<ParamView>,
    pub span: Span,
    pub body: Option<FnBodyView>,
    pub is_generator: bool,
    pub is_async: bool,
    pub type_params: Option<TsTypeParamDeclView>,
    pub return_type: Option<TsTypeView>,
}

impl Function {
    /// The value that `self` stands for.
    pub open spec fn model(self) -> FunctionView {
        FunctionView {
            params: Param::models(self.params@),
            span: self.span,
            body: match self.body { Some(x) => Some(x.model()), None => None },
            is_generator: self.is_generator,
            is_async: self.is_async,
            type_params: match self.type_params { Some(x) => Some(x.model()), None => None },
            return_type: match self.return_type { Some(x) => Some(x.model()), None => None },
        }
    }
}

impl View for Function {
    type V = FunctionView;

    open spec fn view(&self) -> FunctionView {
        self.model()
    }
}

impl DeepView for Function {
    type V = FunctionView;

    open spec fn deep_view(&self) -> FunctionView {
        self.model()
    }
}

impl Clone for Function {
    fn clone(&self) -> (r: Self)
        ensures
            r@ == self@,
    {
        Function {
            params: Param::clone_all(&self.params),
            span: self.span,
            body: match &self.body { Some(x) => Some(x.clone()), None => None },
            is_generator: self.is_generator,
            is_async: self.is_async,
            type_params: match &self.type_params { Some(x) => Some(x.clone()), None => None },
            return_type: match &self.return_type { Some(x) => Some(x.clone()), None => None },
        }
    }
}

/// `function ident(..): ..`
#[derive(Debug, PartialEq, Eq)]
pub struct FnDecl {
    pub ident: Ident,
    pub declare: bool,
    pub function: Function,
}

/// The value of [`FnDecl`] that contracts speak of.
#[verifier::ext_equal]
pub ghost struct FnDeclView {
    pub ident: IdentView,
    pub declare: bool,
    pub function: FunctionView,
}

impl FnDecl {
    /// The value that `self` stands for.
    pub open spec fn model(self) -> FnDeclView {
        FnDeclView {
            ident: self.ident.model(),
            declare: self.declare,
            function: self.function.model(),
        }
    }
}

impl View for FnDecl {
    type V = FnDeclView;

    open spec fn view(&self) -> FnDeclView {
        self.model()
    }
}

impl DeepView for FnDecl {
    type V = FnDeclView;

    open spec fn deep_view(&self) -> FnDeclView {
        self.model()
    }
}

impl Clone for FnDecl {
    fn clone(&self) -> (r: Self)
        ensures
            r@ == self@,
    {
        FnDecl {
            ident: self.ident.clone(),
            declare: self.declare,
            function: self.function.clone(),
        }
    }
}

/// The name of a class member.
#[derive(Debug, PartialEq, Eq)]
pub enum PropName {
    Ident(Ident),
    Str(Str),
    Num(Number),
    /// `[expr]`
    Computed(Expr),
    BigInt(NodeId),
}

/// The value of [`PropName`] that contracts speak of.
#[verifier::ext_equal]
pub ghost enum PropNameView {
    Ident(IdentView),
    Str(StrView),
    Num(NumberView),
    Computed(ExprView),
    BigInt(NodeId),
}

impl PropName {
    /// The value that `self` stands for.
    pub open spec fn model(self) -> PropNameView {
        match self {
            PropName::Ident(a) => PropNameView::Ident(a.model()),
            PropName::Str(a) => PropNameView::Str(a.model()),
            PropName::Num(a) => PropNameView::Num(a.model()),
            PropName::Computed(a) => PropNameView::Computed(a.model()),
            PropName::BigInt(a) => PropNameView::BigInt(a),
        }
    }
}

impl View for PropName {
    type V = PropNameView;

    open spec fn view(&self) -> PropNameView {
        self.model()
    }
}

impl DeepView for PropName {
    type V = PropNameView;

    open spec fn deep_view(&self) -> PropNameView {
        self.model()
    }
}

impl Clone for PropName {
    fn clone(&self) -> (r: Self)
        ensures
            r@ == self@,
    {
        match self {
            PropName::Ident(a) => PropName::Ident(a.clone()),
            PropName::Str(a) => PropName::Str(a.clone()),
            PropName::Num(a) => PropName::Num(a.clone()),
            PropName::Computed(a) => PropName::Computed(a.clone()),
            PropName::BigInt(a) => PropName::BigInt(*a),
        }
    }
}

/// `constructor(params)`
#[derive(Debug, PartialEq, Eq)]
pub struct Constructor {
    pub span: Span,
    pub params: Vec<ParamOrTsParamProp>,
}

/// The value of [`Constructor`] that contracts speak of.
#[verifier::ext_equal]
pub ghost struct ConstructorView {
    pub span: Span,
    pub params: Seq<ParamOrTsParamPropView>,
}

impl Constructor {
    /// The value that `self` stands for.
    pub open spec fn model(self) -> ConstructorView {
        ConstructorView {
            span: self.span,
            params: ParamOrTsParamProp::models(self.params@),
        }
    }
}

impl View for Constructor {
    type V = ConstructorView;

    open spec fn view(&self) -> ConstructorView {
        self.model()
    }
}

impl DeepView for Constructor {
    type V = ConstructorView;

    open spec fn deep_view(&self) -> ConstructorView {
        self.model()
    }
}

impl Clone for Constructor {
    fn clone(&self) -> (r: Self)
        ensures
            r@ == self@,
    {
        Constructor {
            span: self.span,
            params: ParamOrTsParamProp::clone_all(&self.params),
        }
    }
}

/// A method of a class.
#[derive(Debug, PartialEq, Eq)]
pub struct ClassMethod {
    pub span: Span,
    pub key: PropName,
    pub function: Function,
    pub is_static: bool,
    pub is_optional: bool,
}

/// The value of [`ClassMethod`] that contracts speak of.
#[verifier::ext_equal]
pub ghost struct ClassMethodView {
    pub span: Span,
    pub key: PropNameView,
    pub function: FunctionView,
    pub is_static: bool,
    pub is_optional: bool,
}

impl ClassMethod {
    /// The value that `self` stands for.
    pub open spec fn model(self) -> ClassMethodView {
        ClassMethodView {
            span: self.span,
            key: self.key.model(),
            function: self.function.model(),
            is_static: self.is_static,
            is_optional: self.is_optional,
        }
    }
}

impl View for ClassMethod {
    type V = ClassMethodView;

    open spec fn view(&self) -> ClassMethodView {
        self.model()
    }
}

impl DeepView for ClassMethod {
    type V = ClassMethodView;

    open spec fn deep_view(&self) -> ClassMethodView {
        self.model()
    }
}

impl Clone for ClassMethod {
    fn clone(&self) -> (r: Self)
        ensures
            r@ == self@,
    {
        ClassMethod {
            span: self.span,
            key: self.key.clone(),
            function: self.function.clone(),
            is_static: self.is_static,
            is_optional: self.is_optional,
        }
    }
}

/// A property of a class.
#[derive(Debug, PartialEq, Eq)]
pub struct ClassProp {
    pub span: Span,
    pub key: PropName,
    pub type_ann: Option<TsType>,
    pub is_static: bool,
    pub is_optional: bool,
    pub readonly: bool,
}

/// The value of [`ClassProp`] that contracts speak of.
#[verifier::ext_equal]
pub ghost struct ClassPropView {
    pub span: Span,
    pub key: PropNameView,
    pub type_ann: Option<TsTypeView>,
    pub is_static: bool,
    pub is_optional: bool,
    pub readonly: bool,
}

impl ClassProp {
    /// The value that `self` stands for.
    pub open spec fn model(self) -> ClassPropView {
        ClassPropView {
            span: self.span,
            key: self.key.model(),
            type_ann: match self.type_ann { Some(x) => Some(x.model()), None => None },
            is_static: self.is_static,
            is_optional: self.is_optional,
            readonly: self.readonly,
        }
    }
}

impl View for ClassProp {
    type V = ClassPropView;

    open spec fn view(&self) -> ClassPropView {
        self.model()
    }
}

impl DeepView for ClassProp {
    type V = ClassPropView;

    open spec fn deep_view(&self) -> ClassPropView {
        self.model()
    }
}

impl Clone for ClassProp {
    fn clone(&self) -> (r: Self)
        ensures
            r@ == self@,
    {
        ClassProp {
            span: self.span,
            key: self.key.clone(),
            type_ann: match &self.type_ann { Some(x) => Some(x.clone()), None => None },
            is_static: self.is_static,
            is_optional: self.is_optional,
            readonly: self.readonly,
        }
    }
}

/// A member of a class body. Kinds that no signature is made from carry nothing.
#[derive(Debug, PartialEq, Eq)]
pub enum ClassMember {
    Constructor(Constructor),
    Method(ClassMethod),
    PrivateMethod,
    ClassProp(ClassProp),
    PrivateProp,
    TsIndexSignature,
    Empty,
    StaticBlock,
    AutoAccessor,
}

/// The value of [`ClassMember`] that contracts speak of.
#[verifier::ext_equal]
pub ghost enum ClassMemberView {
    Constructor(ConstructorView),
    Method(ClassMethodView),
    PrivateMethod,
    ClassProp(ClassPropView),
    PrivateProp,
    TsIndexSignature,
    Empty,
    StaticBlock,
    AutoAccessor,
}

impl ClassMember {
    /// The value that `self` stands for.
    pub open spec fn model(self) -> ClassMemberView {
        match self {
            ClassMember::Constructor(a) => ClassMemberView::Constructor(a.model()),
            ClassMember::Method(a) => ClassMemberView::Method(a.model()),
            ClassMember::PrivateMethod => ClassMemberView::PrivateMethod,
            ClassMember::ClassProp(a) => ClassMemberView::ClassProp(a.model()),
            ClassMember::PrivateProp => ClassMemberView::PrivateProp,
            ClassMember::TsIndexSignature => ClassMemberView::TsIndexSignature,
            ClassMember::Empty => ClassMemberView::Empty,
            ClassMember::StaticBlock => ClassMemberView::StaticBlock,
            ClassMember::AutoAccessor => ClassMemberView::AutoAccessor,
        }
    }

    /// The values that the items of `v` stand for, in order.
    pub open spec fn models(v: Seq<ClassMember>) -> Seq<ClassMemberView> {
        Seq::new(v.len(), |i: int| v[i].model())
    }

    /// A copy of every item of `v`, in order.
    pub fn clone_all(v: &Vec<ClassMember>) -> (r: Vec<ClassMember>)
        ensures
            ClassMember::models(r@) == ClassMember::models(v@),
    {
        let mut r: Vec<ClassMember> = Vec::new();
        let mut i: usize = 0;
        while i < v.len()
            invariant
                i <= v.len(),
                r.len() == i,
                forall|j: int| 0 <= j < i ==> r[j]@ == v[j]@,
            decreases v.len() - i,
        {
            r.push(v[i].clone());
            i += 1;
        }
        r
    }
}

impl View for ClassMember {
    type V = ClassMemberView;

    open spec fn view(&self) -> ClassMemberView {
        self.model()
    }
}

impl DeepView for ClassMember {
    type V = ClassMemberView;

    open spec fn deep_view(&self) -> ClassMemberView {
        self.model()
    }
}

impl Clone for ClassMember {
    fn clone(&self) -> (r: Self)
        ensures
            r@ == self@,
    {
        match self {
            ClassMember::Constructor(a) => ClassMember::Constructor(a.clone()),
            ClassMember::Method(a) => ClassMember::Method(a.clone()),
            ClassMember::PrivateMethod => ClassMember::PrivateMethod,
            ClassMember::ClassProp(a) => ClassMember::ClassProp(a.clone()),
            ClassMember::PrivateProp => ClassMember::PrivateProp,
            ClassMember::TsIndexSignature => ClassMember::TsIndexSignature,
            ClassMember::Empty => ClassMember::Empty,
            ClassMember::StaticBlock => ClassMember::StaticBlock,
            ClassMember::AutoAccessor => ClassMember::AutoAccessor,
        }
    }
}

/// What follows the name in a class declaration.
#[derive(Debug, PartialEq, Eq)]
pub struct Class {
    pub span: Span,
    pub body: Vec<ClassMember>,
    pub super_class: Option<Expr>,
    pub is_abstract: bool,
    pub type_params: Option<TsTypeParamDecl>,
}

/// The value of [`Class`] that contracts speak of.
#[verifier::ext_equal]
pub ghost struct ClassView {
    pub span: Span,
    pub body: Seq<ClassMemberView>,
    pub super_class: Option<ExprView>,
    pub is_abstract: bool,
    pub type_params: Option<TsTypeParamDeclView>,
}

impl Class {
    /// The value that `self` stands for.
    pub open spec fn model(self) -> ClassView {
        ClassView {
            span: self.span,
            body: ClassMember::models(self.body@),
            super_class: match self.super_class { Some(x) => Some(x.model()), None => None },
            is_abstract: self.is_abstract,
            type_params: match self.type_params { Some(x) => Some(x.model()), None => None },
        }
    }
}

impl View for Class {
    type V = ClassView;

    open spec fn view(&self) -> ClassView {
        self.model()
    }
}

impl DeepView for Class {
    type V = ClassView;

    open spec fn deep_view(&self) -> ClassView {
        self.model()
    }
}

impl Clone for Class {
    fn clone(&self) -> (r: Self)
        ensures
            r@ == self@,
    {
        Class {
            span: self.span,
            body: ClassMember::clone_all(&self.body),
            super_class: match &self.super_class { Some(x) => Some(x.clone()), None => None },
            is_abstract: self.is_abstract,
            type_params: match &self.type_params { Some(x) => Some(x.clone()), None => None },
        }
    }
}

/// `class ident ..`
#[derive(Debug, PartialEq, Eq)]
pub struct ClassDecl {
    pub ident: Ident,
    pub declare: bool,
    pub class: Class,
}

/// The value of [`ClassDecl`] that contracts speak of.
#[verifier::ext_equal]
pub ghost struct ClassDeclView {
    pub ident: IdentView,
    pub declare: bool,
    pub class: ClassView,
}

impl ClassDecl {
    /// The value that `self` stands for.
    pub open spec fn model(self) -> ClassDeclView {
        ClassDeclView {
            ident: self.ident.model(),
            declare: self.declare,
            class: self.class.model(),
        }
    }
}

impl View for ClassDecl {
    type V = ClassDeclView;

    open spec fn view(&self) -> ClassDeclView {
        self.model()
    }
}

impl DeepView for ClassDecl {
    type V = ClassDeclView;

    open spec fn deep_view(&self) -> ClassDeclView {
        self.model()
    }
}

impl Clone for ClassDecl {
    fn clone(&self) -> (r: Self)
        ensures
            r@ == self@,
    {
        ClassDecl {
            ident: self.ident.clone(),
            declare: self.declare,
            class: self.class.clone(),
        }
    }
}

/// An interface declaration. The caller keeps it; this crate hands it on whole.
#[derive(Debug, PartialEq, Eq)]
pub struct TsInterfaceDecl {
    pub span: Span,
    pub id: Ident,
    pub node: NodeId,
}

/// The value of [`TsInterfaceDecl`] that contracts speak of.
#[verifier::ext_equal]
pub ghost struct TsInterfaceDeclView {
    pub span: Span,
    pub id: IdentView,
    pub node: NodeId,
}

impl TsInterfaceDecl {
    /// The value that `self` stands for.
    pub open spec fn model(self) -> TsInterfaceDeclView {
        TsInterfaceDeclView {
            span: self.span,
            id: self.id.model(),
            node: self.node,
        }
    }
}

impl View for TsInterfaceDecl {
    type V = TsInterfaceDeclView;

    open spec fn view(&self) -> TsInterfaceDeclView {
        self.model()
    }
}

impl DeepView for TsInterfaceDecl {
    type V = TsInterfaceDeclView;

    open spec fn deep_view(&self) -> TsInterfaceDeclView {
        self.model()
    }
}

impl Clone for TsInterfaceDecl {
    fn clone(&self) -> (r: Self)
        ensures
            r@ == self@,
    {
        TsInterfaceDecl {
            span: self.span,
            id: self.id.clone(),
            node: self.node,
        }
    }
}

/// `type id<type_params> = type_ann`
#[derive(Debug, PartialEq, Eq)]
pub struct TsTypeAliasDecl {
    pub span: Span,
    pub declare: bool,
    pub id: Ident,
    pub type_params: Option<TsTypeParamDecl>,
    pub type_ann: TsType,
}

/// The value of [`TsTypeAliasDecl`] that contracts speak of.
#[verifier::ext_equal]
pub ghost struct TsTypeAliasDeclView {
    pub span: Span,
    pub declare: bool,
    pub id: IdentView,
    pub type_params: Option<TsTypeParamDeclView>,
    pub type_ann: TsTypeView,
}

impl TsTypeAliasDecl {
    /// The value that `self` stands for.
    pub open spec fn model(self) -> TsTypeAliasDeclView {
        TsTypeAliasDeclView {
            span: self.span,
            declare: self.declare,
            id: self.id.model(),
            type_params: match self.type_params { Some(x) => Some(x.model()), None => None },
            type_ann: self.type_ann.model(),
        }
    }
}

impl View for TsTypeAliasDecl {
    type V = TsTypeAliasDeclView;

    open spec fn view(&self) -> TsTypeAliasDeclView {
        self.model()
    }
}

impl DeepView for TsTypeAliasDecl {
    type V = TsTypeAliasDeclView;

    open spec fn deep_view(&self) -> TsTypeAliasDeclView {
        self.model()
    }
}

impl Clone for TsTypeAliasDecl {
    fn clone(&self) -> (r: Self)
        ensures
            r@ == self@,
    {
        TsTypeAliasDecl {
            span: self.span,
            declare: self.declare,
            id: self.id.clone(),
            type_params: match &self.type_params { Some(x) => Some(x.clone()), None => None },
            type_ann: self.type_ann.clone(),
        }
    }
}

/// The name of an enum member.
#[derive(Debug, PartialEq, Eq)]
pub enum TsEnumMemberId {
    Ident(Ident),
    Str(Str),
}

/// The value of [`TsEnumMemberId`] that contracts speak of.
#[verifier::ext_equal]
pub ghost enum TsEnumMemberIdView {
    Ident(IdentView),
    Str(StrView),
}

impl TsEnumMemberId {
    /// The value that `self` stands for.
    pub open spec fn model(self) -> TsEnumMemberIdView {
        match self {
            TsEnumMemberId::Ident(a) => TsEnumMemberIdView::Ident(a.model()),
            TsEnumMemberId::Str(a) => TsEnumMemberIdView::Str(a.model()),
        }
    }
}

impl View for TsEnumMemberId {
    type V = TsEnumMemberIdView;

    open spec fn view(&self) -> TsEnumMemberIdView {
        self.model()
    }
}

impl DeepView for TsEnumMemberId {
    type V = TsEnumMemberIdView;

    open spec fn deep_view(&self) -> TsEnumMemberIdView {
        self.model()
    }
}

impl Clone for TsEnumMemberId {
    fn clone(&self) -> (r: Self)
        ensures
            r@ == self@,
    {
        match self {
            TsEnumMemberId::Ident(a) => TsEnumMemberId::Ident(a.clone()),
            TsEnumMemberId::Str(a) => TsEnumMemberId::Str(a.clone()),
        }
    }
}

/// `id = init`
#[derive(Debug, PartialEq, Eq)]
pub struct TsEnumMember {
    pub span: Span,
    pub id: TsEnumMemberId,
    pub init: Option<Expr>,
}

/// The value of [`TsEnumMember`] that contracts speak of.
#[verifier::ext_equal]
pub ghost struct TsEnumMemberView {
    pub span: Span,
    pub id: TsEnumMemberIdView,
    pub init: Option<ExprView>,
}

impl TsEnumMember {
    /// The value that `self` stands for.
    pub open spec fn model(self) -> TsEnumMemberView {
        TsEnumMemberView {
            span: self.span,
            id: self.id.model(),
            init: match self.init { Some(x) => Some(x.model()), None => None },
        }
    }

    /// The values that the items of `v` stand for, in order.
    pub open spec fn models(v: Seq<TsEnumMember>) -> Seq<TsEnumMemberView> {
        Seq::new(v.len(), |i: int| v[i].model())
    }

    /// A copy of every item of `v`, in order.
    pub fn clone_all(v: &Vec<TsEnumMember>) -> (r: Vec<TsEnumMember>)
        ensures
            TsEnumMember::models(r@) == TsEnumMember::models(v@),
    {
        let mut r: Vec<TsEnumMember> = Vec::new();
        let mut i: usize = 0;
        while i < v.len()
            invariant
                i <= v.len(),
                r.len() == i,
                forall|j: int| 0 <= j < i ==> r[j]@ == v[j]@,
            decreases v.len() - i,
        {
            r.push(v[i].clone());
            i += 1;
        }
        r
    }
}

impl View for TsEnumMember {
    type V = TsEnumMemberView;

    open spec fn view(&self) -> TsEnumMemberView {
        self.model()
    }
}

impl DeepView for TsEnumMember {
    type V = TsEnumMemberView;

    open spec fn deep_view(&self) -> TsEnumMemberView {
        self.model()
    }
}

impl Clone for TsEnumMember {
    fn clone(&self) -> (r: Self)
        ensures
            r@ == self@,
    {
        TsEnumMember {
            span: self.span,
            id: self.id.clone(),
            init: match &self.init { Some(x) => Some(x.clone()), None => None },
        }
    }
}

/// `enum id { members }`
#[derive(Debug, PartialEq, Eq)]
pub struct TsEnumDecl {
    pub span: Span,
    pub declare: bool,
    pub is_const: bool,
    pub id: Ident,
    pub members: Vec<TsEnumMember>,
}

/// The value of [`TsEnumDecl`] that contracts speak of.
#[verifier::ext_equal]
pub ghost struct TsEnumDeclView {
    pub span: Span,
    pub declare: bool,
    pub is_const: bool,
    pub id: IdentView,
    pub members: Seq<TsEnumMemberView>,
}

impl TsEnumDecl {
    /// The value that `self` stands for.
    pub open spec fn model(self) -> TsEnumDeclView {
        TsEnumDeclView {
            span: self.span,
            declare: self.declare,
            is_const: self.is_const,
            id: self.id.model(),
            members: TsEnumMember::models(self.members@),
        }
    }
}

impl View for TsEnumDecl {
    type V = TsEnumDeclView;

    open spec fn view(&self) -> TsEnumDeclView {
        self.model()
    }
}

impl DeepView for TsEnumDecl {
    type V = TsEnumDeclView;

    open spec fn deep_view(&self) -> TsEnumDeclView {
        self.model()
    }
}

impl Clone for TsEnumDecl {
    fn clone(&self) -> (r: Self)
        ensures
            r@ == self@,
    {
        TsEnumDecl {
            span: self.span,
            declare: self.declare,
            is_const: self.is_const,
            id: self.id.clone(),
            members: TsEnumMember::clone_all(&self.members),
        }
    }
}

/// The name of a namespace or ambient module.
#[derive(Debug, PartialEq, Eq)]
pub enum TsModuleName {
    Ident(Ident),
    Str(Str),
}

/// The value of [`TsModuleName`] that contracts speak of.
#[verifier::ext_equal]
pub ghost enum TsModuleNameView {
    Ident(IdentView),
    Str(StrView),
}

impl TsModuleName {
    /// The value that `self` stands for.
    pub open spec fn model(self) -> TsModuleNameView {
        match self {
            TsModuleName::Ident(a) => TsModuleNameView::Ident(a.model()),
            TsModuleName::Str(a) => TsModuleNameView::Str(a.model()),
        }
    }
}

impl View for TsModuleName {
    type V = TsModuleNameView;

    open spec fn view(&self) -> TsModuleNameView {
        self.model()
    }
}

impl DeepView for TsModuleName {
    type V = TsModuleNameView;

    open spec fn deep_view(&self) -> TsModuleNameView {
        self.model()
    }
}

impl Clone for TsModuleName {
    fn clone(&self) -> (r: Self)
        ensures
            r@ == self@,
    {
        match self {
            TsModuleName::Ident(a) => TsModuleName::Ident(a.clone()),
            TsModuleName::Str(a) => TsModuleName::Str(a.clone()),
        }
    }
}

} // verus!

//! Binding patterns and parameters.

use vstd::prelude::*;
use crate::ast::expr::{Expr, ExprView};
use crate::ast::span::{NodeId, Span};
use crate::ast::ts_type::{BindingIdent, BindingIdentView};

verus! {

/// A pattern with a default value: `left = right`.
#[derive(Debug, PartialEq, Eq)]
pub struct AssignPat {
    pub span: Span,
    pub left: Box<Pat>,
    pub right: Expr,
}

/// The value of [`AssignPat`] that contracts speak of.
#[verifier::ext_equal]
pub ghost struct AssignPatView {
    pub span: Span,
    pub left: Box<PatView>,
    pub right: ExprView,
}

impl AssignPat {
    /// The value that `self` stands for.
    pub open spec fn model(self) -> AssignPatView
        decreases self,
    {
        AssignPatView {
            span: self.span,
            left: Box::new((*self.left).model()),
            right: self.right.model(),
        }
    }
}

impl View for AssignPat {
    type V = AssignPatView;

    open spec fn view(&self) -> AssignPatView {
        self.model()
    }
}

impl DeepView for AssignPat {
    type V = AssignPatView;

    open spec fn deep_view(&self) -> AssignPatView {
        self.model()
    }
}

impl Clone for AssignPat {
    fn clone(&self) -> (r: Self)
        ensures
            r@ == self@,
        decreases self,
    {
        AssignPat {
            span: self.span,
            left: Box::new((*self.left).clone()),
            right: self.right.clone(),
        }
    }
}

/// A binding pattern.
#[derive(Debug, PartialEq, Eq)]
pub enum Pat {
    Ident(BindingIdent),
    /// An array pattern, kept by the caller.
    Array(NodeId),
    /// A rest pattern, kept by the caller.
    Rest(NodeId),
    /// An object pattern, kept by the caller.
    Object(NodeId),
    Assign(AssignPat),
    /// What the parser left where it found no pattern.
    Invalid(Span),
    /// An expression where a pattern was expected, kept by the caller.
    Expr(NodeId),
}

/// The value of [`Pat`] that contracts speak of.
#[verifier::ext_equal]
pub ghost enum PatView {
    Ident(BindingIdentView),
    Array(NodeId),
    Rest(NodeId),
    Object(NodeId),
    Assign(AssignPatView),
    Invalid(Span),
    Expr(NodeId),
}

impl Pat {
    /// The value that `self` stands for.
    pub open spec fn model(self) -> PatView
        decreases self,
    {
        match self {
            Pat::Ident(a) => PatView::Ident(a.model()),
            Pat::Array(a) => PatView::Array(a),
            Pat::Rest(a) => PatView::Rest(a),
            Pat::Object(a) => PatView::Object(a),
            Pat::Assign(a) => PatView::Assign(a.model()),
            Pat::Invalid(a) => PatView::Invalid(a),
            Pat::Expr(a) => PatView::Expr(a),
        }
    }
}

impl View for Pat {
    type V = PatView;

    open spec fn view(&self) -> PatView {
        self.model()
    }
}

impl DeepView for Pat {
    type V = PatView;

    open spec fn deep_view(&self) -> PatView {
        self.model()
    }
}

impl Clone for Pat {
    fn clone(&self) -> (r: Self)
        ensures
            r@ == self@,
        decreases self,
    {
        match self {
            Pat::Ident(a) => Pat::Ident(a.clone()),
            Pat::Array(a) => Pat::Array(*a),
            Pat::Rest(a) => Pat::Rest(*a),
            Pat::Object(a) => Pat::Object(*a),
            Pat::Assign(a) => Pat::Assign(a.clone()),
            Pat::Invalid(a) => Pat::Invalid(*a),
            Pat::Expr(a) => Pat::Expr(*a),
        }
    }
}

/// A parameter of a function.
#[derive(Debug, PartialEq, Eq)]
pub struct Param {
    pub span: Span,
    pub pat: Pat,
}

/// The value of [`Param`] that contracts speak of.
#[verifier::ext_equal]
pub ghost struct ParamView {
    pub span: Span,
    pub pat: PatView,
}

impl Param {
    /// The value that `self` stands for.
    pub open spec fn model(self) -> ParamView {
        ParamView {
            span: self.span,
            pat: self.pat.model(),
        }
    }

    /// The values that the items of `v` stand for, in order.
    pub open spec fn models(v: Seq<Param>) -> Seq<ParamView> {
        Seq::new(v.len(), |i: int| v[i].model())
    }

    /// A copy of every item of `v`, in order.
    pub fn clone_all(v: &Vec<Param>) -> (r: Vec<Param>)
        ensures
            Param::models(r@) == Param::models(v@),
    {
        let mut r: Vec<Param> = Vec::new();
        let mut i: usize = 0;
        while i < v.len()
            invariant
                i <= v.len(),
                r.len() == i,
                forall|j: int| 0 <= j < i ==> r[j]@ == v[j]@,
            decreases v.len() - i,
        {
            r.push(v[i].clone());
            i += 1;
        }
        r
    }
}

impl View for Param {
    type V = ParamView;

    open spec fn view(&self) -> ParamView {
        self.model()
    }
}

impl DeepView for Param {
    type V = ParamView;

    open spec fn deep_view(&self) -> ParamView {
        self.model()
    }
}

impl Clone for Param {
    fn clone(&self) -> (r: Self)
        ensures
            r@ == self@,
    {
        Param {
            span: self.span,
            pat: self.pat.clone(),
        }
    }
}

/// What a parameter property binds.
#[derive(Debug, PartialEq, Eq)]
pub enum TsParamPropParam {
    Ident(BindingIdent),
    Assign(AssignPat),
}

/// The value of [`TsParamPropParam`] that contracts speak of.
#[verifier::ext_equal]
pub ghost enum TsParamPropParamView {
    Ident(BindingIdentView),
    Assign(AssignPatView),
}

impl TsParamPropParam {
    /// The value that `self` stands for.
    pub open spec fn model(self) -> TsParamPropParamView {
        match self {
            TsParamPropParam::Ident(a) => TsParamPropParamView::Ident(a.model()),
            TsParamPropParam::Assign(a) => TsParamPropParamView::Assign(a.model()),
        }
    }
}

impl View for TsParamPropParam {
    type V = TsParamPropParamView;

    open spec fn view(&self) -> TsParamPropParamView {
        self.model()
    }
}

impl DeepView for TsParamPropParam {
    type V = TsParamPropParamView;

    open spec fn deep_view(&self) -> TsParamPropParamView {
        self.model()
    }
}

impl Clone for TsParamPropParam {
    fn clone(&self) -> (r: Self)
        ensures
            r@ == self@,
    {
        match self {
            TsParamPropParam::Ident(a) => TsParamPropParam::Ident(a.clone()),
            TsParamPropParam::Assign(a) => TsParamPropParam::Assign(a.clone()),
        }
    }
}

/// A constructor parameter that also declares a property: `readonly x: T`.
#[derive(Debug, PartialEq, Eq)]
pub struct TsParamProp {
    pub span: Span,
    pub readonly: bool,
    pub param: TsParamPropParam,
}

/// The value of [`TsParamProp`] that contracts speak of.
#[verifier::ext_equal]
pub ghost struct TsParamPropView {
    pub span: Span,
    pub readonly: bool,
    pub param: TsParamPropParamView,
}

impl TsParamProp {
    /// The value that `self` stands for.
    pub open spec fn model(self) -> TsParamPropView {
        TsParamPropView {
            span: self.span,
            readonly: self.readonly,
            param: self.param.model(),
        }
    }
}

impl View for TsParamProp {
    type V = TsParamPropView;

    open spec fn view(&self) -> TsParamPropView {
        self.model()
    }
}

impl DeepView for TsParamProp {
    type V = TsParamPropView;

    open spec fn deep_view(&self) -> TsParamPropView {
        self.model()
    }
}

impl Clone for TsParamProp {
    fn clone(&self) -> (r: Self)
        ensures
            r@ == self@,
    {
        TsParamProp {
            span: self.span,
            readonly: self.readonly,
            param: self.param.clone(),
        }
    }
}

/// A parameter of a constructor.
#[derive(Debug, PartialEq, Eq)]
pub enum ParamOrTsParamProp {
    TsParamProp(TsParamProp),
    Param(Param),
}

/// The value of [`ParamOrTsParamProp`] that contracts speak of.
#[verifier::ext_equal]
pub ghost enum ParamOrTsParamPropView {
    TsParamProp(TsParamPropView),
    Param(ParamView),
}

impl ParamOrTsParamProp {
    /// The value that `self` stands for.
    pub open spec fn model(self) -> ParamOrTsParamPropView {
        match self {
            ParamOrTsParamProp::TsParamProp(a) => ParamOrTsParamPropView::TsParamProp(a.model()),
            ParamOrTsParamProp::Param(a) => ParamOrTsParamPropView::Param(a.model()),
        }
    }

    /// The values that the items of `v` stand for, in order.
    pub open spec fn models(v: Seq<ParamOrTsParamProp>) -> Seq<ParamOrTsParamPropView> {
        Seq::new(v.len(), |i: int| v[i].model())
    }

    /// A copy of every item of `v`, in order.
    pub fn clone_all(v: &Vec<ParamOrTsParamProp>) -> (r: Vec<ParamOrTsParamProp>)
        ensures
            ParamOrTsParamProp::models(r@) == ParamOrTsParamProp::models(v@),
    {
        let mut r: Vec<ParamOrTsParamProp> = Vec::new();
        let mut i: usize = 0;
        while i < v.len()
            invariant
                i <= v.len(),
                r.len() == i,
                forall|j: int| 0 <= j < i ==> r[j]@ == v[j]@,
            decreases v.len() - i,
        {
            r.push(v[i].clone());
            i += 1;
        }
        r
    }
}

impl View for ParamOrTsParamProp {
    type V = ParamOrTsParamPropView;

    open spec fn view(&self) -> ParamOrTsParamPropView {
        self.model()
    }
}

impl DeepView for ParamOrTsParamProp {
    type V = ParamOrTsParamPropView;

    open spec fn deep_view(&self) -> ParamOrTsParamPropView {
        self.model()
    }
}

impl Clone for ParamOrTsParamProp {
    fn clone(&self) -> (r: Self)
        ensures
            r@ == self@,
    {
        match self {
            ParamOrTsParamProp::TsParamProp(a) => ParamOrTsParamProp::TsParamProp(a.clone()),
            ParamOrTsParamProp::Param(a) => ParamOrTsParamProp::Param(a.clone()),
        }
    }
}

} // verus!

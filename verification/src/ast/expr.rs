//! Expressions.

use vstd::prelude::*;
use crate::ast::span::NodeId;
use crate::ast::token::{Ident, IdentView, Number, NumberView, Str, StrView};

verus! {

/// A prefix operator.
#[derive(Clone, Copy, Debug, PartialEq, Eq, Structural)]
pub enum UnaryOp {
    Minus,
    Plus,
    Bang,
    Tilde,
    TypeOf,
    Void,
    Delete,
}

/// An infix operator.
#[derive(Clone, Copy, Debug, PartialEq, Eq, Structural)]
pub enum BinaryOp {
    EqEq,
    NotEq,
    EqEqEq,
    NotEqEq,
    Lt,
    LtEq,
    Gt,
    GtEq,
    LShift,
    RShift,
    ZeroFillRShift,
    Add,
    Sub,
    Mul,
    Div,
    Mod,
    BitOr,
    BitXor,
    BitAnd,
    LogicalOr,
    LogicalAnd,
    In,
    InstanceOf,
    Exp,
    NullishCoalescing,
}

/// A literal expression.
#[derive(Debug, PartialEq, Eq)]
pub enum Lit {
    Str(Str),
    Bool(bool),
    Null,
    Num(Number),
    BigInt(NodeId),
    Regex(NodeId),
    JSXText(NodeId),
}

/// The value of [`Lit`] that contracts speak of.
#[verifier::ext_equal]
pub ghost enum LitView {
    Str(StrView),
    Bool(bool),
    Null,
    Num(NumberView),
    BigInt(NodeId),
    Regex(NodeId),
    JSXText(NodeId),
}

impl Lit {
    /// The value that `self` stands for.
    pub open spec fn model(self) -> LitView {
        match self {
            Lit::Str(a) => LitView::Str(a.model()),
            Lit::Bool(a) => LitView::Bool(a),
            Lit::Null => LitView::Null,
            Lit::Num(a) => LitView::Num(a.model()),
            Lit::BigInt(a) => LitView::BigInt(a),
            Lit::Regex(a) => LitView::Regex(a),
            Lit::JSXText(a) => LitView::JSXText(a),
        }
    }
}

impl View for Lit {
    type V = LitView;

    open spec fn view(&self) -> LitView {
        self.model()
    }
}

impl DeepView for Lit {
    type V = LitView;

    open spec fn deep_view(&self) -> LitView {
        self.model()
    }
}

impl Clone for Lit {
    fn clone(&self) -> (r: Self)
        ensures
            r@ == self@,
    {
        match self {
            Lit::Str(a) => Lit::Str(a.clone()),
            Lit::Bool(a) => Lit::Bool(*a),
            Lit::Null => Lit::Null,
            Lit::Num(a) => Lit::Num(a.clone()),
            Lit::BigInt(a) => Lit::BigInt(*a),
            Lit::Regex(a) => Lit::Regex(*a),
            Lit::JSXText(a) => Lit::JSXText(*a),
        }
    }
}

/// An expression, as far as this crate reads or writes one.
#[derive(Debug, PartialEq, Eq)]
#[allow(inconsistent_fields)]
pub enum Expr {
    Ident(Ident),
    Lit(Lit),
    /// `op arg`
    Unary { op: UnaryOp, arg: Box<Expr> },
    /// `left op right`
    Bin { op: BinaryOp, left: Box<Expr>, right: Box<Expr> },
    /// `test ? cons : alt`
    Cond { test: Box<Expr>, cons: Box<Expr>, alt: Box<Expr> },
    /// `callee(args)`
    Call { callee: Box<Expr>, args: Vec<Expr> },
    /// Any other expression, kept by the caller.
    Opaque(NodeId),
}

/// The value of [`Expr`] that contracts speak of.
#[verifier::ext_equal]
#[allow(inconsistent_fields)]
pub ghost enum ExprView {
    Ident(IdentView),
    Lit(LitView),
    Unary { op: UnaryOp, arg: Box<ExprView> },
    Bin { op: BinaryOp, left: Box<ExprView>, right: Box<ExprView> },
    Cond { test: Box<ExprView>, cons: Box<ExprView>, alt: Box<ExprView> },
    Call { callee: Box<ExprView>, args: Seq<ExprView> },
    Opaque(NodeId),
}

impl Expr {
    /// The value that `self` stands for.
    pub open spec fn model(self) -> ExprView
        decreases self,
    {
        match self {
            Expr::Ident(a) => ExprView::Ident(a.model()),
            Expr::Lit(a) => ExprView::Lit(a.model()),
            Expr::Unary { op, arg } => ExprView::Unary {
                op: op,
                arg: Box::new((*arg).model()),
            },
            Expr::Bin { op, left, right } => ExprView::Bin {
                op: op,
                left: Box::new((*left).model()),
                right: Box::new((*right).model()),
            },
            Expr::Cond { test, cons, alt } => ExprView::Cond {
                test: Box::new((*test).model()),
                cons: Box::new((*cons).model()),
                alt: Box::new((*alt).model()),
            },
            Expr::Call { callee, args } => ExprView::Call {
                callee: Box::new((*callee).model()),
                args: Expr::models(args@),
            },
            Expr::Opaque(a) => ExprView::Opaque(a),
        }
    }

    /// The values that the items of `v` stand for, in order.
    pub open spec fn models(v: Seq<Expr>) -> Seq<ExprView>
        decreases v,
    {
        Seq::new(
            v.len(),
            |i: int| if 0 <= i < v.len() { v[i].model() } else { arbitrary() },
        )
    }

    /// A copy of every item of `v`, in order.
    pub fn clone_all(v: &Vec<Expr>) -> (r: Vec<Expr>)
        ensures
            Expr::models(r@) == Expr::models(v@),
        decreases v,
    {
        let mut r: Vec<Expr> = Vec::new();
        let mut i: usize = 0;
        while i < v.len()
            invariant
                i <= v.len(),
                r.len() == i,
                forall|j: int| 0 <= j < i ==> r[j]@ == v[j]@,
            decreases v.len() - i,
        {
            r.push(v[i].clone());
            i += 1;
        }
        r
    }
}

impl View for Expr {
    type V = ExprView;

    open spec fn view(&self) -> ExprView {
        self.model()
    }
}

impl DeepView for Expr {
    type V = ExprView;

    open spec fn deep_view(&self) -> ExprView {
        self.model()
    }
}

impl Clone for Expr {
    fn clone(&self) -> (r: Self)
        ensures
            r@ == self@,
        decreases self,
    {
        match self {
            Expr::Ident(a) => Expr::Ident(a.clone()),
            Expr::Lit(a) => Expr::Lit(a.clone()),
            Expr::Unary { op, arg } => Expr::Unary {
                op: *op,
                arg: Box::new((**arg).clone()),
            },
            Expr::Bin { op, left, right } => Expr::Bin {
                op: *op,
                left: Box::new((**left).clone()),
                right: Box::new((**right).clone()),
            },
            Expr::Cond { test, cons, alt } => Expr::Cond {
                test: Box::new((**test).clone()),
                cons: Box::new((**cons).clone()),
                alt: Box::new((**alt).clone()),
            },
            Expr::Call { callee, args } => Expr::Call {
                callee: Box::new((**callee).clone()),
                args: Expr::clone_all(args),
            },
            Expr::Opaque(a) => Expr::Opaque(*a),
        }
    }
}

} // verus!

//! Module items, statements and namespaces: the part of the tree that nests.

use vstd::prelude::*;
use crate::ast::decl::{
    ClassDecl, ClassDeclView, FnDecl, FnDeclView, TsEnumDecl, TsEnumDeclView, TsInterfaceDecl,
    TsInterfaceDeclView, TsModuleName, TsModuleNameView, TsTypeAliasDecl, TsTypeAliasDeclView,
    VarDecl, VarDeclView,
};
use crate::ast::span::Span;

verus! {

/// `{ stmts }`
#[derive(Debug, PartialEq, Eq)]
pub struct BlockStmt {
    pub span: Span,
    pub stmts: Vec<Stmt>,
}

/// The value of [`BlockStmt`] that contracts speak of.
#[verifier::ext_equal]
pub ghost struct BlockStmtView {
    pub span: Span,
    pub stmts: Seq<StmtView>,
}

impl BlockStmt {
    /// The value that `self` stands for.
    pub open spec fn model(self) -> BlockStmtView
        decreases self,
    {
        BlockStmtView {
            span: self.span,
            stmts: Stmt::models(self.stmts@),
        }
    }
}

impl View for BlockStmt {
    type V = BlockStmtView;

    open spec fn view(&self) -> BlockStmtView {
        self.model()
    }
}

impl DeepView for BlockStmt {
    type V = BlockStmtView;

    open spec fn deep_view(&self) -> BlockStmtView {
        self.model()
    }
}

impl Clone for BlockStmt {
    fn clone(&self) -> (r: Self)
        ensures
            r@ == self@,
        decreases self,
    {
        BlockStmt {
            span: self.span,
            stmts: Stmt::clone_all(&self.stmts),
        }
    }
}

/// A statement. Kinds that hold no declaration carry nothing.
#[derive(Debug, PartialEq, Eq)]
pub enum Stmt {
    Block(BlockStmt),
    Empty,
    Debugger,
    With,
    Return,
    Labeled,
    Break,
    Continue,
    If,
    Switch,
    Throw,
    Try,
    While,
    DoWhile,
    For,
    ForIn,
    ForOf,
    Decl(Decl),
    Expr,
}

/// The value of [`Stmt`] that contracts speak of.
#[verifier::ext_equal]
pub ghost enum StmtView {
    Block(BlockStmtView),
    Empty,
    Debugger,
    With,
    Return,
    Labeled,
    Break,
    Continue,
    If,
    Switch,
    Throw,
    Try,
    While,
    DoWhile,
    For,
    ForIn,
    ForOf,
    Decl(DeclView),
    Expr,
}

impl Stmt {
    /// The value that `self` stands for.
    pub open spec fn model(self) -> StmtView
        decreases self,
    {
        match self {
            Stmt::Block(a) => StmtView::Block(a.model()),
            Stmt::Empty => StmtView::Empty,
            Stmt::Debugger => StmtView::Debugger,
            Stmt::With => StmtView::With,
            Stmt::Return => StmtView::Return,
            Stmt::Labeled => StmtView::Labeled,
            Stmt::Break => StmtView::Break,
            Stmt::Continue => StmtView::Continue,
            Stmt::If => StmtView::If,
            Stmt::Switch => StmtView::Switch,
            Stmt::Throw => StmtView::Throw,
            Stmt::Try => StmtView::Try,
            Stmt::While => StmtView::While,
            Stmt::DoWhile => StmtView::DoWhile,
            Stmt::For => StmtView::For,
            Stmt::ForIn => StmtView::ForIn,
            Stmt::ForOf => StmtView::ForOf,
            Stmt::Decl(a) => StmtView::Decl(a.model()),
            Stmt::Expr => StmtView::Expr,
        }
    }

    /// The values that the items of `v` stand for, in order.
    pub open spec fn models(v: Seq<Stmt>) -> Seq<StmtView>
        decreases v,
    {
        Seq::new(
            v.len(),
            |i: int| if 0 <= i < v.len() { v[i].model() } else { arbitrary() },
        )
    }

    /// A copy of every item of `v`, in order.
    pub fn clone_all(v: &Vec<Stmt>) -> (r: Vec<Stmt>)
        ensures
            Stmt::models(r@) == Stmt::models(v@),
        decreases v,
    {
        let mut r: Vec<Stmt> = Vec::new();
        let mut i: usize = 0;
        while i < v.len()
            invariant
                i <= v.len(),
                r.len() == i,
                forall|j: int| 0 <= j < i ==> r[j]@ == v[j]@,
            decreases v.len() - i,
        {
            r.push(v[i].clone());
            i += 1;
        }
        r
    }
}

impl View for Stmt {
    type V = StmtView;

    open spec fn view(&self) -> StmtView {
        self.model()
    }
}

impl DeepView for Stmt {
    type V = StmtView;

    open spec fn deep_view(&self) -> StmtView {
        self.model()
    }
}

impl Clone for Stmt {
    fn clone(&self) -> (r: Self)
        ensures
            r@ == self@,
        decreases self,
    {
        match self {
            Stmt::Block(a) => Stmt::Block(a.clone()),
            Stmt::Empty => Stmt::Empty,
            Stmt::Debugger => Stmt::Debugger,
            Stmt::With => Stmt::With,
            Stmt::Return => Stmt::Return,
            Stmt::Labeled => Stmt::Labeled,
            Stmt::Break => Stmt::Break,
            Stmt::Continue => Stmt::Continue,
            Stmt::If => Stmt::If,
            Stmt::Switch => Stmt::Switch,
            Stmt::Throw => Stmt::Throw,
            Stmt::Try => Stmt::Try,
            Stmt::While => Stmt::While,
            Stmt::DoWhile => Stmt::DoWhile,
            Stmt::For => Stmt::For,
            Stmt::ForIn => Stmt::ForIn,
            Stmt::ForOf => Stmt::ForOf,
            Stmt::Decl(a) => Stmt::Decl(a.clone()),
            Stmt::Expr => Stmt::Expr,
        }
    }
}

/// The braces of a namespace and what stands between them.
#[derive(Debug, PartialEq, Eq)]
pub struct TsModuleBlock {
    pub span: Span,
    pub body: Vec<ModuleItem>,
}

/// The value of [`TsModuleBlock`] that contracts speak of.
#[verifier::ext_equal]
pub ghost struct TsModuleBlockView {
    pub span: Span,
    pub body: Seq<ModuleItemView>,
}

impl TsModuleBlock {
    /// The value that `self` stands for.
    pub open spec fn model(self) -> TsModuleBlockView
        decreases self,
    {
        TsModuleBlockView {
            span: self.span,
            body: ModuleItem::models(self.body@),
        }
    }
}

impl View for TsModuleBlock {
    type V = TsModuleBlockView;

    open spec fn view(&self) -> TsModuleBlockView {
        self.model()
    }
}

impl DeepView for TsModuleBlock {
    type V = TsModuleBlockView;

    open spec fn deep_view(&self) -> TsModuleBlockView {
        self.model()
    }
}

impl Clone for TsModuleBlock {
    fn clone(&self) -> (r: Self)
        ensures
            r@ == self@,
        decreases self,
    {
        TsModuleBlock {
            span: self.span,
            body: ModuleItem::clone_all(&self.body),
        }
    }
}

/// The body of a namespace.
#[derive(Debug, PartialEq, Eq)]
pub enum TsNamespaceBody {
    TsModuleBlock(TsModuleBlock),
    /// `namespace a.b { }`: the inner namespace is not read.
    TsNamespaceDecl,
}

/// The value of [`TsNamespaceBody`] that contracts speak of.
#[verifier::ext_equal]
pub ghost enum TsNamespaceBodyView {
    TsModuleBlock(TsModuleBlockView),
    TsNamespaceDecl,
}

impl TsNamespaceBody {
    /// The value that `self` stands for.
    pub open spec fn model(self) -> TsNamespaceBodyView
        decreases self,
    {
        match self {
            TsNamespaceBody::TsModuleBlock(a) => TsNamespaceBodyView::TsModuleBlock(a.model()),
            TsNamespaceBody::TsNamespaceDecl => TsNamespaceBodyView::TsNamespaceDecl,
        }
    }
}

impl View for TsNamespaceBody {
    type V = TsNamespaceBodyView;

    open spec fn view(&self) -> TsNamespaceBodyView {
        self.model()
    }
}

impl DeepView for TsNamespaceBody {
    type V = TsNamespaceBodyView;

    open spec fn deep_view(&self) -> TsNamespaceBodyView {
        self.model()
    }
}

impl Clone for TsNamespaceBody {
    fn clone(&self) -> (r: Self)
        ensures
            r@ == self@,
        decreases self,
    {
        match self {
            TsNamespaceBody::TsModuleBlock(a) => TsNamespaceBody::TsModuleBlock(a.clone()),
            TsNamespaceBody::TsNamespaceDecl => TsNamespaceBody::TsNamespaceDecl,
        }
    }
}

/// `namespace id { .. }` or `declare module "id" { .. }`
#[derive(Debug, PartialEq, Eq)]
pub struct TsModuleDecl {
    pub span: Span,
    pub declare: bool,
    pub global: bool,
    pub id: TsModuleName,
    pub body: Option<TsNamespaceBody>,
}

/// The value of [`TsModuleDecl`] that contracts speak of.
#[verifier::ext_equal]
pub ghost struct TsModuleDeclView {
    pub span: Span,
    pub declare: bool,
    pub global: bool,
    pub id: TsModuleNameView,
    pub body: Option<TsNamespaceBodyView>,
}

impl TsModuleDecl {
    /// The value that `self` stands for.
    pub open spec fn model(self) -> TsModuleDeclView
        decreases self,
    {
        TsModuleDeclView {
            span: self.span,
            declare: self.declare,
            global: self.global,
            id: self.id.model(),
            body: match self.body { Some(x) => Some(x.model()), None => None },
        }
    }
}

impl View for TsModuleDecl {
    type V = TsModuleDeclView;

    open spec fn view(&self) -> TsModuleDeclView {
        self.model()
    }
}

impl DeepView for TsModuleDecl {
    type V = TsModuleDeclView;

    open spec fn deep_view(&self) -> TsModuleDeclView {
        self.model()
    }
}

impl Clone for TsModuleDecl {
    fn clone(&self) -> (r: Self)
        ensures
            r@ == self@,
        decreases self,
    {
        TsModuleDecl {
            span: self.span,
            declare: self.declare,
            global: self.global,
            id: self.id.clone(),
            body: match &self.body { Some(x) => Some(x.clone()), None => None },
        }
    }
}

/// A declaration.
#[derive(Debug, PartialEq, Eq)]
pub enum Decl {
    Class(ClassDecl),
    Fn(FnDecl),
    Var(VarDecl),
    TsInterface(TsInterfaceDecl),
    TsTypeAlias(TsTypeAliasDecl),
    TsEnum(TsEnumDecl),
    TsModule(TsModuleDecl),
    Using,
}

/// The value of [`Decl`] that contracts speak of.
#[verifier::ext_equal]
pub ghost enum DeclView {
    Class(ClassDeclView),
    Fn(FnDeclView),
    Var(VarDeclView),
    TsInterface(TsInterfaceDeclView),
    TsTypeAlias(TsTypeAliasDeclView),
    TsEnum(TsEnumDeclView),
    TsModule(TsModuleDeclView),
    Using,
}

impl Decl {
    /// The value that `self` stands for.
    pub open spec fn model(self) -> DeclView
        decreases self,
    {
        match self {
            Decl::Class(a) => DeclView::Class(a.model()),
            Decl::Fn(a) => DeclView::Fn(a.model()),
            Decl::Var(a) => DeclView::Var(a.model()),
            Decl::TsInterface(a) => DeclView::TsInterface(a.model()),
            Decl::TsTypeAlias(a) => DeclView::TsTypeAlias(a.model()),
            Decl::TsEnum(a) => DeclView::TsEnum(a.model()),
            Decl::TsModule(a) => DeclView::TsModule(a.model()),
            Decl::Using => DeclView::Using,
        }
    }
}

impl View for Decl {
    type V = DeclView;

    open spec fn view(&self) -> DeclView {
        self.model()
    }
}

impl DeepView for Decl {
    type V = DeclView;

    open spec fn deep_view(&self) -> DeclView {
        self.model()
    }
}

impl Clone for Decl {
    fn clone(&self) -> (r: Self)
        ensures
            r@ == self@,
        decreases self,
    {
        match self {
            Decl::Class(a) => Decl::Class(a.clone()),
            Decl::Fn(a) => Decl::Fn(a.clone()),
            Decl::Var(a) => Decl::Var(a.clone()),
            Decl::TsInterface(a) => Decl::TsInterface(a.clone()),
            Decl::TsTypeAlias(a) => Decl::TsTypeAlias(a.clone()),
            Decl::TsEnum(a) => Decl::TsEnum(a.clone()),
            Decl::TsModule(a) => Decl::TsModule(a.clone()),
            Decl::Using => Decl::Using,
        }
    }
}

/// `export decl`
#[derive(Debug, PartialEq, Eq)]
pub struct ExportDecl {
    pub span: Span,
    pub decl: Decl,
}

/// The value of [`ExportDecl`] that contracts speak of.
#[verifier::ext_equal]
pub ghost struct ExportDeclView {
    pub span: Span,
    pub decl: DeclView,
}

impl ExportDecl {
    /// The value that `self` stands for.
    pub open spec fn model(self) -> ExportDeclView
        decreases self,
    {
        ExportDeclView {
            span: self.span,
            decl: self.decl.model(),
        }
    }
}

impl View for ExportDecl {
    type V = ExportDeclView;

    open spec fn view(&self) -> ExportDeclView {
        self.model()
    }
}

impl DeepView for ExportDecl {
    type V = ExportDeclView;

    open spec fn deep_view(&self) -> ExportDeclView {
        self.model()
    }
}

impl Clone for ExportDecl {
    fn clone(&self) -> (r: Self)
        ensures
            r@ == self@,
        decreases self,
    {
        ExportDecl {
            span: self.span,
            decl: self.decl.clone(),
        }
    }
}

/// An import or export. Only an exported declaration carries anything.
#[derive(Debug, PartialEq, Eq)]
pub enum ModuleDecl {
    Import,
    ExportDecl(ExportDecl),
    ExportNamed,
    ExportDefaultDecl,
    ExportDefaultExpr,
    ExportAll,
    TsImportEquals,
    TsExportAssignment,
    TsNamespaceExport,
}

/// The value of [`ModuleDecl`] that contracts speak of.
#[verifier::ext_equal]
pub ghost enum ModuleDeclView {
    Import,
    ExportDecl(ExportDeclView),
    ExportNamed,
    ExportDefaultDecl,
    ExportDefaultExpr,
    ExportAll,
    TsImportEquals,
    TsExportAssignment,
    TsNamespaceExport,
}

impl ModuleDecl {
    /// The value that `self` stands for.
    pub open spec fn model(self) -> ModuleDeclView
        decreases self,
    {
        match self {
            ModuleDecl::Import => ModuleDeclView::Import,
            ModuleDecl::ExportDecl(a) => ModuleDeclView::ExportDecl(a.model()),
            ModuleDecl::ExportNamed => ModuleDeclView::ExportNamed,
            ModuleDecl::ExportDefaultDecl => ModuleDeclView::ExportDefaultDecl,
            ModuleDecl::ExportDefaultExpr => ModuleDeclView::ExportDefaultExpr,
            ModuleDecl::ExportAll => ModuleDeclView::ExportAll,
            ModuleDecl::TsImportEquals => ModuleDeclView::TsImportEquals,
            ModuleDecl::TsExportAssignment => ModuleDeclView::TsExportAssignment,
            ModuleDecl::TsNamespaceExport => ModuleDeclView::TsNamespaceExport,
        }
    }
}

impl View for ModuleDecl {
    type V = ModuleDeclView;

    open spec fn view(&self) -> ModuleDeclView {
        self.model()
    }
}

impl DeepView for ModuleDecl {
    type V = ModuleDeclView;

    open spec fn deep_view(&self) -> ModuleDeclView {
        self.model()
    }
}

impl Clone for ModuleDecl {
    fn clone(&self) -> (r: Self)
        ensures
            r@ == self@,
        decreases self,
    {
        match self {
            ModuleDecl::Import => ModuleDecl::Import,
            ModuleDecl::ExportDecl(a) => ModuleDecl::ExportDecl(a.clone()),
            ModuleDecl::ExportNamed => ModuleDecl::ExportNamed,
            ModuleDecl::ExportDefaultDecl => ModuleDecl::ExportDefaultDecl,
            ModuleDecl::ExportDefaultExpr => ModuleDecl::ExportDefaultExpr,
            ModuleDecl::ExportAll => ModuleDecl::ExportAll,
            ModuleDecl::TsImportEquals => ModuleDecl::TsImportEquals,
            ModuleDecl::TsExportAssignment => ModuleDecl::TsExportAssignment,
            ModuleDecl::TsNamespaceExport => ModuleDecl::TsNamespaceExport,
        }
    }
}

/// One item of a module or of a namespace body.
#[derive(Debug, PartialEq, Eq)]
pub enum ModuleItem {
    ModuleDecl(ModuleDecl),
    Stmt(Stmt),
}

/// The value of [`ModuleItem`] that contracts speak of.
#[verifier::ext_equal]
pub ghost enum ModuleItemView {
    ModuleDecl(ModuleDeclView),
    Stmt(StmtView),
}

impl ModuleItem {
    /// The value that `self` stands for.
    pub open spec fn model(self) -> ModuleItemView
        decreases self,
    {
        match self {
            ModuleItem::ModuleDecl(a) => ModuleItemView::ModuleDecl(a.model()),
            ModuleItem::Stmt(a) => ModuleItemView::Stmt(a.model()),
        }
    }

    /// The values that the items of `v` stand for, in order.
    pub open spec fn models(v: Seq<ModuleItem>) -> Seq<ModuleItemView>
        decreases v,
    {
        Seq::new(
            v.len(),
            |i: int| if 0 <= i < v.len() { v[i].model() } else { arbitrary() },
        )
    }

    /// A copy of every item of `v`, in order.
    pub fn clone_all(v: &Vec<ModuleItem>) -> (r: Vec<ModuleItem>)
        ensures
            ModuleItem::models(r@) == ModuleItem::models(v@),
        decreases v,
    {
        let mut r: Vec<ModuleItem> = Vec::new();
        let mut i: usize = 0;
        while i < v.len()
            invariant
                i <= v.len(),
                r.len() == i,
                forall|j: int| 0 <= j < i ==> r[j]@ == v[j]@,
            decreases v.len() - i,
        {
            r.push(v[i].clone());
            i += 1;
        }
        r
    }
}

impl View for ModuleItem {
    type V = ModuleItemView;

    open spec fn view(&self) -> ModuleItemView {
        self.model()
    }
}

impl DeepView for ModuleItem {
    type V = ModuleItemView;

    open spec fn deep_view(&self) -> ModuleItemView {
        self.model()
    }
}

impl Clone for ModuleItem {
    fn clone(&self) -> (r: Self)
        ensures
            r@ == self@,
        decreases self,
    {
        match self {
            ModuleItem::ModuleDecl(a) => ModuleItem::ModuleDecl(a.clone()),
            ModuleItem::Stmt(a) => ModuleItem::Stmt(a.clone()),
        }
    }
}

} // verus!

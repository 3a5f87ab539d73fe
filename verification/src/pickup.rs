//! Collecting the declarations of a module, with the comments that stand before them.
//!
//! The walk goes through the items in the order of the source text and keeps every class,
//! function, variable, interface, type alias and enum that it meets, exported or not.
//! Imports, the other forms of export and statements that declare nothing are passed over.
//!
//! A namespace is opened, exported or not: what is declared between its braces joins the
//! surrounding list at the place of the namespace, as if it stood there. So do the
//! statements of a block. The collected list is therefore flat, however deep the
//! declarations stood, and the walk never makes a [`SubModule`]. A namespace without braces
//! (one without a body, or with a dotted name) gives nothing.
//!
//! An expression statement among the items means that the text was no declaration file.
//! The walk does not go on from there: such input is outside what [`pick_module_item`]
//! accepts, and [`is_collectable`] tells beforehand.

use vstd::prelude::*;
use crate::ast::decl::{
    ClassDecl, ClassDeclView, FnDecl, FnDeclView, TsEnumDecl, TsEnumDeclView, TsInterfaceDecl,
    TsInterfaceDeclView, TsModuleName, TsModuleNameView, TsTypeAliasDecl, TsTypeAliasDeclView,
    VarDecl, VarDeclView,
};
use crate::ast::module::{
    Decl, DeclView, ExportDecl, ExportDeclView, ModuleDecl, ModuleDeclView, ModuleItem,
    ModuleItemView, Stmt, StmtView, TsModuleDecl, TsModuleDeclView, TsNamespaceBody,
    TsNamespaceBodyView,
};
use crate::comments::{get_leading, lookup, Comment, CommentView, Registry};

verus! {

/// A collected declaration with the comments that stood before it.
#[derive(Debug, PartialEq, Eq)]
pub struct ResultDeclWithComments {
    pub comments: Option<Vec<Comment>>,
    pub decl: ResultDecl,
}

/// The value of [`ResultDeclWithComments`] that contracts speak of.
#[verifier::ext_equal]
pub ghost struct ResultDeclWithCommentsView {
    pub comments: Option<Seq<CommentView>>,
    pub decl: ResultDeclView,
}

impl ResultDeclWithComments {
    /// The value that `self` stands for.
    pub open spec fn model(self) -> ResultDeclWithCommentsView
        decreases self,
    {
        ResultDeclWithCommentsView {
            comments: match self.comments { Some(x) => Some(Comment::models(x@)), None => None },
            decl: self.decl.model(),
        }
    }

    /// The values that the items of `v` stand for, in order.
    pub open spec fn models(v: Seq<ResultDeclWithComments>) -> Seq<ResultDeclWithCommentsView>
        decreases v,
    {
        Seq::new(
            v.len(),
            |i: int| if 0 <= i < v.len() { v[i].model() } else { arbitrary() },
        )
    }

    /// A copy of every item of `v`, in order.
    pub fn clone_all(v: &Vec<ResultDeclWithComments>) -> (r: Vec<ResultDeclWithComments>)
        ensures
            ResultDeclWithComments::models(r@) == ResultDeclWithComments::models(v@),
        decreases v,
    {
        let mut r: Vec<ResultDeclWithComments> = Vec::new();
        let mut i: usize = 0;
        while i < v.len()
            invariant
                i <= v.len(),
                r.len() == i,
                forall|j: int| 0 <= j < i ==> r[j]@ == v[j]@,
            decreases v.len() - i,
        {
            r.push(v[i].clone());
            i += 1;
        }
        r
    }
}

impl View for ResultDeclWithComments {
    type V = ResultDeclWithCommentsView;

    open spec fn view(&self) -> ResultDeclWithCommentsView {
        self.model()
    }
}

impl DeepView for ResultDeclWithComments {
    type V = ResultDeclWithCommentsView;

    open spec fn deep_view(&self) -> ResultDeclWithCommentsView {
        self.model()
    }
}

impl Clone for ResultDeclWithComments {
    fn clone(&self) -> (r: Self)
        ensures
            r@ == self@,
        decreases self,
    {
        ResultDeclWithComments {
            comments: match &self.comments { Some(x) => Some(Comment::clone_all(x)), None => None },
            decl: self.decl.clone(),
        }
    }
}

/// A declaration that was collected.
#[derive(Debug, PartialEq, Eq)]
pub enum ResultDecl {
    Class(ClassDecl),
    Fn(FnDecl),
    Var(VarDecl),
    TsInterface(TsInterfaceDecl),
    TsTypeAlias(TsTypeAliasDecl),
    TsEnum(TsEnumDecl),
    SubModule(Box<SubModule>),
}

/// The value of [`ResultDecl`] that contracts speak of.
#[verifier::ext_equal]
pub ghost enum ResultDeclView {
    Class(ClassDeclView),
    Fn(FnDeclView),
    Var(VarDeclView),
    TsInterface(TsInterfaceDeclView),
    TsTypeAlias(TsTypeAliasDeclView),
    TsEnum(TsEnumDeclView),
    SubModule(Box<SubModuleView>),
}

impl ResultDecl {
    /// The value that `self` stands for.
    pub open spec fn model(self) -> ResultDeclView
        decreases self,
    {
        match self {
            ResultDecl::Class(a) => ResultDeclView::Class(a.model()),
            ResultDecl::Fn(a) => ResultDeclView::Fn(a.model()),
            ResultDecl::Var(a) => ResultDeclView::Var(a.model()),
            ResultDecl::TsInterface(a) => ResultDeclView::TsInterface(a.model()),
            ResultDecl::TsTypeAlias(a) => ResultDeclView::TsTypeAlias(a.model()),
            ResultDecl::TsEnum(a) => ResultDeclView::TsEnum(a.model()),
            ResultDecl::SubModule(a) => ResultDeclView::SubModule(Box::new((*a).model())),
        }
    }
}

impl View for ResultDecl {
    type V = ResultDeclView;

    open spec fn view(&self) -> ResultDeclView {
        self.model()
    }
}

impl DeepView for ResultDecl {
    type V = ResultDeclView;

    open spec fn deep_view(&self) -> ResultDeclView {
        self.model()
    }
}

impl Clone for ResultDecl {
    fn clone(&self) -> (r: Self)
        ensures
            r@ == self@,
        decreases self,
    {
        match self {
            ResultDecl::Class(a) => ResultDecl::Class(a.clone()),
            ResultDecl::Fn(a) => ResultDecl::Fn(a.clone()),
            ResultDecl::Var(a) => ResultDecl::Var(a.clone()),
            ResultDecl::TsInterface(a) => ResultDecl::TsInterface(a.clone()),
            ResultDecl::TsTypeAlias(a) => ResultDecl::TsTypeAlias(a.clone()),
            ResultDecl::TsEnum(a) => ResultDecl::TsEnum(a.clone()),
            ResultDecl::SubModule(a) => ResultDecl::SubModule(Box::new((**a).clone())),
        }
    }
}

/// Declarations that are kept together under a name, to become one nested object type.
///
/// [`pick_module_item`] makes none: a caller that wants the nesting groups the declarations.
#[derive(Debug, PartialEq, Eq)]
pub struct SubModule {
    pub name: TsModuleName,
    pub decl_vec: Vec<ResultDeclWithComments>,
}

/// The value of [`SubModule`] that contracts speak of.
#[verifier::ext_equal]
pub ghost struct SubModuleView {
    pub name: TsModuleNameView,
    pub decl_vec: Seq<ResultDeclWithCommentsView>,
}

impl SubModule {
    /// The value that `self` stands for.
    pub open spec fn model(self) -> SubModuleView
        decreases self,
    {
        SubModuleView {
            name: self.name.model(),
            decl_vec: ResultDeclWithComments::models(self.decl_vec@),
        }
    }
}

impl View for SubModule {
    type V = SubModuleView;

    open spec fn view(&self) -> SubModuleView {
        self.model()
    }
}

impl DeepView for SubModule {
    type V = SubModuleView;

    open spec fn deep_view(&self) -> SubModuleView {
        self.model()
    }
}

impl Clone for SubModule {
    fn clone(&self) -> (r: Self)
        ensures
            r@ == self@,
        decreases self,
    {
        SubModule {
            name: self.name.clone(),
            decl_vec: ResultDeclWithComments::clone_all(&self.decl_vec),
        }
    }
}

/// The list of the one declaration `decl`, with `comments` before it.
pub open spec fn spec_one(
    comments: Option<Seq<CommentView>>,
    decl: ResultDeclView,
) -> Seq<ResultDeclWithCommentsView> {
    seq![ResultDeclWithCommentsView { comments, decl }]
}

/// What is collected from the first `n` of `items`: what each gives, one after the other.
pub open spec fn spec_module_items(
    items: Seq<ModuleItemView>,
    held: Map<u32, Seq<CommentView>>,
    n: nat,
) -> Seq<ResultDeclWithCommentsView>
    decreases items, n,
{
    if n == 0 || n > items.len() {
        Seq::empty()
    } else {
        spec_module_items(items, held, (n - 1) as nat) + spec_module_item(items[n - 1], held)
    }
}

/// What is collected from one item: from an exported declaration or a statement what
/// these give, from any other import or export nothing.
pub open spec fn spec_module_item(
    item: ModuleItemView,
    held: Map<u32, Seq<CommentView>>,
) -> Seq<ResultDeclWithCommentsView>
    decreases item, 0nat,
{
    match item {
        ModuleItemView::ModuleDecl(ModuleDeclView::ExportDecl(export_decl)) => spec_export_decl(
            export_decl,
            held,
        ),
        ModuleItemView::ModuleDecl(_) => Seq::empty(),
        ModuleItemView::Stmt(statement) => spec_statement(statement, held),
    }
}

/// What is collected from an exported declaration: the declaration, with the comments that
/// stand before the `export`; from a namespace what is collected inside it.
pub open spec fn spec_export_decl(
    export_decl: ExportDeclView,
    held: Map<u32, Seq<CommentView>>,
) -> Seq<ResultDeclWithCommentsView>
    decreases export_decl, 0nat,
{
    let comments = lookup(held, export_decl.span.lo);
    match export_decl.decl {
        DeclView::Class(decl) => spec_one(comments, ResultDeclView::Class(decl)),
        DeclView::Fn(decl) => spec_one(comments, ResultDeclView::Fn(decl)),
        DeclView::Var(decl) => spec_one(comments, ResultDeclView::Var(decl)),
        DeclView::TsInterface(decl) => spec_one(comments, ResultDeclView::TsInterface(decl)),
        DeclView::TsTypeAlias(decl) => spec_one(comments, ResultDeclView::TsTypeAlias(decl)),
        DeclView::TsEnum(decl) => spec_one(comments, ResultDeclView::TsEnum(decl)),
        DeclView::TsModule(ts_module) => spec_ts_module_decl(ts_module, held),
        DeclView::Using => Seq::empty(),
    }
}

/// What is collected from the first `n` statements of a block.
pub open spec fn spec_statements(
    stmts: Seq<StmtView>,
    held: Map<u32, Seq<CommentView>>,
    n: nat,
) -> Seq<ResultDeclWithCommentsView>
    decreases stmts, n,
{
    if n == 0 || n > stmts.len() {
        Seq::empty()
    } else {
        spec_statements(stmts, held, (n - 1) as nat) + spec_statement(stmts[n - 1], held)
    }
}

/// What is collected from a statement: from a declaration the declaration, with the
/// comments that stand where it begins; from a block what its statements give; from a
/// namespace what is collected inside it; from any other statement nothing.
pub open spec fn spec_statement(
    statement: StmtView,
    held: Map<u32, Seq<CommentView>>,
) -> Seq<ResultDeclWithCommentsView>
    decreases statement, 0nat,
{
    match statement {
        StmtView::Block(block) => spec_statements(block.stmts, held, block.stmts.len()),
        StmtView::Decl(decl) => match decl {
            DeclView::Class(decl) => spec_one(
                lookup(held, decl.class.span.lo),
                ResultDeclView::Class(decl),
            ),
            DeclView::Fn(decl) => spec_one(
                lookup(held, decl.function.span.lo),
                ResultDeclView::Fn(decl),
            ),
            DeclView::Var(decl) => spec_one(lookup(held, decl.span.lo), ResultDeclView::Var(decl)),
            DeclView::TsInterface(decl) => spec_one(
                lookup(held, decl.span.lo),
                ResultDeclView::TsInterface(decl),
            ),
            DeclView::TsTypeAlias(decl) => spec_one(
                lookup(held, decl.span.lo),
                ResultDeclView::TsTypeAlias(decl),
            ),
            DeclView::TsEnum(decl) => spec_one(
                lookup(held, decl.span.lo),
                ResultDeclView::TsEnum(decl),
            ),
            DeclView::TsModule(module_decl) => spec_ts_module_decl(module_decl, held),
            DeclView::Using => Seq::empty(),
        },
        _ => Seq::empty(),
    }
}

/// What is collected inside a namespace: what the items between its braces give. A
/// namespace without a body, or with a dotted name, gives nothing.
pub open spec fn spec_ts_module_decl(
    ts_module_decl: TsModuleDeclView,
    held: Map<u32, Seq<CommentView>>,
) -> Seq<ResultDeclWithCommentsView>
    decreases ts_module_decl, 0nat,
{
    match ts_module_decl.body {
        Some(TsNamespaceBodyView::TsModuleBlock(block)) => spec_module_items(
            block.body,
            held,
            block.body.len(),
        ),
        _ => Seq::empty(),
    }
}

/// What is collected from `items`, with the comments that the registry `held` when the
/// walk was made.
pub open spec fn spec_pick_module_item(
    items: Seq<ModuleItemView>,
    held: Map<u32, Seq<CommentView>>,
) -> Seq<ResultDeclWithCommentsView> {
    spec_module_items(items, held, items.len())
}

/// Whether the walk can be made over `items`: no expression statement stands among them,
/// nor in a block or a namespace that the walk opens.
pub open spec fn collectable(items: Seq<ModuleItemView>) -> bool
    decreases items, 0nat,
{
    forall|i: int| 0 <= i < items.len() ==> collectable_item(#[trigger] items[i])
}

/// Whether the walk can be made over one item.
pub open spec fn collectable_item(item: ModuleItemView) -> bool
    decreases item, 0nat,
{
    match item {
        ModuleItemView::ModuleDecl(ModuleDeclView::ExportDecl(export_decl)) => {
            match export_decl.decl {
                DeclView::TsModule(ts_module) => collectable_ts_module_decl(ts_module),
                _ => true,
            }
        },
        ModuleItemView::ModuleDecl(_) => true,
        ModuleItemView::Stmt(statement) => collectable_statement(statement),
    }
}

/// Whether the walk can be made over the statements of a block.
pub open spec fn collectable_statements(stmts: Seq<StmtView>) -> bool
    decreases stmts, 0nat,
{
    forall|i: int| 0 <= i < stmts.len() ==> collectable_statement(#[trigger] stmts[i])
}

/// Whether the walk can be made over one statement.
pub open spec fn collectable_statement(statement: StmtView) -> bool
    decreases statement, 0nat,
{
    match statement {
        StmtView::Block(block) => collectable_statements(block.stmts),
        StmtView::Decl(DeclView::TsModule(module_decl)) => collectable_ts_module_decl(module_decl),
        StmtView::Expr => false,
        _ => true,
    }
}

/// Whether the walk can be made inside a namespace.
pub open spec fn collectable_ts_module_decl(ts_module_decl: TsModuleDeclView) -> bool
    decreases ts_module_decl, 0nat,
{
    match ts_module_decl.body {
        Some(TsNamespaceBodyView::TsModuleBlock(block)) => collectable(block.body),
        _ => true,
    }
}

fn one(comments: Option<Vec<Comment>>, decl: ResultDecl) -> (r: Vec<ResultDeclWithComments>)
    ensures
        ResultDeclWithComments::models(r@) == spec_one(
            match comments {
                Some(found) => Some(Comment::models(found@)),
                None => None,
            },
            decl@,
        ),
{
    let mut r: Vec<ResultDeclWithComments> = Vec::new();
    r.push(ResultDeclWithComments { comments, decl });
    r
}

fn nothing() -> (r: Vec<ResultDeclWithComments>)
    ensures
        ResultDeclWithComments::models(r@) == Seq::<ResultDeclWithCommentsView>::empty(),
{
    let r: Vec<ResultDeclWithComments> = Vec::new();
    r
}

fn found_at(comments: &Registry, pos: u32) -> (r: Option<
    Vec<Comment>,
>)
    ensures
        (match r {
            Some(found) => Some(Comment::models(found@)),
            None => None,
        }) == lookup(comments@, pos),
{
    get_leading(comments, pos)
}

/// Collects the declarations of `module_items`, each with a copy of the comments that the
/// registry holds for the place where it begins.
pub fn pick_module_item(
    module_items: &Vec<ModuleItem>,
    comments: &Registry,
) -> (r: Vec<ResultDeclWithComments>)
    requires
        collectable(ModuleItem::models(module_items@)),
    ensures
        ResultDeclWithComments::models(r@) == spec_pick_module_item(
            ModuleItem::models(module_items@),
            comments@,
        ),
    decreases module_items, 1nat,
{
    let ghost all = ModuleItem::models(module_items@);
    let ghost held = comments@;
    let mut r: Vec<ResultDeclWithComments> = nothing();
    let mut i: usize = 0;
    while i < module_items.len()
        invariant
            i <= module_items.len(),
            all == ModuleItem::models(module_items@),
            held == comments@,
            collectable(all),
            ResultDeclWithComments::models(r@) == spec_module_items(all, held, i as nat),
        decreases module_items.len() - i,
    {
        assert(collectable_item(all[i as int]));
        let mut found = module_item_to_result_decl_vec(&module_items[i], comments);
        r.append(&mut found);
        i += 1;
    }
    r
}

fn module_item_to_result_decl_vec(
    item: &ModuleItem,
    comments: &Registry,
) -> (r: Vec<ResultDeclWithComments>)
    requires
        collectable_item(item@),
    ensures
        ResultDeclWithComments::models(r@) == spec_module_item(item@, comments@),
    decreases item, 0nat,
{
    match item {
        ModuleItem::ModuleDecl(ModuleDecl::ExportDecl(export_decl)) => {
            export_decl_to_result_decl_vec(export_decl, comments)
        },
        ModuleItem::ModuleDecl(_) => nothing(),
        ModuleItem::Stmt(statement) => statement_to_result_decl_vec(statement, comments),
    }
}

fn export_decl_to_result_decl_vec(
    export_decl: &ExportDecl,
    comments: &Registry,
) -> (r: Vec<ResultDeclWithComments>)
    requires
        export_decl@.decl matches DeclView::TsModule(ts_module) ==> collectable_ts_module_decl(
            ts_module,
        ),
    ensures
        ResultDeclWithComments::models(r@) == spec_export_decl(
            export_decl@,
            comments@,
        ),
    decreases export_decl, 0nat,
{
    let pos = export_decl.span.lo;
    match &export_decl.decl {
        Decl::Class(decl) => one(found_at(comments, pos), ResultDecl::Class(decl.clone())),
        Decl::Fn(decl) => one(found_at(comments, pos), ResultDecl::Fn(decl.clone())),
        Decl::Var(decl) => one(found_at(comments, pos), ResultDecl::Var(decl.clone())),
        Decl::TsInterface(decl) => one(
            found_at(comments, pos),
            ResultDecl::TsInterface(decl.clone()),
        ),
        Decl::TsTypeAlias(decl) => one(
            found_at(comments, pos),
            ResultDecl::TsTypeAlias(decl.clone()),
        ),
        Decl::TsEnum(decl) => one(found_at(comments, pos), ResultDecl::TsEnum(decl.clone())),
        Decl::TsModule(ts_module) => ts_module_decl_to_result_decl_vec(ts_module, comments),
        Decl::Using => nothing(),
    }
}

fn statements_to_result_decl_vec(
    stmts: &Vec<Stmt>,
    comments: &Registry,
) -> (r: Vec<ResultDeclWithComments>)
    requires
        collectable_statements(Stmt::models(stmts@)),
    ensures
        ResultDeclWithComments::models(r@) == spec_statements(
            Stmt::models(stmts@),
            comments@,
            stmts.len() as nat,
        ),
    decreases stmts, 1nat,
{
    let ghost all = Stmt::models(stmts@);
    let ghost held = comments@;
    let mut r: Vec<ResultDeclWithComments> = nothing();
    let mut i: usize = 0;
    while i < stmts.len()
        invariant
            i <= stmts.len(),
            all == Stmt::models(stmts@),
            held == comments@,
            collectable_statements(all),
            ResultDeclWithComments::models(r@) == spec_statements(all, held, i as nat),
        decreases stmts.len() - i,
    {
        assert(collectable_statement(all[i as int]));
        let mut found = statement_to_result_decl_vec(&stmts[i], comments);
        r.append(&mut found);
        i += 1;
    }
    r
}

fn statement_to_result_decl_vec(
    statement: &Stmt,
    comments: &Registry,
) -> (r: Vec<ResultDeclWithComments>)
    requires
        collectable_statement(statement@),
    ensures
        ResultDeclWithComments::models(r@) == spec_statement(
            statement@,
            comments@,
        ),
    decreases statement, 0nat,
{
    match statement {
        Stmt::Block(block) => statements_to_result_decl_vec(&block.stmts, comments),
        Stmt::Decl(decl) => match decl {
            Decl::Class(decl) => one(
                found_at(comments, decl.class.span.lo),
                ResultDecl::Class(decl.clone()),
            ),
            Decl::Fn(decl) => one(
                found_at(comments, decl.function.span.lo),
                ResultDecl::Fn(decl.clone()),
            ),
            Decl::Var(decl) => one(found_at(comments, decl.span.lo), ResultDecl::Var(decl.clone())),
            Decl::TsInterface(decl) => one(
                found_at(comments, decl.span.lo),
                ResultDecl::TsInterface(decl.clone()),
            ),
            Decl::TsTypeAlias(decl) => one(
                found_at(comments, decl.span.lo),
                ResultDecl::TsTypeAlias(decl.clone()),
            ),
            Decl::TsEnum(decl) => one(
                found_at(comments, decl.span.lo),
                ResultDecl::TsEnum(decl.clone()),
            ),
            Decl::TsModule(module_decl) => ts_module_decl_to_result_decl_vec(module_decl, comments),
            Decl::Using => nothing(),
        },
        Stmt::Expr => unreached(),
        _ => nothing(),
    }
}

fn ts_module_decl_to_result_decl_vec(
    ts_module_decl: &TsModuleDecl,
    comments: &Registry,
) -> (r: Vec<ResultDeclWithComments>)
    requires
        collectable_ts_module_decl(ts_module_decl@),
    ensures
        ResultDeclWithComments::models(r@) == spec_ts_module_decl(
            ts_module_decl@,
            comments@,
        ),
    decreases ts_module_decl, 0nat,
{
    match &ts_module_decl.body {
        Some(TsNamespaceBody::TsModuleBlock(block)) => pick_module_item(&block.body, comments),
        _ => nothing(),
    }
}

fn statements_are_collectable(stmts: &Vec<Stmt>) -> (r: bool)
    ensures
        r == collectable_statements(Stmt::models(stmts@)),
    decreases stmts, 1nat,
{
    let ghost all = Stmt::models(stmts@);
    let mut i: usize = 0;
    while i < stmts.len()
        invariant
            i <= stmts.len(),
            all == Stmt::models(stmts@),
            forall|j: int| 0 <= j < i ==> collectable_statement(#[trigger] all[j]),
        decreases stmts.len() - i,
    {
        if !statement_is_collectable(&stmts[i]) {
            assert(!collectable_statement(all[i as int]));
            return false;
        }
        i += 1;
    }
    true
}

fn statement_is_collectable(statement: &Stmt) -> (r: bool)
    ensures
        r == collectable_statement(statement@),
    decreases statement, 0nat,
{
    match statement {
        Stmt::Block(block) => statements_are_collectable(&block.stmts),
        Stmt::Decl(Decl::TsModule(module_decl)) => ts_module_decl_is_collectable(module_decl),
        Stmt::Expr => false,
        _ => true,
    }
}

fn ts_module_decl_is_collectable(ts_module_decl: &TsModuleDecl) -> (r: bool)
    ensures
        r == collectable_ts_module_decl(ts_module_decl@),
    decreases ts_module_decl, 0nat,
{
    match &ts_module_decl.body {
        Some(TsNamespaceBody::TsModuleBlock(block)) => is_collectable(&block.body),
        _ => true,
    }
}

fn item_is_collectable(item: &ModuleItem) -> (r: bool)
    ensures
        r == collectable_item(item@),
    decreases item, 0nat,
{
    match item {
        ModuleItem::ModuleDecl(ModuleDecl::ExportDecl(export_decl)) => match &export_decl.decl {
            Decl::TsModule(ts_module) => ts_module_decl_is_collectable(ts_module),
            _ => true,
        },
        ModuleItem::ModuleDecl(_) => true,
        ModuleItem::Stmt(statement) => statement_is_collectable(statement),
    }
}

/// Whether the walk can be made over `module_items`: what [`pick_module_item`] asks of
/// them.
pub fn is_collectable(module_items: &Vec<ModuleItem>) -> (r: bool)
    ensures
        r == collectable(ModuleItem::models(module_items@)),
    decreases module_items, 1nat,
{
    let ghost all = ModuleItem::models(module_items@);
    let mut i: usize = 0;
    while i < module_items.len()
        invariant
            i <= module_items.len(),
            all == ModuleItem::models(module_items@),
            forall|j: int| 0 <= j < i ==> collectable_item(#[trigger] all[j]),
        decreases module_items.len() - i,
    {
        if !item_is_collectable(&module_items[i]) {
            assert(!collectable_item(all[i as int]));
            return false;
        }
        i += 1;
    }
    true
}

/// The classes, functions, variables, interfaces, type aliases and enums that the first
/// `n` of `items` declare, in the order of the source text, however deep in namespaces
/// and blocks they stand.
pub open spec fn declared(items: Seq<ModuleItemView>, n: nat) -> Seq<ResultDeclView>
    decreases items, n,
{
    if n == 0 || n > items.len() {
        Seq::empty()
    } else {
        declared(items, (n - 1) as nat) + declared_in_item(items[n - 1])
    }
}

/// What one item declares.
pub open spec fn declared_in_item(item: ModuleItemView) -> Seq<ResultDeclView>
    decreases item, 0nat,
{
    match item {
        ModuleItemView::ModuleDecl(ModuleDeclView::ExportDecl(export_decl)) => declared_in_decl(
            export_decl.decl,
        ),
        ModuleItemView::ModuleDecl(_) => Seq::empty(),
        ModuleItemView::Stmt(statement) => declared_in_statement(statement),
    }
}

/// What a declaration declares: itself, or for a namespace what is declared inside it.
pub open spec fn declared_in_decl(decl: DeclView) -> Seq<ResultDeclView>
    decreases decl, 0nat,
{
    match decl {
        DeclView::Class(decl) => seq![ResultDeclView::Class(decl)],
        DeclView::Fn(decl) => seq![ResultDeclView::Fn(decl)],
        DeclView::Var(decl) => seq![ResultDeclView::Var(decl)],
        DeclView::TsInterface(decl) => seq![ResultDeclView::TsInterface(decl)],
        DeclView::TsTypeAlias(decl) => seq![ResultDeclView::TsTypeAlias(decl)],
        DeclView::TsEnum(decl) => seq![ResultDeclView::TsEnum(decl)],
        DeclView::TsModule(ts_module) => declared_in_ts_module_decl(ts_module),
        DeclView::Using => Seq::empty(),
    }
}

/// What the first `n` statements of a block declare.
pub open spec fn declared_in_statements(stmts: Seq<StmtView>, n: nat) -> Seq<ResultDeclView>
    decreases stmts, n,
{
    if n == 0 || n > stmts.len() {
        Seq::empty()
    } else {
        declared_in_statements(stmts, (n - 1) as nat) + declared_in_statement(stmts[n - 1])
    }
}

/// What a statement declares.
pub open spec fn declared_in_statement(statement: StmtView) -> Seq<ResultDeclView>
    decreases statement, 0nat,
{
    match statement {
        StmtView::Block(block) => declared_in_statements(block.stmts, block.stmts.len()),
        StmtView::Decl(decl) => declared_in_decl(decl),
        _ => Seq::empty(),
    }
}

/// What is declared inside a namespace.
pub open spec fn declared_in_ts_module_decl(ts_module_decl: TsModuleDeclView) -> Seq<
    ResultDeclView,
>
    decreases ts_module_decl, 0nat,
{
    match ts_module_decl.body {
        Some(TsNamespaceBodyView::TsModuleBlock(block)) => declared(block.body, block.body.len()),
        _ => Seq::empty(),
    }
}

/// The declarations of a collected list, without their comments.
pub open spec fn decls_of(result_vec: Seq<ResultDeclWithCommentsView>) -> Seq<ResultDeclView> {
    Seq::new(result_vec.len(), |i: int| result_vec[i].decl)
}

proof fn lemma_collected_items(
    items: Seq<ModuleItemView>,
    held: Map<u32, Seq<CommentView>>,
    n: nat,
)
    requires
        n <= items.len(),
    ensures
        decls_of(spec_module_items(items, held, n)) == declared(items, n),
    decreases items, n,
{
    if n > 0 {
        lemma_collected_items(items, held, (n - 1) as nat);
        lemma_collected_item(items[n - 1], held);
    }
}

proof fn lemma_collected_item(item: ModuleItemView, held: Map<u32, Seq<CommentView>>)
    ensures
        decls_of(spec_module_item(item, held)) == declared_in_item(item),
    decreases item, 0nat,
{
    match item {
        ModuleItemView::ModuleDecl(ModuleDeclView::ExportDecl(export_decl)) => {
            match export_decl.decl {
                DeclView::TsModule(ts_module) => {
                    lemma_collected_ts_module_decl(ts_module, held);
                },
                _ => {},
            }
            assert(decls_of(spec_export_decl(export_decl, held)) =~= declared_in_decl(
                export_decl.decl,
            ));
        },
        ModuleItemView::ModuleDecl(_) => {},
        ModuleItemView::Stmt(statement) => {
            lemma_collected_statement(statement, held);
        },
    }
}

proof fn lemma_collected_statements(
    stmts: Seq<StmtView>,
    held: Map<u32, Seq<CommentView>>,
    n: nat,
)
    requires
        n <= stmts.len(),
    ensures
        decls_of(spec_statements(stmts, held, n)) == declared_in_statements(stmts, n),
    decreases stmts, n,
{
    if n > 0 {
        lemma_collected_statements(stmts, held, (n - 1) as nat);
        lemma_collected_statement(stmts[n - 1], held);
    }
}

proof fn lemma_collected_statement(statement: StmtView, held: Map<u32, Seq<CommentView>>)
    ensures
        decls_of(spec_statement(statement, held)) == declared_in_statement(statement),
    decreases statement, 0nat,
{
    match statement {
        StmtView::Block(block) => {
            lemma_collected_statements(block.stmts, held, block.stmts.len());
        },
        StmtView::Decl(decl) => {
            match decl {
                DeclView::TsModule(module_decl) => {
                    lemma_collected_ts_module_decl(module_decl, held);
                },
                _ => {},
            }
            assert(decls_of(spec_statement(statement, held)) =~= declared_in_decl(decl));
        },
        _ => {},
    }
}

proof fn lemma_collected_ts_module_decl(
    ts_module_decl: TsModuleDeclView,
    held: Map<u32, Seq<CommentView>>,
)
    ensures
        decls_of(spec_ts_module_decl(ts_module_decl, held)) == declared_in_ts_module_decl(
            ts_module_decl,
        ),
    decreases ts_module_decl, 0nat,
{
    match ts_module_decl.body {
        Some(TsNamespaceBodyView::TsModuleBlock(block)) => {
            lemma_collected_items(block.body, held, block.body.len());
        },
        _ => {},
    }
}

proof fn lemma_declares_no_namespace(items: Seq<ModuleItemView>, n: nat, k: int)
    requires
        n <= items.len(),
        0 <= k < declared(items, n).len(),
    ensures
        !(declared(items, n)[k] is SubModule),
    decreases items, n, 1nat,
{
    if n > 0 {
        let earlier = declared(items, (n - 1) as nat);
        if k < earlier.len() {
            lemma_declares_no_namespace(items, (n - 1) as nat, k);
        } else {
            lemma_item_declares_no_namespace(items[n - 1], k - earlier.len());
        }
    }
}

proof fn lemma_item_declares_no_namespace(item: ModuleItemView, k: int)
    requires
        0 <= k < declared_in_item(item).len(),
    ensures
        !(declared_in_item(item)[k] is SubModule),
    decreases item, 0nat, 0nat,
{
    match item {
        ModuleItemView::ModuleDecl(ModuleDeclView::ExportDecl(export_decl)) => {
            lemma_decl_declares_no_namespace(export_decl.decl, k);
        },
        ModuleItemView::ModuleDecl(_) => {},
        ModuleItemView::Stmt(statement) => {
            lemma_statement_declares_no_namespace(statement, k);
        },
    }
}

proof fn lemma_decl_declares_no_namespace(decl: DeclView, k: int)
    requires
        0 <= k < declared_in_decl(decl).len(),
    ensures
        !(declared_in_decl(decl)[k] is SubModule),
    decreases decl, 0nat, 0nat,
{
    match decl {
        DeclView::TsModule(ts_module) => {
            match ts_module.body {
                Some(TsNamespaceBodyView::TsModuleBlock(block)) => {
                    lemma_declares_no_namespace(block.body, block.body.len(), k);
                },
                _ => {},
            }
        },
        _ => {},
    }
}

proof fn lemma_statements_declare_no_namespace(stmts: Seq<StmtView>, n: nat, k: int)
    requires
        n <= stmts.len(),
        0 <= k < declared_in_statements(stmts, n).len(),
    ensures
        !(declared_in_statements(stmts, n)[k] is SubModule),
    decreases stmts, n, 1nat,
{
    if n > 0 {
        let earlier = declared_in_statements(stmts, (n - 1) as nat);
        if k < earlier.len() {
            lemma_statements_declare_no_namespace(stmts, (n - 1) as nat, k);
        } else {
            lemma_statement_declares_no_namespace(stmts[n - 1], k - earlier.len());
        }
    }
}

proof fn lemma_statement_declares_no_namespace(statement: StmtView, k: int)
    requires
        0 <= k < declared_in_statement(statement).len(),
    ensures
        !(declared_in_statement(statement)[k] is SubModule),
    decreases statement, 0nat, 0nat,
{
    match statement {
        StmtView::Block(block) => {
            lemma_statements_declare_no_namespace(block.stmts, block.stmts.len(), k);
        },
        StmtView::Decl(decl) => {
            lemma_decl_declares_no_namespace(decl, k);
        },
        _ => {},
    }
}

/// Every declaration is collected, once, in the order of the source text, and the list is
/// flat.
///
/// Whatever the registry holds, and however deep in namespaces and blocks the declarations
/// stand: the declarations of the collected list are the classes, functions, variables,
/// interfaces, type aliases and enums that the items declare, one for one and in the same
/// order. So the list is as long as there are such declarations in the source text, and it
/// holds no [`SubModule`].
pub proof fn lemma_collects_every_declaration(
    items: Seq<ModuleItemView>,
    held: Map<u32, Seq<CommentView>>,
)
    ensures
        decls_of(spec_pick_module_item(items, held)) == declared(items, items.len()),
        spec_pick_module_item(items, held).len() == declared(items, items.len()).len(),
        forall|k: int|
            0 <= k < spec_pick_module_item(items, held).len() ==> !(
            #[trigger] spec_pick_module_item(items, held)[k].decl is SubModule),
{
    lemma_collected_items(items, held, items.len());
    let collected = spec_pick_module_item(items, held);
    assert(decls_of(collected).len() == collected.len());
    assert forall|k: int| 0 <= k < collected.len() implies !(#[trigger] collected[k].decl
        is SubModule) by {
        lemma_declares_no_namespace(items, items.len(), k);
        assert(decls_of(collected)[k] == collected[k].decl);
    }
}

} // verus!

//! Turns the declarations of a TypeScript declaration file into one nested type.
//!
//! A declaration file says what a library offers: classes, functions, variables, enums,
//! interfaces and type aliases, some of them inside namespaces. This crate reads such a file
//! as a tree ([`ast`]), collects the declarations with the comments that stand before them
//! ([`pickup`]), and writes a module in which one type, `VSCodeAPI`, holds a member for
//! every declaration ([`vs_code_api_type`]). Beside that type stand a function that fetches
//! the interface at run time ([`require_vs_code`]) and, for every class, enum, interface
//! and type alias of the outermost list, a type of its own ([`type_decls`]).
//!
//! Reading text into a tree and printing a tree as text is `swc`'s work and is done by the
//! caller. What this crate shares with `swc` is the registry of comments ([`comments`]):
//! the caller puts the comments of the source text into it, [`pickup`] reads it, whatever is
//! written here puts its comments into it, and the printer gets it in the end.
//!
//! Three choices run through the crate:
//!
//! - A namespace is opened, exported or not: what it declares is treated as if it stood in
//!   the place of the namespace. The collected list is flat. A caller that wants a nested
//!   object type in the result can group declarations in a [`pickup::SubModule`] itself.
//! - A class is described by what its values offer: constructors, and the properties and
//!   methods that are not static. Static members are left out, and so are private members,
//!   index signatures, static blocks and accessors.
//! - Interfaces and type aliases are handed on as they are, beside the nested type. They
//!   give no member of it.

pub mod ast;
pub mod attachment;
pub mod comments;
pub mod fn_to_type;
pub mod ident;
pub mod pickup;
pub mod require_vs_code;
pub mod type_decls;
pub mod vs_code_api_type;

use vstd::prelude::*;
use crate::ast::module::{ModuleItem, ModuleItemView};
use crate::comments::{CommentView, Registry};
use crate::pickup::{
    collectable, pick_module_item, spec_pick_module_item, ResultDeclWithComments,
    ResultDeclWithCommentsView,
};
use crate::type_decls::{
    gives_sibling, has_sibling, module_item_transform_at, spec_module_item_transform,
    spec_module_item_transform_comments, spec_value_of_type, value_of_type,
};
use crate::vs_code_api_type::{
    draw_positions, module_item_at, positions_count, positions_needed, spec_module_item,
    spec_module_item_comments, supported,
};

verus! {

/// What can end a run before any declaration is read.
#[derive(Debug, PartialEq, Eq)]
pub enum Error {
    /// The source text is not a module that the parser accepts.
    ParseModuleError,
}

impl Error {
    /// What the error says.
    pub open spec fn spec_message(self) -> Seq<char> {
        "parse module error"@
    }

    /// What the error says.
    pub fn message(&self) -> (r: String)
        ensures
            r@ == self.spec_message(),
    {
        match self {
            Error::ParseModuleError => "parse module error".to_owned(),
        }
    }
}

/// How many of the first `n` collected declarations give a declaration beside the nested
/// type.
pub open spec fn sibling_count(result_vec: Seq<ResultDeclWithCommentsView>, n: nat) -> nat
    decreases n,
{
    if n == 0 || n > result_vec.len() {
        0
    } else {
        sibling_count(result_vec, (n - 1) as nat) + if has_sibling(result_vec[n - 1].decl) {
            1nat
        } else {
            0nat
        }
    }
}

/// The declarations beside the nested type for the first `n` collected declarations, in
/// their order, beginning at the positions from `ps[base]` on.
pub open spec fn spec_siblings(
    result_vec: Seq<ResultDeclWithCommentsView>,
    ps: Seq<u32>,
    base: nat,
    n: nat,
) -> Seq<ModuleItemView>
    decreases n,
{
    if n == 0 || n > result_vec.len() {
        Seq::empty()
    } else {
        let before = spec_siblings(result_vec, ps, base, (n - 1) as nat);
        match spec_module_item_transform(
            result_vec[n - 1],
            ps[(base + sibling_count(result_vec, (n - 1) as nat)) as int],
        ) {
            Some(item) => before.push(item),
            None => before,
        }
    }
}

/// What the registry holds after the declarations beside the nested type were made for the
/// first `n` collected declarations.
pub open spec fn spec_sibling_comments(
    held: Map<u32, Seq<CommentView>>,
    result_vec: Seq<ResultDeclWithCommentsView>,
    ps: Seq<u32>,
    base: nat,
    n: nat,
) -> Map<u32, Seq<CommentView>>
    decreases n,
{
    if n == 0 || n > result_vec.len() {
        held
    } else {
        spec_module_item_transform_comments(
            spec_sibling_comments(held, result_vec, ps, base, (n - 1) as nat),
            result_vec[n - 1],
            ps[(base + sibling_count(result_vec, (n - 1) as nat)) as int],
        )
    }
}

/// How many positions the whole module takes: one for the function that fetches the
/// interface, one for the nested type, one for each of its members that stands for a
/// declaration, and one for each declaration beside it.
pub open spec fn assembly_positions(result_vec: Seq<ResultDeclWithCommentsView>) -> nat {
    2 + positions_needed(result_vec, result_vec.len()) + sibling_count(
        result_vec,
        result_vec.len(),
    )
}

/// The items of the module that is written for the collected declarations: the declaration
/// of `require` and the function that fetches the interface, the nested type, the helper
/// type `ValueOf`, and the declarations beside the nested type.
///
/// The positions are given out in this order, and inside the nested type in the order of
/// its members.
pub open spec fn spec_assemble(
    result_vec: Seq<ResultDeclWithCommentsView>,
    ps: Seq<u32>,
) -> Seq<ModuleItemView> {
    crate::require_vs_code::spec_module_items(ps[0]) + seq![
        spec_module_item(result_vec, ps, 1),
        spec_value_of_type(),
    ] + spec_siblings(
        result_vec,
        ps,
        2 + positions_needed(result_vec, result_vec.len()),
        result_vec.len(),
    )
}

/// What the registry holds after the module was written: every comment stands before what
/// it belongs to.
pub open spec fn spec_assemble_comments(
    held: Map<u32, Seq<CommentView>>,
    result_vec: Seq<ResultDeclWithCommentsView>,
    ps: Seq<u32>,
) -> Map<u32, Seq<CommentView>> {
    spec_sibling_comments(
        spec_module_item_comments(
            crate::comments::with_added(
                held,
                ps[0],
                seq![crate::require_vs_code::spec_import_doc()],
            ),
            result_vec,
            ps,
            1,
        ),
        result_vec,
        ps,
        2 + positions_needed(result_vec, result_vec.len()),
        result_vec.len(),
    )
}

/// No more declarations stand beside the nested type than were collected.
pub proof fn lemma_sibling_count_bounds(
    result_vec: Seq<ResultDeclWithCommentsView>,
    m: nat,
    n: nat,
)
    requires
        m <= n <= result_vec.len(),
    ensures
        sibling_count(result_vec, m) <= sibling_count(result_vec, n) <= n,
    decreases n,
{
    if m < n {
        lemma_sibling_count_bounds(result_vec, m, (n - 1) as nat);
    } else if n > 0 {
        lemma_sibling_count_bounds(result_vec, (n - 1) as nat, (n - 1) as nat);
    }
}

/// How many declarations stand beside the nested type.
pub fn count_siblings(result_vec: &Vec<ResultDeclWithComments>) -> (r: usize)
    ensures
        r == sibling_count(ResultDeclWithComments::models(result_vec@), result_vec.len() as nat),
{
    let ghost all = ResultDeclWithComments::models(result_vec@);
    let mut total: usize = 0;
    let mut i: usize = 0;
    while i < result_vec.len()
        invariant
            i <= result_vec.len(),
            all == ResultDeclWithComments::models(result_vec@),
            total == sibling_count(all, i as nat),
            total <= i,
        decreases result_vec.len() - i,
    {
        if gives_sibling(&result_vec[i]) {
            total = total + 1;
        }
        i += 1;
    }
    total
}

/// How many positions the whole module takes; `None` where the number is too large to be
/// counted.
pub fn count_assembly_positions(result_vec: &Vec<ResultDeclWithComments>) -> (r: Option<usize>)
    ensures
        match r {
            Some(n) => n == assembly_positions(ResultDeclWithComments::models(result_vec@)),
            None => assembly_positions(ResultDeclWithComments::models(result_vec@)) > usize::MAX,
        },
{
    let siblings = count_siblings(result_vec);
    match positions_count(result_vec) {
        Some(members) => {
            if members > usize::MAX - 2 || siblings > usize::MAX - 2 - members {
                None
            } else {
                Some(2 + members + siblings)
            }
        },
        None => None,
    }
}

/// Writes the items of the module for the collected declarations, at positions that the
/// caller chose, and puts every comment before what it belongs to.
pub fn assemble_at(
    result_vec: &Vec<ResultDeclWithComments>,
    positions: &Vec<u32>,
    comments: &mut Registry,
) -> (r: Vec<ModuleItem>)
    requires
        supported(ResultDeclWithComments::models(result_vec@)),
        assembly_positions(ResultDeclWithComments::models(result_vec@)) <= positions.len(),
    ensures
        ModuleItem::models(r@) == spec_assemble(
            ResultDeclWithComments::models(result_vec@),
            positions@,
        ),
        final(comments)@ == spec_assemble_comments(
            old(comments)@,
            ResultDeclWithComments::models(result_vec@),
            positions@,
        ),
{
    let ghost all = ResultDeclWithComments::models(result_vec@);
    let ghost ps = positions@;
    let ghost members = positions_needed(all, result_vec.len() as nat);
    let mut r = crate::require_vs_code::module_items_at(positions[0], comments);
    r.push(module_item_at(positions, 1, comments, result_vec));
    r.push(value_of_type());
    let ghost held = comments@;
    let ghost fixed = ModuleItem::models(r@);
    let members_exec = match positions_count(result_vec) {
        Some(n) => n,
        None => unreached(),
    };
    let mut next: usize = 2 + members_exec;
    let mut i: usize = 0;
    while i < result_vec.len()
        invariant
            i <= result_vec.len(),
            all == ResultDeclWithComments::models(result_vec@),
            ps == positions@,
            members == positions_needed(all, result_vec.len() as nat),
            2 + members + sibling_count(all, result_vec.len() as nat) <= positions.len(),
            next == 2 + members + sibling_count(all, i as nat),
            ModuleItem::models(r@) == fixed + spec_siblings(all, ps, 2 + members, i as nat),
            comments@ == spec_sibling_comments(
                held,
                all,
                ps,
                2 + members,
                i as nat,
            ),
        decreases result_vec.len() - i,
    {
        let ghost before = ModuleItem::models(r@);
        proof {
            lemma_sibling_count_bounds(all, (i + 1) as nat, result_vec.len() as nat);
        }
        if gives_sibling(&result_vec[i]) {
            match module_item_transform_at(&result_vec[i], positions[next], comments) {
                Some(item) => {
                    let ghost pushed = item@;
                    r.push(item);
                    assert(ModuleItem::models(r@) =~= before.push(pushed));
                },
                None => {},
            }
            next = next + 1;
        }
        i += 1;
    }
    r
}

/// Writes the module for a parsed declaration file: collects the declarations, then writes
/// the items as [`assemble_at`] does, at positions that `swc_common` hands out.
///
/// `body` holds the items of the parsed module, or nothing where the parser refused the
/// text: that is the one error.
pub fn generate(
    body: Option<&Vec<ModuleItem>>,
    comments: &mut Registry,
    globals: &swc_common::Globals,
) -> (r: Result<Vec<ModuleItem>, Error>)
    requires
        body matches Some(items) ==> {
            &&& collectable(ModuleItem::models(items@))
            &&& supported(
                spec_pick_module_item(ModuleItem::models(items@), old(comments)@),
            )
            &&& assembly_positions(
                spec_pick_module_item(ModuleItem::models(items@), old(comments)@),
            ) <= usize::MAX
        },
    ensures
        body is None ==> r == Err::<Vec<ModuleItem>, Error>(Error::ParseModuleError)
            && final(comments)@ == old(comments)@,
        body matches Some(items) ==> r is Ok && exists|ps: Seq<u32>|
            {
                &&& ps.len() == assembly_positions(
                    spec_pick_module_item(
                        ModuleItem::models(items@),
                        old(comments)@,
                    ),
                )
                &&& ModuleItem::models(r->Ok_0@) == #[trigger] spec_assemble(
                    spec_pick_module_item(
                        ModuleItem::models(items@),
                        old(comments)@,
                    ),
                    ps,
                )
                &&& final(comments)@ == spec_assemble_comments(
                    old(comments)@,
                    spec_pick_module_item(
                        ModuleItem::models(items@),
                        old(comments)@,
                    ),
                    ps,
                )
            },
{
    match body {
        None => Err(Error::ParseModuleError),
        Some(items) => {
            let result_vec = pick_module_item(items, comments);
            let n = match count_assembly_positions(&result_vec) {
                Some(n) => n,
                None => unreached(),
            };
            let positions = draw_positions(globals, n);
            Ok(assemble_at(&result_vec, &positions, comments))
        },
    }
}

} // verus!

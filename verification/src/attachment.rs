//! Where the comments are after the nested type was written.
//!
//! The functions of [`crate::vs_code_api_type`] say what the registry holds after them,
//! step by step. This file says what that comes to when the positions are what they are
//! meant to be: different from one another, and free in the registry beforehand. Then every
//! member that stands for a declaration has exactly the comments of its declaration before
//! it, and nothing else in the registry has changed.

use vstd::prelude::*;
use crate::comments::{lookup, with_attached, CommentView};
use crate::pickup::{ResultDeclView, ResultDeclWithCommentsView};
use crate::vs_code_api_type::{
    positions_needed, positions_needed_one, spec_comments, spec_comments_one, with_attached_each,
};

verus! {

/// Whether the `n` positions from `ps[base]` on differ from one another and have no entry
/// in `held`.
pub open spec fn positions_free(
    held: Map<u32, Seq<CommentView>>,
    ps: Seq<u32>,
    base: nat,
    n: nat,
) -> bool {
    &&& base + n <= ps.len()
    &&& forall|j: int| base <= j < base + n ==> !held.dom().contains(#[trigger] ps[j])
    &&& forall|j: int, k: int| base <= j < k < base + n ==> #[trigger] ps[j] != #[trigger] ps[k]
}

/// Whether `p` is none of the `n` positions from `ps[base]` on.
pub open spec fn position_unused(ps: Seq<u32>, base: nat, n: nat, p: u32) -> bool {
    forall|j: int| base <= j < base + n ==> #[trigger] ps[j] != p
}

/// The comments that belong before the member at the `j`-th of the positions that the
/// first `n` collected declarations take: those of the declaration that the member stands
/// for.
pub open spec fn comments_for(
    result_vec: Seq<ResultDeclWithCommentsView>,
    n: nat,
    j: nat,
) -> Option<Seq<CommentView>>
    decreases result_vec, n,
{
    if n == 0 || n > result_vec.len() {
        None
    } else if j < positions_needed(result_vec, (n - 1) as nat) {
        comments_for(result_vec, (n - 1) as nat, j)
    } else {
        comments_for_one(
            result_vec[n - 1],
            (j - positions_needed(result_vec, (n - 1) as nat)) as nat,
        )
    }
}

/// The comments that belong before the member at the `j`-th of the positions that one
/// collected declaration takes. A namespace takes the first for itself and the others for
/// what it holds.
pub open spec fn comments_for_one(result: ResultDeclWithCommentsView, j: nat) -> Option<
    Seq<CommentView>,
>
    decreases result, 0nat,
{
    match result.decl {
        ResultDeclView::SubModule(sub_module) => if j == 0 {
            result.comments
        } else {
            comments_for(sub_module.decl_vec, sub_module.decl_vec.len(), (j - 1) as nat)
        },
        _ => result.comments,
    }
}

/// Comments that are put before a free position are alone there, and no other position is
/// touched.
pub proof fn lemma_attached_once(
    held: Map<u32, Seq<CommentView>>,
    pos: u32,
    comments: Option<Seq<CommentView>>,
)
    ensures
        !held.dom().contains(pos) ==> lookup(with_attached(held, pos, comments), pos) == comments,
        forall|p: u32|
            p != pos ==> #[trigger] lookup(with_attached(held, pos, comments), p) == lookup(
                held,
                p,
            ),
{
}

proof fn lemma_attached_each(
    held: Map<u32, Seq<CommentView>>,
    ps: Seq<u32>,
    base: nat,
    n: nat,
    comments: Option<Seq<CommentView>>,
)
    requires
        positions_free(held, ps, base, n),
    ensures
        forall|p: u32|
            position_unused(ps, base, n, p) ==> #[trigger] lookup(
                with_attached_each(held, ps, base, n, comments),
                p,
            ) == lookup(held, p),
        forall|j: int|
            base <= j < base + n ==> lookup(
                with_attached_each(held, ps, base, n, comments),
                #[trigger] ps[j],
            ) == comments,
    decreases n,
{
    if n > 0 {
        let before = with_attached_each(held, ps, base, (n - 1) as nat, comments);
        let last = ps[base + n - 1];
        lemma_attached_each(held, ps, base, (n - 1) as nat, comments);
        lemma_attached_once(before, last, comments);
        assert(!before.dom().contains(last));
    }
}

proof fn lemma_comments_one(
    held: Map<u32, Seq<CommentView>>,
    result: ResultDeclWithCommentsView,
    ps: Seq<u32>,
    base: nat,
)
    requires
        positions_free(held, ps, base, positions_needed_one(result)),
    ensures
        forall|p: u32|
            position_unused(ps, base, positions_needed_one(result), p) ==> #[trigger] lookup(
                spec_comments_one(held, result, ps, base),
                p,
            ) == lookup(held, p),
        forall|j: int|
            base <= j < base + positions_needed_one(result) ==> lookup(
                spec_comments_one(held, result, ps, base),
                #[trigger] ps[j],
            ) == comments_for_one(result, (j - base) as nat),
    decreases result, 0nat,
{
    let needed = positions_needed_one(result);
    match result.decl {
        ResultDeclView::Var(var_decl) => {
            lemma_attached_each(held, ps, base, var_decl.decls.len(), result.comments);
        },
        ResultDeclView::SubModule(sub_module) => {
            let first = ps[base as int];
            let begun = with_attached(held, first, result.comments);
            let inside = sub_module.decl_vec;
            let inner = positions_needed(inside, inside.len());
            lemma_attached_once(held, first, result.comments);
            assert(positions_free(begun, ps, base + 1, inner));
            lemma_comments(begun, inside, ps, base + 1, inside.len());
            assert forall|j: int| base <= j < base + needed implies lookup(
                spec_comments_one(held, result, ps, base),
                #[trigger] ps[j],
            ) == comments_for_one(result, (j - base) as nat) by {
                if j == base {
                    assert(position_unused(ps, base + 1, inner, ps[j]));
                }
            }
        },
        _ => {
            if needed > 0 {
                lemma_attached_once(held, ps[base as int], result.comments);
            }
        },
    }
}

proof fn lemma_comments(
    held: Map<u32, Seq<CommentView>>,
    result_vec: Seq<ResultDeclWithCommentsView>,
    ps: Seq<u32>,
    base: nat,
    n: nat,
)
    requires
        n <= result_vec.len(),
        positions_free(held, ps, base, positions_needed(result_vec, n)),
    ensures
        forall|p: u32|
            position_unused(ps, base, positions_needed(result_vec, n), p) ==> #[trigger] lookup(
                spec_comments(held, result_vec, ps, base, n),
                p,
            ) == lookup(held, p),
        forall|j: int|
            base <= j < base + positions_needed(result_vec, n) ==> lookup(
                spec_comments(held, result_vec, ps, base, n),
                #[trigger] ps[j],
            ) == comments_for(result_vec, n, (j - base) as nat),
    decreases result_vec, n,
{
    if n > 0 {
        let earlier = positions_needed(result_vec, (n - 1) as nat);
        let own = positions_needed_one(result_vec[n - 1]);
        let before = spec_comments(held, result_vec, ps, base, (n - 1) as nat);
        lemma_comments(held, result_vec, ps, base, (n - 1) as nat);
        assert(positions_free(before, ps, base + earlier, own)) by {
            assert forall|j: int|
                base + earlier <= j < base + earlier + own implies !before.dom().contains(
                #[trigger] ps[j],
            ) by {
                assert(position_unused(ps, base, earlier, ps[j]));
            }
        }
        lemma_comments_one(before, result_vec[n - 1], ps, base + earlier);
        assert forall|j: int| base <= j < base + positions_needed(result_vec, n) implies lookup(
            spec_comments(held, result_vec, ps, base, n),
            #[trigger] ps[j],
        ) == comments_for(result_vec, n, (j - base) as nat) by {
            if j < base + earlier {
                assert(position_unused(ps, base + earlier, own, ps[j]));
            }
        }
    }
}

/// Every member has the comments of its declaration before it, and nothing else.
///
/// Take positions that differ from one another and are free in the registry. After the
/// members for the collected declarations were made at these positions, the registry holds
/// before each position exactly the comments of the declaration that the member there
/// stands for (nothing, for a declaration without comments), and before every other
/// position what it held before. So each position was written once, and no comment of the
/// source text was lost or moved.
pub proof fn lemma_comments_stand_before_their_members(
    held: Map<u32, Seq<CommentView>>,
    result_vec: Seq<ResultDeclWithCommentsView>,
    ps: Seq<u32>,
    base: nat,
)
    requires
        positions_free(held, ps, base, positions_needed(result_vec, result_vec.len())),
    ensures
        forall|j: int|
            base <= j < base + positions_needed(result_vec, result_vec.len()) ==> lookup(
                spec_comments(held, result_vec, ps, base, result_vec.len()),
                #[trigger] ps[j],
            ) == comments_for(result_vec, result_vec.len(), (j - base) as nat),
        forall|p: u32|
            position_unused(ps, base, positions_needed(result_vec, result_vec.len()), p)
                ==> #[trigger] lookup(
                spec_comments(held, result_vec, ps, base, result_vec.len()),
                p,
            ) == lookup(held, p),
{
    lemma_comments(held, result_vec, ps, base, result_vec.len());
}

} // verus!

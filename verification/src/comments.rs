//! Comments, and the registry that finds them by the position they stand before.
//!
//! The registry is `swc_common`'s, the one that its printer reads. A [`Registry`] holds one
//! of them where nobody else can reach it: it is made empty, filled with comments as plain
//! values, and handed out whole when the work is done. So no borrow of its maps is ever
//! alive while this crate calls into it. What this crate knows of the registry is what the
//! items marked as trusted below state; Verus proves none of that.
//!
//! A comment is kept here with its kind, its text and the two offsets of its span.

use vstd::prelude::*;
use crate::ast::span::Span;

verus! {

/// Whether a comment runs to the end of its line or stands between marks.
#[derive(Clone, Copy, Debug, PartialEq, Eq, Structural)]
pub enum CommentKind {
    Line,
    Block,
}

/// A comment of the source text.
#[derive(Debug, PartialEq, Eq)]
pub struct Comment {
    pub kind: CommentKind,
    pub span: Span,
    /// The text between the comment marks.
    pub text: String,
}

/// The value of [`Comment`] that contracts speak of.
#[verifier::ext_equal]
pub ghost struct CommentView {
    pub kind: CommentKind,
    pub span: Span,
    pub text: Seq<char>,
}

impl Comment {
    /// The value that `self` stands for.
    pub open spec fn model(self) -> CommentView {
        CommentView {
            kind: self.kind,
            span: self.span,
            text: self.text@,
        }
    }

    /// The values that the items of `v` stand for, in order.
    pub open spec fn models(v: Seq<Comment>) -> Seq<CommentView> {
        Seq::new(v.len(), |i: int| v[i].model())
    }

    /// A copy of every item of `v`, in order.
    pub fn clone_all(v: &Vec<Comment>) -> (r: Vec<Comment>)
        ensures
            Comment::models(r@) == Comment::models(v@),
    {
        let mut r: Vec<Comment> = Vec::new();
        let mut i: usize = 0;
        while i < v.len()
            invariant
                i <= v.len(),
                r.len() == i,
                forall|j: int| 0 <= j < i ==> r[j]@ == v[j]@,
            decreases v.len() - i,
        {
            r.push(v[i].clone());
            i += 1;
        }
        r
    }
}

impl View for Comment {
    type V = CommentView;

    open spec fn view(&self) -> CommentView {
        self.model()
    }
}

impl DeepView for Comment {
    type V = CommentView;

    open spec fn deep_view(&self) -> CommentView {
        self.model()
    }
}

impl Clone for Comment {
    fn clone(&self) -> (r: Self)
        ensures
            r@ == self@,
    {
        Comment {
            kind: self.kind,
            span: self.span,
            text: self.text.clone(),
        }
    }
}

/// `swc_common::comments::SingleThreadedComments`, the registry of comments.
///
/// Trusted: nothing but that the type exists. Verus sees no field of it.
#[verifier::external_type_specification]
#[verifier::external_body]
pub struct ExSingleThreadedComments(swc_common::comments::SingleThreadedComments);

/// `swc_common::Globals`, which holds the counter that positions are taken from.
///
/// Trusted: nothing but that the type exists. Verus sees no field of it.
#[verifier::external_type_specification]
#[verifier::external_body]
pub struct ExGlobals(swc_common::Globals);

/// The leading comments that a registry holds: for every position that has an entry, the
/// comments that stand before it, in order.
///
/// Trusted: this is a name for what is inside the registry. All that is known of it is what
/// [`new_registry`], [`get_leading`] and [`add_leading_comments`] say.
pub uninterp spec fn leading_comments(
    registry: swc_common::comments::SingleThreadedComments,
) -> Map<u32, Seq<CommentView>>;

/// A registry of comments that this crate alone can reach.
///
/// The field is private and the type has no `Clone`: the registry inside was made by
/// [`Registry::new`], has no second handle, and no borrow of its maps is alive.
pub struct Registry {
    inner: swc_common::comments::SingleThreadedComments,
}

impl View for Registry {
    type V = Map<u32, Seq<CommentView>>;

    /// The leading comments that the registry holds, by position.
    closed spec fn view(&self) -> Map<u32, Seq<CommentView>> {
        leading_comments(self.inner)
    }
}

/// What a registry holds that holds no comment.
pub open spec fn no_comments() -> Map<u32, Seq<CommentView>> {
    Map::empty()
}

/// The comments before `pos`; none where the position has no entry.
pub open spec fn comments_at(held: Map<u32, Seq<CommentView>>, pos: u32) -> Seq<CommentView> {
    if held.dom().contains(pos) {
        held[pos]
    } else {
        Seq::empty()
    }
}

/// What a lookup at `pos` gives: the entry, or nothing where there is none.
pub open spec fn lookup(held: Map<u32, Seq<CommentView>>, pos: u32) -> Option<Seq<CommentView>> {
    if held.dom().contains(pos) {
        Some(held[pos])
    } else {
        None
    }
}

/// The registry's contents after `added` was put behind what stood before `pos`.
pub open spec fn with_added(
    held: Map<u32, Seq<CommentView>>,
    pos: u32,
    added: Seq<CommentView>,
) -> Map<u32, Seq<CommentView>> {
    held.insert(pos, comments_at(held, pos) + added)
}

/// The registry's contents after the comments of a declaration were put before `pos`: a
/// declaration without comments leaves the registry as it is.
pub open spec fn with_attached(
    held: Map<u32, Seq<CommentView>>,
    pos: u32,
    comments: Option<Seq<CommentView>>,
) -> Map<u32, Seq<CommentView>> {
    match comments {
        Some(added) => with_added(held, pos, added),
        None => held,
    }
}

/// The comments of a declaration, as contracts speak of them.
pub open spec fn spec_found(found: Option<Vec<Comment>>) -> Option<Seq<CommentView>> {
    match found {
        Some(v) => Some(Comment::models(v@)),
        None => None,
    }
}

/// `SingleThreadedComments::default`.
///
/// Trusted: the new registry holds no leading comment.
#[verifier::external_body]
fn new_registry() -> (r: swc_common::comments::SingleThreadedComments)
    ensures
        leading_comments(r) == no_comments(),
{
    swc_common::comments::SingleThreadedComments::default()
}

/// `Comments::get_leading` on the `SingleThreadedComments` inside a [`Registry`].
///
/// Trusted: where the registry has an entry for `pos`, the result is a copy of its comments,
/// in order; where it has none, the result is `None`.
#[verifier::external_body]
pub(crate) fn get_leading(registry: &Registry, pos: u32) -> (r: Option<Vec<Comment>>)
    ensures
        r is Some <==> registry@.dom().contains(pos),
        r matches Some(found) ==> Comment::models(found@) == registry@[pos],
{
    let pos = swc_common::BytePos(pos);
    let found = swc_common::comments::Comments::get_leading(&registry.inner, pos)?;
    Some(found.into_iter().map(|c| Comment {
        kind: match c.kind {
            swc_common::comments::CommentKind::Line => CommentKind::Line,
            swc_common::comments::CommentKind::Block => CommentKind::Block,
        },
        span: Span { lo: c.span.lo.0, hi: c.span.hi.0 },
        text: c.text.to_string(),
    }).collect())
}

/// `Comments::add_leading_comments` on the `SingleThreadedComments` inside a [`Registry`].
///
/// Trusted: the entry for `pos` is what it was, or empty where there was none, followed by
/// `comments` in order, and no other entry changes. An entry is made even where `comments`
/// is empty.
#[verifier::external_body]
pub(crate) fn add_leading_comments(registry: &mut Registry, pos: u32, comments: Vec<Comment>)
    ensures
        final(registry)@ == with_added(old(registry)@, pos, Comment::models(comments@)),
{
    let converted = comments.into_iter().map(|c| swc_common::comments::Comment {
        kind: match c.kind {
            CommentKind::Line => swc_common::comments::CommentKind::Line,
            CommentKind::Block => swc_common::comments::CommentKind::Block,
        },
        span: swc_common::Span {
            lo: swc_common::BytePos(c.span.lo),
            hi: swc_common::BytePos(c.span.hi),
            ctxt: swc_common::SyntaxContext::empty(),
        },
        text: swc_atoms::Atom::from(c.text),
    }).collect();
    let pos = swc_common::BytePos(pos);
    swc_common::comments::Comments::add_leading_comments(&registry.inner, pos, converted);
}

/// `Span::dummy_with_cmt`, with `globals` in place for the call.
///
/// Trusted: the call returns. The position comes from a counter inside `globals`, which
/// every call moves on, so nothing is claimed of the result.
#[verifier::external_body]
pub(crate) fn dummy_with_cmt(globals: &swc_common::Globals) -> (pos: u32) {
    swc_common::GLOBALS.set(globals, || swc_common::Span::dummy_with_cmt()).lo.0
}

impl Registry {
    /// A registry that holds no comment.
    pub fn new() -> (r: Registry)
        ensures
            r@ == no_comments(),
    {
        Registry { inner: new_registry() }
    }

    /// A copy of the comments that stand before `pos`, if the registry has an entry there.
    pub fn get_leading(&self, pos: u32) -> (r: Option<Vec<Comment>>)
        ensures
            spec_found(r) == lookup(self@, pos),
    {
        get_leading(self, pos)
    }

    /// Puts `comments` behind what stands before `pos`.
    pub fn add_leading_comments(&mut self, pos: u32, comments: Vec<Comment>)
        ensures
            final(self)@ == with_added(old(self)@, pos, Comment::models(comments@)),
    {
        add_leading_comments(self, pos, comments)
    }

    /// Hands the registry out, for the printer. Nothing of this crate can reach it after
    /// that.
    pub fn into_inner(self) -> (r: swc_common::comments::SingleThreadedComments)
        ensures
            leading_comments(r) == self@,
    {
        self.inner
    }
}

/// Puts a copy of the comments of a declaration before `pos`.
pub fn attach(registry: &mut Registry, pos: u32, comments: &Option<Vec<Comment>>)
    ensures
        final(registry)@ == with_attached(old(registry)@, pos, spec_found(*comments)),
{
    match comments {
        Some(found) => add_leading_comments(registry, pos, Comment::clone_all(found)),
        None => {},
    }
}

} // verus!

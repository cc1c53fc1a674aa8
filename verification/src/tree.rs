//! Assembly of the flat, time-ordered rows of one thread into its two-level
//! tree: every root comment, each with its direct replies.

use crate::models::{Comment, CommentChild, CommentChildView, CommentOutput, CommentOutputView, CommentView};
use std::collections::HashMap;
use vstd::prelude::*;

verus! {

broadcast use vstd::std_specs::hash::group_hash_axioms;

/// The rows without a parent: the roots of a thread.
pub open spec fn is_root() -> spec_fn(CommentView) -> bool {
    |c: CommentView| c.parent is None
}

/// The rows that name `id` as their parent.
pub open spec fn replies_to(id: i64) -> spec_fn(CommentView) -> bool {
    |c: CommentView| c.parent == Some(id)
}

/// A row reduced to what is listed of a reply.
pub open spec fn as_child(c: CommentView) -> CommentChildView {
    CommentChildView {
        id: c.id,
        content: c.content,
        writer: c.writer,
        user_uuid: c.user_uuid,
        created_at: c.created_at,
        deleted: c.deleted,
    }
}

/// A row as a root that carries the replies `children`.
pub open spec fn as_root(c: CommentView, children: Seq<CommentChildView>) -> CommentOutputView {
    CommentOutputView {
        id: c.id,
        content: c.content,
        writer: c.writer,
        user_uuid: c.user_uuid,
        created_at: c.created_at,
        deleted: c.deleted,
        children,
    }
}

/// The replies to `id` among `rows`, in the order of `rows`.
pub open spec fn children_of(rows: Seq<CommentView>, id: i64) -> Seq<CommentChildView> {
    rows.filter(replies_to(id)).map_values(|c: CommentView| as_child(c))
}

/// The two-level tree of `rows`: the roots in the order of `rows`, each with
/// the rows that reply to it. A row that replies to anything but a root is in
/// no part of the tree.
pub open spec fn thread_of(rows: Seq<CommentView>) -> Seq<CommentOutputView> {
    rows.filter(is_root()).map_values(|c: CommentView| as_root(c, children_of(rows, c.id)))
}

/// A root as it stands after the first pass, before replies are attached.
spec fn bare_root(c: CommentView) -> CommentOutputView {
    as_root(c, Seq::empty())
}

/// The second pass on one root: attach the replies found for its id.
spec fn with_children(rows: Seq<CommentView>, r: CommentOutputView) -> CommentOutputView {
    CommentOutputView { children: children_of(rows, r.id), ..r }
}

fn child_record(c: Comment) -> (child: CommentChild)
    ensures
        child@ == as_child(c@),
{
    CommentChild {
        id: c.id,
        content: c.content,
        writer: c.writer,
        user_uuid: c.user_uuid,
        created_at: c.created_at,
        deleted: c.deleted,
    }
}

fn root_record(c: Comment) -> (root: CommentOutput)
    ensures
        root@ == bare_root(c@),
{
    let root = CommentOutput {
        id: c.id,
        content: c.content,
        writer: c.writer,
        user_uuid: c.user_uuid,
        created_at: c.created_at,
        deleted: c.deleted,
        children: Vec::new(),
    };
    assert(root.children.deep_view() =~= Seq::empty());
    root
}

proof fn lemma_children_step(seen: Seq<CommentView>, c: CommentView, id: i64)
    ensures
        children_of(seen.push(c), id) == if c.parent == Some(id) {
            children_of(seen, id).push(as_child(c))
        } else {
            children_of(seen, id)
        },
{
    seen.lemma_filter_push(c, replies_to(id));
    if c.parent == Some(id) {
        assert(children_of(seen.push(c), id) =~= children_of(seen, id).push(as_child(c)));
    }
}

proof fn lemma_roots_step(seen: Seq<CommentView>, c: CommentView)
    ensures
        seen.push(c).filter(is_root()).map_values(|r: CommentView| bare_root(r)) == if c.parent is None {
            seen.filter(is_root()).map_values(|r: CommentView| bare_root(r)).push(bare_root(c))
        } else {
            seen.filter(is_root()).map_values(|r: CommentView| bare_root(r))
        },
{
    seen.lemma_filter_push(c, is_root());
    if c.parent is None {
        assert(seen.push(c).filter(is_root()).map_values(|r: CommentView| bare_root(r))
            =~= seen.filter(is_root()).map_values(|r: CommentView| bare_root(r)).push(bare_root(c)));
    }
}

/// Builds the tree of one thread from its rows.
///
/// One pass sorts the rows into roots and, keyed by parent id, replies; a
/// second pass hands every root the replies found under its own id. Replies
/// to a reply, and replies to an id that no root has, are dropped.
pub fn assemble_tree(rows: Vec<Comment>) -> (tree: Vec<CommentOutput>)
    ensures
        tree.deep_view() == thread_of(rows.deep_view()),
{
    let ghost all = rows.deep_view();
    let mut roots: Vec<CommentOutput> = Vec::new();
    let mut children_map: HashMap<i64, Vec<CommentChild>> = HashMap::new();
    assert(roots.deep_view() =~= Seq::<CommentView>::empty().filter(is_root()).map_values(|r: CommentView| bare_root(r))) by {
        reveal(Seq::filter);
    }
    assert forall|k: i64| children_of(Seq::<CommentView>::empty(), k) == Seq::<CommentChildView>::empty() by {
        reveal(Seq::filter);
        assert(children_of(Seq::<CommentView>::empty(), k) =~= Seq::<CommentChildView>::empty());
    }
    assert(all.take(0) =~= Seq::<CommentView>::empty());

    for c in it: rows
        invariant
            all == rows.deep_view(),
            it.seq() == rows@,
            roots.deep_view() == all.take(it.index()).filter(is_root()).map_values(|r: CommentView| bare_root(r)),
            forall|k: i64| children_map@.contains_key(k) ==> (#[trigger] children_map@[k]).deep_view() == children_of(all.take(it.index()), k),
            forall|k: i64| !children_map@.contains_key(k) ==> #[trigger] children_of(all.take(it.index()), k) == Seq::<CommentChildView>::empty(),
    {
        let ghost i = it.index();
        let ghost seen = all.take(i);
        let ghost cv = c@;
        proof {
            assert(cv == all[i]);
            assert(all.take(i + 1) =~= seen.push(cv));
            lemma_roots_step(seen, cv);
            assert forall|k: i64| children_of(seen.push(cv), k) == if cv.parent == Some(k) {
                children_of(seen, k).push(as_child(cv))
            } else {
                children_of(seen, k)
            } by {
                lemma_children_step(seen, cv, k);
            }
        }
        match c.parent {
            Some(parent_id) => {
                let child = child_record(c);
                let siblings = children_map.entry(parent_id).or_insert(Vec::new());
                assert(siblings.deep_view() =~= children_of(seen, parent_id));
                siblings.push(child);
                assert(siblings.deep_view() =~= children_of(seen, parent_id).push(as_child(cv)));
            },
            None => {
                let root = root_record(c);
                let ghost before = roots.deep_view();
                roots.push(root);
                assert(roots.deep_view() =~= before.push(bare_root(cv)));
            },
        }
    }
    assert(all.take(rows@.len() as int) =~= all);

    let ghost staged = roots.deep_view();
    let mut tree: Vec<CommentOutput> = Vec::new();
    assert(tree.deep_view() =~= staged.take(0).map_values(|r: CommentOutputView| with_children(all, r)));
    for root in it: roots
        invariant
            staged == roots.deep_view(),
            it.seq() == roots@,
            tree.deep_view() == staged.take(it.index()).map_values(|r: CommentOutputView| with_children(all, r)),
            forall|k: i64| children_map@.contains_key(k) ==> (#[trigger] children_map@[k]).deep_view() == children_of(all, k),
            forall|k: i64| !children_map@.contains_key(k) ==> #[trigger] children_of(all, k) == Seq::<CommentChildView>::empty(),
    {
        let ghost j = it.index();
        let ghost rv = root@;
        let ghost before = tree.deep_view();
        let children = match children_map.get(&root.id) {
            Some(list) => {
                let copy = list.clone();
                assert(copy.deep_view() =~= list.deep_view());
                copy
            },
            None => Vec::new(),
        };
        assert(children.deep_view() =~= children_of(all, root.id));
        let filled = CommentOutput {
            id: root.id,
            content: root.content,
            writer: root.writer,
            user_uuid: root.user_uuid,
            created_at: root.created_at,
            deleted: root.deleted,
            children,
        };
        assert(filled@ == with_children(all, rv));
        tree.push(filled);
        assert(tree.deep_view() =~= before.push(with_children(all, rv)));
        assert(staged.take(j + 1) =~= staged.take(j).push(rv));
        assert(tree.deep_view() =~= staged.take(j + 1).map_values(|r: CommentOutputView| with_children(all, r)));
    }
    assert(staged.take(roots@.len() as int) =~= staged);
    assert(tree.deep_view() =~= thread_of(all));
    tree
}

} // verus!

//! What holds of every thread that is assembled from rows: who is listed,
//! where, and in which order.

use crate::models::{CommentChildView, CommentOutputView, CommentView};
use crate::tree::{as_child, as_root, children_of, is_root, replies_to, thread_of};
use vstd::prelude::*;

verus! {

/// The order in which the store sorts text: character by character, a
/// proper prefix before what extends it. Creation times are compared so.
pub open spec fn text_le(a: Seq<char>, b: Seq<char>) -> bool
    decreases a.len(),
{
    if a.len() == 0 {
        true
    } else if b.len() == 0 {
        false
    } else if a[0] != b[0] {
        a[0] < b[0]
    } else {
        text_le(a.drop_first(), b.drop_first())
    }
}

/// The rows stand oldest first: no row is created before one ahead of it.
pub open spec fn oldest_first(rows: Seq<CommentView>) -> bool {
    forall|i: int, j: int|
        0 <= i <= j < rows.len() ==> text_le(#[trigger] rows[i].created_at, #[trigger] rows[j].created_at)
}

/// The replies stand oldest first.
pub open spec fn replies_oldest_first(replies: Seq<CommentChildView>) -> bool {
    forall|i: int, j: int|
        0 <= i <= j < replies.len() ==> text_le(
            #[trigger] replies[i].created_at,
            #[trigger] replies[j].created_at,
        )
}

/// The roots stand oldest first, and so do the replies under each of them.
pub open spec fn thread_oldest_first(tree: Seq<CommentOutputView>) -> bool {
    &&& forall|i: int, j: int|
        0 <= i <= j < tree.len() ==> text_le(#[trigger] tree[i].created_at, #[trigger] tree[j].created_at)
    &&& forall|r: int| 0 <= r < tree.len() ==> replies_oldest_first(#[trigger] tree[r].children)
}

/// No two rows share an id.
pub open spec fn distinct_ids(rows: Seq<CommentView>) -> bool {
    forall|i: int, j: int| 0 <= i < j < rows.len() ==> #[trigger] rows[i].id != #[trigger] rows[j].id
}

/// Two places of a filtered sequence come from two places of the sequence
/// that stand in the same order.
proof fn lemma_filter_keeps_order<A>(s: Seq<A>, pred: spec_fn(A) -> bool, i: int, j: int)
    requires
        0 <= i <= j < s.filter(pred).len(),
    ensures
        exists|a: int, b: int|
            0 <= a <= b < s.len() && #[trigger] s[a] == s.filter(pred)[i] && #[trigger] s[b] == s.filter(pred)[j],
    decreases s.len(),
{
    reveal(Seq::filter);
    if s.len() > 0 {
        let init = s.drop_last();
        let kept = init.filter(pred);
        let last = s.len() - 1;
        if j < kept.len() {
            lemma_filter_keeps_order(init, pred, i, j);
            let (a, b) = choose|a: int, b: int|
                0 <= a <= b < init.len() && #[trigger] init[a] == kept[i] && #[trigger] init[b] == kept[j];
            assert(s[a] == s.filter(pred)[i] && s[b] == s.filter(pred)[j]);
        } else if i < kept.len() {
            lemma_filter_keeps_order(init, pred, i, i);
            let (a, b) = choose|a: int, b: int|
                0 <= a <= b < init.len() && #[trigger] init[a] == kept[i] && #[trigger] init[b] == kept[i];
            assert(s[a] == s.filter(pred)[i] && s[last] == s.filter(pred)[j]);
        } else {
            assert(s[last] == s.filter(pred)[i] && s[last] == s.filter(pred)[j]);
        }
    }
}

/// Every place of a filtered sequence holds an element of the sequence
/// that the filter accepts.
proof fn lemma_filter_source<A>(s: Seq<A>, pred: spec_fn(A) -> bool, i: int)
    requires
        0 <= i < s.filter(pred).len(),
    ensures
        exists|a: int| 0 <= a < s.len() && #[trigger] s[a] == s.filter(pred)[i] && pred(s[a]),
{
    lemma_filter_keeps_order(s, pred, i, i);
    let (a, b) = choose|a: int, b: int|
        0 <= a <= b < s.len() && #[trigger] s[a] == s.filter(pred)[i] && #[trigger] s[b] == s.filter(pred)[i];
    s.lemma_filter_pred(pred, i);
    assert(s[a] == s.filter(pred)[i] && pred(s[a]));
}

/// Rows that the store lists oldest first are assembled into a tree whose
/// roots stand oldest first, as do the replies under every root.
pub proof fn lemma_thread_keeps_time_order(rows: Seq<CommentView>)
    requires
        oldest_first(rows),
    ensures
        thread_oldest_first(thread_of(rows)),
{
    let tree = thread_of(rows);
    let roots = rows.filter(is_root());
    assert forall|i: int, j: int| 0 <= i <= j < tree.len() implies text_le(
        #[trigger] tree[i].created_at,
        #[trigger] tree[j].created_at,
    ) by {
        lemma_filter_keeps_order(rows, is_root(), i, j);
        let (a, b) = choose|a: int, b: int|
            0 <= a <= b < rows.len() && #[trigger] rows[a] == roots[i] && #[trigger] rows[b] == roots[j];
        assert(text_le(rows[a].created_at, rows[b].created_at));
    }
    assert forall|r: int| 0 <= r < tree.len() implies replies_oldest_first(#[trigger] tree[r].children) by {
        let id = roots[r].id;
        let replies = rows.filter(replies_to(id));
        assert(tree[r].children == children_of(rows, id));
        assert forall|i: int, j: int| 0 <= i <= j < tree[r].children.len() implies text_le(
            #[trigger] tree[r].children[i].created_at,
            #[trigger] tree[r].children[j].created_at,
        ) by {
            lemma_filter_keeps_order(rows, replies_to(id), i, j);
            let (a, b) = choose|a: int, b: int|
                0 <= a <= b < rows.len() && #[trigger] rows[a] == replies[i] && #[trigger] rows[b] == replies[j];
            assert(text_le(rows[a].created_at, rows[b].created_at));
        }
    }
}

/// A row without a parent is listed as a root, with the replies to its id.
pub proof fn lemma_root_is_listed(rows: Seq<CommentView>, i: int)
    requires
        0 <= i < rows.len(),
        rows[i].parent is None,
    ensures
        thread_of(rows).contains(as_root(rows[i], children_of(rows, rows[i].id))),
{
    let roots = rows.filter(is_root());
    rows.lemma_filter_contains(is_root(), i);
    let k = choose|k: int| 0 <= k < roots.len() && roots[k] == rows[i];
    assert(thread_of(rows)[k] == as_root(rows[i], children_of(rows, rows[i].id)));
}

/// A row whose parent is the id of a root is listed among that root's
/// replies; where ids are distinct, it is listed as no root.
pub proof fn lemma_reply_is_nested(rows: Seq<CommentView>, r: int, i: int)
    requires
        0 <= r < rows.len(),
        0 <= i < rows.len(),
        rows[r].parent is None,
        rows[i].parent == Some(rows[r].id),
    ensures
        thread_of(rows).contains(as_root(rows[r], children_of(rows, rows[r].id))),
        children_of(rows, rows[r].id).contains(as_child(rows[i])),
        distinct_ids(rows) ==> forall|k: int|
            0 <= k < thread_of(rows).len() ==> (#[trigger] thread_of(rows)[k]).id != rows[i].id,
{
    lemma_root_is_listed(rows, r);
    let id = rows[r].id;
    let replies = rows.filter(replies_to(id));
    rows.lemma_filter_contains(replies_to(id), i);
    let k = choose|k: int| 0 <= k < replies.len() && replies[k] == rows[i];
    assert(children_of(rows, id)[k] == as_child(rows[i]));
    if distinct_ids(rows) {
        lemma_no_root_has_id_of_reply(rows, i);
    }
}

/// Where ids are distinct, no root of the tree has the id of a row that has
/// a parent.
proof fn lemma_no_root_has_id_of_reply(rows: Seq<CommentView>, i: int)
    requires
        0 <= i < rows.len(),
        rows[i].parent is Some,
        distinct_ids(rows),
    ensures
        forall|k: int| 0 <= k < thread_of(rows).len() ==> (#[trigger] thread_of(rows)[k]).id != rows[i].id,
{
    let roots = rows.filter(is_root());
    assert forall|k: int| 0 <= k < thread_of(rows).len() implies (#[trigger] thread_of(rows)[k]).id
        != rows[i].id by {
        lemma_filter_source(rows, is_root(), k);
        let a = choose|a: int| 0 <= a < rows.len() && #[trigger] rows[a] == roots[k] && is_root()(rows[a]);
        assert(a != i);
        assert(rows[a].id != rows[i].id);
    }
}

/// A row whose parent is the id of no root is listed nowhere: it is no
/// root, and no root has it among its replies. Ids are taken to be distinct.
pub proof fn lemma_orphan_is_dropped(rows: Seq<CommentView>, i: int)
    requires
        0 <= i < rows.len(),
        distinct_ids(rows),
        rows[i].parent is Some,
        forall|r: int| 0 <= r < rows.len() && rows[r].parent is None ==> Some(#[trigger] rows[r].id) != rows[i].parent,
    ensures
        forall|k: int| 0 <= k < thread_of(rows).len() ==> (#[trigger] thread_of(rows)[k]).id != rows[i].id,
        forall|k: int, c: int|
            0 <= k < thread_of(rows).len() && 0 <= c < thread_of(rows)[k].children.len() ==> (
            #[trigger] thread_of(rows)[k].children[c]).id != rows[i].id,
{
    lemma_no_root_has_id_of_reply(rows, i);
    let roots = rows.filter(is_root());
    assert forall|k: int, c: int|
        0 <= k < thread_of(rows).len() && 0 <= c < thread_of(rows)[k].children.len() implies (
    #[trigger] thread_of(rows)[k].children[c]).id != rows[i].id by {
        lemma_filter_source(rows, is_root(), k);
        let a = choose|a: int| 0 <= a < rows.len() && #[trigger] rows[a] == roots[k] && is_root()(rows[a]);
        let id = roots[k].id;
        let replies = rows.filter(replies_to(id));
        assert(thread_of(rows)[k].children == children_of(rows, id));
        lemma_filter_source(rows, replies_to(id), c);
        let b = choose|b: int| 0 <= b < rows.len() && #[trigger] rows[b] == replies[c] && replies_to(id)(rows[b]);
        assert(thread_of(rows)[k].children[c] == as_child(rows[b]));
        if rows[b].id == rows[i].id {
            assert(b == i);
            assert(Some(rows[a].id) == rows[i].parent);
        }
    }
}

/// A reply to a reply is listed nowhere: it is no root, and no root has it
/// among its replies. Ids are taken to be distinct.
pub proof fn lemma_reply_to_reply_is_dropped(rows: Seq<CommentView>, c: int, i: int)
    requires
        0 <= c < rows.len(),
        0 <= i < rows.len(),
        distinct_ids(rows),
        rows[c].parent is Some,
        rows[i].parent == Some(rows[c].id),
    ensures
        forall|k: int| 0 <= k < thread_of(rows).len() ==> (#[trigger] thread_of(rows)[k]).id != rows[i].id,
        forall|k: int, n: int|
            0 <= k < thread_of(rows).len() && 0 <= n < thread_of(rows)[k].children.len() ==> (
            #[trigger] thread_of(rows)[k].children[n]).id != rows[i].id,
{
    assert forall|r: int| 0 <= r < rows.len() && rows[r].parent is None implies Some(#[trigger] rows[r].id)
        != rows[i].parent by {
        if rows[r].id == rows[c].id {
            assert(r == c);
        }
    }
    lemma_orphan_is_dropped(rows, i);
}

/// A thread without rows is an empty tree.
pub proof fn lemma_empty_thread()
    ensures
        thread_of(Seq::<CommentView>::empty()) == Seq::<CommentOutputView>::empty(),
{
    reveal(Seq::filter);
    assert(thread_of(Seq::<CommentView>::empty()) =~= Seq::<CommentOutputView>::empty());
}

} // verus!

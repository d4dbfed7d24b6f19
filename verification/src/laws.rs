//! Laws of the store's model: what the operations promise callers beyond
//! their own postconditions, each proved once and for all over the model.

use vstd::prelude::*;
use vstd::seq_lib::group_seq_properties;
use crate::task::TaskView;
use crate::model::{
    ids_unique, has_id, updated_task, update_model, delete_model, fresh_id,
};

verus! {

/// A freshly created task is what a listing shows first: appending a task
/// and reading the store most-recent-first yields that task at the head,
/// above everything stored before, one longer than before.
pub proof fn lemma_create_then_list(s: Seq<TaskView>, t: TaskView)
    ensures
        s.push(t).reverse().len() == s.len() + 1,
        s.push(t).reverse()[0] == t,
        forall|k: int| 0 <= k < s.len() ==> s.push(t).reverse()[k + 1] == s.reverse()[k],
{
}

/// Creation never collides: a fresh id differs from every stored id, so a
/// store with pairwise-distinct ids keeps them distinct through a create.
/// Any number of creates in a row — in particular concurrent callers,
/// serialized by the lock around the store — therefore receive pairwise
/// distinct ids, and every one of their tasks is in the final store.
pub proof fn lemma_create_keeps_ids_unique(s: Seq<TaskView>, t: TaskView)
    requires
        ids_unique(s),
        fresh_id(s, t.id),
    ensures
        ids_unique(s.push(t)),
        !has_id(s, t.id),
{
    let p = s.push(t);
    assert forall|i: int, j: int| 0 <= i < j < p.len() implies p[i].id != p[j].id by {
        if j < s.len() {
            assert(s[i].id != s[j].id);
        } else {
            assert(s[i].id < t.id);
        }
    }
}

/// An update overwrites exactly the targeted task: in a store with
/// pairwise-distinct ids, the row whose id matches gets the new name,
/// estimate, completed count, completion flag and priority while keeping
/// its id and notes, and every other row — and the order of all of them —
/// is untouched.
pub proof fn lemma_update_overwrites(
    s: Seq<TaskView>,
    i: int,
    name: Seq<char>,
    estimated: int,
    completed: int,
    complete: bool,
    priority: Seq<char>,
)
    requires
        ids_unique(s),
        0 <= i < s.len(),
    ensures
        update_model(s, s[i].id, name, estimated, completed, complete, priority).len() == s.len(),
        update_model(s, s[i].id, name, estimated, completed, complete, priority)[i]
            == updated_task(s[i], name, estimated, completed, complete, priority),
        forall|j: int| 0 <= j < s.len() && j != i
            ==> update_model(s, s[i].id, name, estimated, completed, complete, priority)[j]
                == s[j],
{
}

/// Updating an id that no row carries changes nothing: no row is rewritten
/// and no row appears.
pub proof fn lemma_update_missing(
    s: Seq<TaskView>,
    id: int,
    name: Seq<char>,
    estimated: int,
    completed: int,
    complete: bool,
    priority: Seq<char>,
)
    requires
        !has_id(s, id),
    ensures
        update_model(s, id, name, estimated, completed, complete, priority) == s,
{
    assert(update_model(s, id, name, estimated, completed, complete, priority) =~= s);
}

/// An update never changes any id: every row keeps the id it had, so
/// pairwise-distinct ids stay distinct.
pub proof fn lemma_update_keeps_ids_unique(
    s: Seq<TaskView>,
    id: int,
    name: Seq<char>,
    estimated: int,
    completed: int,
    complete: bool,
    priority: Seq<char>,
)
    requires
        ids_unique(s),
    ensures
        forall|j: int| 0 <= j < s.len()
            ==> #[trigger] update_model(s, id, name, estimated, completed, complete,
                priority)[j].id == s[j].id,
        ids_unique(update_model(s, id, name, estimated, completed, complete, priority)),
{
    let u = update_model(s, id, name, estimated, completed, complete, priority);
    assert forall|i: int, j: int| 0 <= i < j < u.len() implies u[i].id != u[j].id by {
        assert(u[i].id == s[i].id);
        assert(u[j].id == s[j].id);
    }
}

/// A delete removes every row with the given id: no task with that id
/// remains afterwards, however many times it occurred.
pub proof fn lemma_delete_removes(s: Seq<TaskView>, id: int)
    ensures
        !has_id(delete_model(s, id), id),
{
    let d = delete_model(s, id);
    assert forall|k: int| 0 <= k < d.len() implies d[k].id != id by {
        s.lemma_filter_pred(|t: TaskView| t.id != id, k);
    }
}

/// Deleting an id that no row carries changes nothing, so a second delete of
/// the same id is a no-op.
pub proof fn lemma_delete_missing(s: Seq<TaskView>, id: int)
    requires
        !has_id(s, id),
    ensures
        delete_model(s, id) == s,
    decreases s.len(),
{
    reveal(Seq::filter);
    if s.len() > 0 {
        let d = s.drop_last();
        assert(!has_id(d, id)) by {
            assert(forall|i: int| 0 <= i < d.len() ==> d[i] == s[i]);
        }
        lemma_delete_missing(d, id);
        assert(delete_model(s, id) =~= s);
    }
}

/// Deleting twice is the same as deleting once.
pub proof fn lemma_delete_idempotent(s: Seq<TaskView>, id: int)
    ensures
        delete_model(delete_model(s, id), id) == delete_model(s, id),
{
    lemma_delete_removes(s, id);
    lemma_delete_missing(delete_model(s, id), id);
}

/// A delete never introduces a duplicate id: the surviving rows keep their
/// order, and each one stood in the store before.
pub proof fn lemma_delete_keeps_ids_unique(s: Seq<TaskView>, id: int)
    requires
        ids_unique(s),
    ensures
        ids_unique(delete_model(s, id)),
    decreases s.len(),
{
    broadcast use group_seq_properties;

    reveal(Seq::filter);
    let pred = |t: TaskView| t.id != id;
    if s.len() > 0 {
        let d = s.drop_last();
        let last = s.last();
        assert(ids_unique(d)) by {
            assert(forall|i: int| 0 <= i < d.len() ==> d[i] == s[i]);
        }
        lemma_delete_keeps_ids_unique(d, id);
        if pred(last) {
            let f = d.filter(pred);
            assert forall|k: int| 0 <= k < f.len() implies f[k].id != last.id by {
                assert(f.contains(f[k]));
                d.lemma_filter_contains_rev(pred, f[k]);
                let i = choose|i: int| 0 <= i < d.len() && d[i] == f[k];
                assert(s[i] == d[i]);
                assert(s[i].id != s[s.len() - 1].id);
            }
            assert(delete_model(s, id) == f.push(last));
        }
    }
}

/// A delete introduces no id: every surviving row already stood in the
/// store, so a bound on the stored ids — the high watermark — survives.
pub proof fn lemma_delete_keeps_ids_bounded(s: Seq<TaskView>, id: int, bound: int)
    requires
        forall|i: int| 0 <= i < s.len() ==> s[i].id <= bound,
    ensures
        forall|k: int| 0 <= k < delete_model(s, id).len()
            ==> delete_model(s, id)[k].id <= bound,
{
    let pred = |t: TaskView| t.id != id;
    let d = delete_model(s, id);
    assert forall|k: int| 0 <= k < d.len() implies d[k].id <= bound by {
        assert(d.contains(d[k]));
        s.lemma_filter_contains_rev(pred, d[k]);
        let i = choose|i: int| 0 <= i < s.len() && s[i] == d[k];
        assert(s[i].id <= bound);
    }
}

/// Any number of creates in a row loses nothing and collides on nothing:
/// starting from a store with pairwise-distinct ids, if each new task's id
/// is fresh for the store as it stands at that task's turn — which every
/// successful create guarantees — then afterwards every old row and every
/// new task is stored, in order, and ids are still pairwise distinct. This
/// is the serialized heart of concurrent creation; the exclusive lock that
/// serializes the callers stands outside the store.
pub proof fn lemma_serialized_creates(s: Seq<TaskView>, ts: Seq<TaskView>)
    requires
        ids_unique(s),
        forall|k: int| 0 <= k < ts.len() ==> #[trigger] fresh_id(s + ts.take(k), ts[k].id),
    ensures
        ids_unique(s + ts),
        (s + ts).len() == s.len() + ts.len(),
        forall|i: int| 0 <= i < s.len() ==> (s + ts)[i] == s[i],
        forall|k: int| 0 <= k < ts.len() ==> (s + ts)[s.len() + k] == ts[k],
    decreases ts.len(),
{
    if ts.len() == 0 {
        assert(s + ts =~= s);
    } else {
        let front = ts.drop_last();
        let last = ts.last();
        assert forall|k: int| 0 <= k < front.len()
            implies #[trigger] fresh_id(s + front.take(k), front[k].id) by {
            assert(front.take(k) =~= ts.take(k));
            assert(fresh_id(s + ts.take(k), ts[k].id));
        }
        lemma_serialized_creates(s, front);
        assert(ts.take(ts.len() - 1) =~= front);
        assert(fresh_id(s + front, last.id));
        lemma_create_keeps_ids_unique(s + front, last);
        assert(s + ts =~= (s + front).push(last));
    }
}

} // verus!

use vstd::prelude::*;
use crate::model::{Timestamp, TodoView, UpdateTodoView, created, patched};
use crate::store::{
    after_create, create_succeeds, find_id, has_id, has_title, ids_unique, lemma_find_id_at,
    lemma_find_id_none,
};

verus! {

/// The collection after a run of creates on `s`, in the order given: the
/// `k`-th create submits `bodies[k]`, draws the id `ids[k]` and the time
/// `times[k]`. This is the order in which the lock let the requests in.
pub open spec fn create_all(
    s: Seq<TodoView>,
    bodies: Seq<TodoView>,
    ids: Seq<Seq<char>>,
    times: Seq<Timestamp>,
) -> Seq<TodoView>
    decreases bodies.len(),
{
    if bodies.len() == 0 {
        s
    } else {
        let k = bodies.len() - 1;
        after_create(create_all(s, bodies.drop_last(), ids.drop_last(), times.drop_last()), bodies[k], ids[k], times[k])
    }
}

/// A create whose title a stored record already has fails and leaves the
/// collection as it was.
pub proof fn law_duplicate_title_conflicts(s: Seq<TodoView>, body: TodoView, id: Seq<char>, now: Timestamp)
    requires
        has_title(s, body.title),
    ensures
        !create_succeeds(s, body.title, id),
        after_create(s, body, id, now) == s,
{
}

/// After a create that goes through, looking up its id gives the created
/// record.
pub proof fn law_get_after_create(s: Seq<TodoView>, body: TodoView, id: Seq<char>, now: Timestamp)
    requires
        create_succeeds(s, body.title, id),
    ensures
        find_id(after_create(s, body, id, now), id) == Some(created(body, id, now)),
{
    let t = after_create(s, body, id, now);
    assert forall|j: int| 0 <= j < s.len() implies (#[trigger] t[j]).id != Some(id) by {
        assert(t[j] == s[j]);
    }
    lemma_find_id_at(t, id, s.len() as int);
}

/// A freshly created record was updated when it was created.
pub proof fn law_created_timestamps_equal(body: TodoView, id: Seq<char>, now: Timestamp)
    ensures
        created(body, id, now).updated_at == created(body, id, now).created_at,
        created(body, id, now).created_at == Some(now),
{
}

/// An update keeps the creation time, and the update time does not go back
/// as long as the clock does not.
pub proof fn law_update_keeps_creation(cur: TodoView, patch: UpdateTodoView, now: Timestamp)
    requires
        cur.updated_at is Some,
        cur.updated_at->0.le(now),
    ensures
        patched(cur, patch, now).created_at == cur.created_at,
        cur.updated_at->0.le(patched(cur, patch, now).updated_at->0),
{
}

/// An update that does not mention `completed` clears it.
pub proof fn law_update_without_completed_clears(cur: TodoView, patch: UpdateTodoView, now: Timestamp)
    requires
        patch.completed is None,
    ensures
        !patched(cur, patch, now).completed,
{
}

/// An update that submits an empty title keeps the current one.
pub proof fn law_empty_title_kept(cur: TodoView, patch: UpdateTodoView, now: Timestamp)
    requires
        patch.title == Some(Seq::<char>::empty()),
    ensures
        patched(cur, patch, now).title == cur.title,
{
}

/// Removing the record that holds `id` shrinks the collection by one, and
/// looking up `id` afterwards finds nothing.
pub proof fn law_get_after_delete(s: Seq<TodoView>, i: int, id: Seq<char>)
    requires
        ids_unique(s),
        0 <= i < s.len(),
        s[i].id == Some(id),
    ensures
        s.remove(i).len() == s.len() - 1,
        !has_id(s.remove(i), id),
        find_id(s.remove(i), id) is None,
{
    let t = s.remove(i);
    assert forall|a: int| 0 <= a < t.len() implies (#[trigger] t[a]).id != Some(id) by {
        if a < i {
            assert(t[a] == s[a]);
        } else {
            assert(t[a] == s[a + 1]);
        }
    }
    lemma_find_id_none(t, id);
}

/// The records that a run of creates with distinct titles and distinct ids
/// leaves on an empty collection.
pub open spec fn all_created(bodies: Seq<TodoView>, ids: Seq<Seq<char>>, times: Seq<Timestamp>) -> Seq<TodoView> {
    Seq::new(bodies.len(), |k: int| created(bodies[k], ids[k], times[k]))
}

pub open spec fn titles_distinct(bodies: Seq<TodoView>) -> bool {
    forall|a: int, b: int| 0 <= a < bodies.len() && 0 <= b < bodies.len() && a != b
        ==> (#[trigger] bodies[a]).title != (#[trigger] bodies[b]).title
}

pub open spec fn ids_distinct(ids: Seq<Seq<char>>) -> bool {
    forall|a: int, b: int| 0 <= a < ids.len() && 0 <= b < ids.len() && a != b
        ==> ids[a] != ids[b]
}

proof fn lemma_create_all_distinct(bodies: Seq<TodoView>, ids: Seq<Seq<char>>, times: Seq<Timestamp>)
    requires
        ids.len() == bodies.len(),
        times.len() == bodies.len(),
        titles_distinct(bodies),
        ids_distinct(ids),
    ensures
        create_all(Seq::empty(), bodies, ids, times) =~= all_created(bodies, ids, times),
    decreases bodies.len(),
{
    if bodies.len() > 0 {
        let n = bodies.len() - 1;
        let (b0, i0, t0) = (bodies.drop_last(), ids.drop_last(), times.drop_last());
        assert(titles_distinct(b0)) by {
            assert forall|a: int, b: int| 0 <= a < b0.len() && 0 <= b < b0.len() && a != b
                implies (#[trigger] b0[a]).title != (#[trigger] b0[b]).title by {
                assert(b0[a] == bodies[a] && b0[b] == bodies[b]);
            }
        }
        assert(ids_distinct(i0)) by {
            assert forall|a: int, b: int| 0 <= a < i0.len() && 0 <= b < i0.len() && a != b
                implies i0[a] != i0[b] by {
                assert(i0[a] == ids[a] && i0[b] == ids[b]);
            }
        }
        lemma_create_all_distinct(b0, i0, t0);
        let prev = create_all(Seq::empty(), b0, i0, t0);
        assert(!has_title(prev, bodies[n].title)) by {
            assert forall|j: int| 0 <= j < prev.len() implies (#[trigger] prev[j]).title != bodies[n].title by {
                assert(prev[j].title == bodies[j].title);
            }
        }
        assert(!has_id(prev, ids[n])) by {
            assert forall|j: int| 0 <= j < prev.len() implies (#[trigger] prev[j]).id != Some(ids[n]) by {
                assert(prev[j].id == Some(ids[j]));
            }
        }
    }
}

/// Creates with pairwise distinct titles and pairwise distinct drawn ids,
/// let in one at a time on an empty collection in any order, all go
/// through: the collection then holds one record per request, and no two of
/// them share an id.
pub proof fn law_distinct_titles_all_created(bodies: Seq<TodoView>, ids: Seq<Seq<char>>, times: Seq<Timestamp>)
    requires
        ids.len() == bodies.len(),
        times.len() == bodies.len(),
        titles_distinct(bodies),
        ids_distinct(ids),
    ensures
        forall|k: int| 0 <= k < bodies.len() ==> #[trigger] create_succeeds(
            create_all(Seq::empty(), bodies.take(k), ids.take(k), times.take(k)),
            bodies[k].title,
            ids[k],
        ),
        create_all(Seq::empty(), bodies, ids, times) == all_created(bodies, ids, times),
        create_all(Seq::empty(), bodies, ids, times).len() == bodies.len(),
        ids_unique(create_all(Seq::empty(), bodies, ids, times)),
{
    lemma_create_all_distinct(bodies, ids, times);
    assert forall|k: int| 0 <= k < bodies.len() implies #[trigger] create_succeeds(
        create_all(Seq::empty(), bodies.take(k), ids.take(k), times.take(k)),
        bodies[k].title,
        ids[k],
    ) by {
        let (bk, ik, tk) = (bodies.take(k), ids.take(k), times.take(k));
        assert(titles_distinct(bk)) by {
            assert forall|a: int, b: int| 0 <= a < bk.len() && 0 <= b < bk.len() && a != b
                implies (#[trigger] bk[a]).title != (#[trigger] bk[b]).title by {
                assert(bk[a] == bodies[a] && bk[b] == bodies[b]);
            }
        }
        assert(ids_distinct(ik)) by {
            assert forall|a: int, b: int| 0 <= a < ik.len() && 0 <= b < ik.len() && a != b
                implies ik[a] != ik[b] by {
                assert(ik[a] == ids[a] && ik[b] == ids[b]);
            }
        }
        lemma_create_all_distinct(bk, ik, tk);
        let prev = create_all(Seq::empty(), bk, ik, tk);
        assert forall|j: int| 0 <= j < prev.len() implies (#[trigger] prev[j]).title != bodies[k].title by {
            assert(prev[j].title == bodies[j].title);
        }
        assert forall|j: int| 0 <= j < prev.len() implies (#[trigger] prev[j]).id != Some(ids[k]) by {
            assert(prev[j].id == Some(ids[j]));
        }
    }
    let fin = create_all(Seq::empty(), bodies, ids, times);
    assert forall|a: int, b: int| 0 <= a < fin.len() && 0 <= b < fin.len() && a != b
        implies (#[trigger] fin[a]).id != (#[trigger] fin[b]).id by {
        assert(fin[a].id == Some(ids[a]) && fin[b].id == Some(ids[b]));
    }
}

/// Creates that all submit the same title, let in one at a time on an empty
/// collection: the first goes through and every later one fails on the
/// title, so the collection ends with exactly one record.
pub proof fn law_same_title_one_created(bodies: Seq<TodoView>, ids: Seq<Seq<char>>, times: Seq<Timestamp>)
    requires
        bodies.len() >= 1,
        ids.len() == bodies.len(),
        times.len() == bodies.len(),
        forall|k: int| 0 <= k < bodies.len() ==> (#[trigger] bodies[k]).title == bodies[0].title,
    ensures
        create_all(Seq::empty(), bodies, ids, times) == seq![created(bodies[0], ids[0], times[0])],
        forall|k: int| 1 <= k < bodies.len() ==> #[trigger] has_title(
            create_all(Seq::empty(), bodies.take(k), ids.take(k), times.take(k)),
            bodies[k].title,
        ),
    decreases bodies.len(),
{
    let n = bodies.len() - 1;
    let (b0, i0, t0) = (bodies.drop_last(), ids.drop_last(), times.drop_last());
    if n == 0 {
        assert(b0.len() == 0);
        let e = Seq::<TodoView>::empty();
        assert(!has_title(e, bodies[0].title));
        assert(!has_id(e, ids[0]));
        assert(create_all(e, b0, i0, t0) == e);
        assert(e.push(created(bodies[0], ids[0], times[0])) =~= seq![created(bodies[0], ids[0], times[0])]);
    } else {
        assert forall|k: int| 0 <= k < b0.len() implies (#[trigger] b0[k]).title == b0[0].title by {
            assert(b0[k] == bodies[k]);
        }
        law_same_title_one_created(b0, i0, t0);
        let prev = create_all(Seq::empty(), b0, i0, t0);
        assert(prev[0].title == bodies[n].title);
        assert(has_title(prev, bodies[n].title));
        assert(create_all(Seq::empty(), bodies, ids, times) == prev);
        assert forall|k: int| 1 <= k < bodies.len() implies #[trigger] has_title(
            create_all(Seq::empty(), bodies.take(k), ids.take(k), times.take(k)),
            bodies[k].title,
        ) by {
            if k < n {
                assert(b0.take(k) =~= bodies.take(k));
                assert(i0.take(k) =~= ids.take(k));
                assert(t0.take(k) =~= times.take(k));
                assert(has_title(create_all(Seq::empty(), b0.take(k), i0.take(k), t0.take(k)), b0[k].title));
            } else {
                assert(b0 =~= bodies.take(k));
                assert(i0 =~= ids.take(k));
                assert(t0 =~= times.take(k));
            }
        }
    }
}

} // verus!

//! TIFF work-queue: a persisted set of file paths, insertion-ordered, with
//! duplicates silently ignored. The operations state exactly how they move
//! the store's queue, in the vocabulary of the model below.

use vstd::prelude::*;

use crate::db::queue_without;
use crate::db::Store;
use crate::db::StoreModel;
use crate::store::setup_db;
use crate::store::setup_model;
use crate::strutil::blank;
use crate::strutil::is_blank;
use crate::strutil::str_views;

verus! {

// ---------------------------------------------------------------------------
// The queue model
// ---------------------------------------------------------------------------

/// Queue well-formedness: no path appears twice.
pub open spec fn queue_wf(q: Seq<Seq<char>>) -> bool {
    forall|i: int, j: int| 0 <= i < j < q.len() ==> q[i] != q[j]
}

/// Inserting one path: blank paths and paths already queued are ignored.
pub open spec fn queue_insert(q: Seq<Seq<char>>, p: Seq<char>) -> Seq<Seq<char>> {
    if blank(p) || q.contains(p) {
        q
    } else {
        q.push(p)
    }
}

/// Inserting many paths, left to right.
pub open spec fn queue_insert_all(q: Seq<Seq<char>>, ps: Seq<Seq<char>>) -> Seq<Seq<char>>
    decreases ps.len(),
{
    if ps.len() == 0 {
        q
    } else {
        queue_insert_all(queue_insert(q, ps[0]), ps.skip(1))
    }
}

/// How many of those inserts took.
pub open spec fn queue_added_count(q: Seq<Seq<char>>, ps: Seq<Seq<char>>) -> int
    decreases ps.len(),
{
    if ps.len() == 0 {
        0
    } else {
        (if queue_insert(q, ps[0]) == q {
            0int
        } else {
            1int
        }) + queue_added_count(queue_insert(q, ps[0]), ps.skip(1))
    }
}

// ---------------------------------------------------------------------------
// Queue laws
// ---------------------------------------------------------------------------

/// Inserting a path twice inserts once: the second insert changes nothing.
pub proof fn lemma_queue_insert_idempotent(q: Seq<Seq<char>>, p: Seq<char>)
    ensures
        queue_insert(queue_insert(q, p), p) == queue_insert(q, p),
{
    if !blank(p) && !q.contains(p) {
        assert(q.push(p)[q.len() as int] == p);
        assert(q.push(p).contains(p));
    }
}

/// Inserts only append: what was queued stays, in its order, and the queue
/// stays duplicate-free.
pub proof fn lemma_queue_insert_all_stable(q: Seq<Seq<char>>, ps: Seq<Seq<char>>)
    ensures
        q.is_prefix_of(queue_insert_all(q, ps)),
        queue_wf(q) ==> queue_wf(queue_insert_all(q, ps)),
    decreases ps.len(),
{
    assert(q.is_prefix_of(q)) by {
        assert(q.subrange(0, q.len() as int) =~= q);
    }
    if ps.len() > 0 {
        let q1 = queue_insert(q, ps[0]);
        lemma_queue_insert_all_stable(q1, ps.skip(1));
        assert(q.is_prefix_of(q1)) by {
            assert(q1.subrange(0, q.len() as int) =~= q);
        }
        let r = queue_insert_all(q1, ps.skip(1));
        assert(q.is_prefix_of(r)) by {
            assert(q1.is_prefix_of(r));
            assert(r.subrange(0, q1.len() as int) == q1);
            assert(forall|i: int|
                0 <= i < q.len() ==> r.subrange(0, q1.len() as int)[i] == #[trigger] r[i]);
            assert(r.subrange(0, q.len() as int) =~= q);
        }
        if queue_wf(q) {
            assert(queue_wf(q1)) by {
                if !blank(ps[0]) && !q.contains(ps[0]) {
                    assert(forall|i: int|
                        0 <= i < q.len() ==> q.push(ps[0])[i] == #[trigger] q[i]);
                }
            }
        }
    }
}

/// The count handed back is exactly the growth of the queue, and never more
/// than the number of paths offered.
pub proof fn lemma_queue_added_count(q: Seq<Seq<char>>, ps: Seq<Seq<char>>)
    ensures
        queue_insert_all(q, ps).len() == q.len() + queue_added_count(q, ps),
        0 <= queue_added_count(q, ps) <= ps.len(),
    decreases ps.len(),
{
    if ps.len() > 0 {
        let q1 = queue_insert(q, ps[0]);
        lemma_queue_added_count(q1, ps.skip(1));
        if !(blank(ps[0]) || q.contains(ps[0])) {
            assert(q1 != q) by {
                assert(q1.len() == q.len() + 1);
            }
        }
    }
}

/// Removing a path that is not queued is a no-op.
pub proof fn lemma_queue_remove_missing(q: Seq<Seq<char>>, p: Seq<char>)
    requires
        !q.contains(p),
    ensures
        queue_without(q, p) == q,
    decreases q.len(),
{
    if q.len() > 0 {
        assert(q[0] != p);
        assert(!q.skip(1).contains(p)) by {
            assert(forall|i: int| 0 <= i < q.skip(1).len() ==> q.skip(1)[i] == #[trigger] q[i + 1]);
        }
        lemma_queue_remove_missing(q.skip(1), p);
        assert(seq![q[0]] + q.skip(1) =~= q);
    }
}

// ---------------------------------------------------------------------------
// The persisted queue
// ---------------------------------------------------------------------------

/// Queue each non-blank path, duplicates ignored through the store's UNIQUE
/// constraint, and return how many rows were inserted: afterwards the queue
/// is exactly `queue_insert_all` of what it was, and the count is exactly
/// `queue_added_count`.
pub fn add_tiff_paths(st: &mut Store, paths: &Vec<String>) -> (r: Result<usize, String>)
    ensures
        r matches Ok(n) ==> ({
            let s1 = setup_model(old(st)@);
            &&& final(st)@ == (StoreModel {
                queue: queue_insert_all(s1.queue, str_views(paths@)),
                ..s1
            })
            &&& n == queue_added_count(s1.queue, str_views(paths@))
        }),
        final(st)@.models == old(st)@.models,
{
    match setup_db(st) {
        Ok(_) => {},
        Err(e) => { return Err(e); },
    }
    let ghost s1 = st@;
    let ghost vs = str_views(paths@);
    proof {
        assert(vs.skip(0) =~= vs);
    }
    let mut added: usize = 0;
    let mut i: usize = 0;
    while i < paths.len()
        invariant
            i <= paths@.len(),
            added <= i,
            vs == str_views(paths@),
            vs.len() == paths@.len(),
            st@.config_cols == s1.config_cols,
            st@.config == s1.config,
            st@.models == s1.models,
            s1.models == old(st)@.models,
            queue_insert_all(s1.queue, vs) == queue_insert_all(st@.queue, vs.skip(i as int)),
            queue_added_count(s1.queue, vs) == added + queue_added_count(
                st@.queue,
                vs.skip(i as int),
            ),
        decreases paths@.len() - i,
    {
        proof {
            assert(vs.skip(i as int)[0] == vs[i as int]);
            assert(vs[i as int] == paths@[i as int]@);
            assert(vs.skip(i as int).skip(1) =~= vs.skip(i + 1));
        }
        if !is_blank(paths[i].as_str()) {
            let ghost qb = st@.queue;
            let n = match st.insert_tiff_path(&paths[i]) {
                Ok(n) => n,
                Err(e) => { return Err(e); },
            };
            if n == 1 {
                added += 1;
            }
            proof {
                if n == 1 {
                    assert(queue_insert(qb, vs[i as int]) != qb) by {
                        assert(queue_insert(qb, vs[i as int]).len() == qb.len() + 1);
                    }
                } else {
                    assert(queue_insert(qb, vs[i as int]) == qb);
                }
                assert(st@.queue == queue_insert(qb, vs[i as int]));
            }
        } else {
            proof {
                assert(queue_insert(st@.queue, vs[i as int]) == st@.queue);
            }
        }
        i += 1;
    }
    proof {
        assert(vs.skip(vs.len() as int) =~= Seq::<Seq<char>>::empty());
    }
    Ok(added)
}

/// The queued paths in insertion order: exactly the store's queue.
pub fn list_tiff_paths(st: &mut Store) -> (r: Result<Vec<String>, String>)
    ensures
        r matches Ok(v) ==> final(st)@ == setup_model(old(st)@) && str_views(v@)
            == final(st)@.queue,
        final(st)@.models == old(st)@.models,
        final(st)@.queue == old(st)@.queue,
{
    match setup_db(st) {
        Ok(_) => {},
        Err(e) => { return Err(e); },
    }
    st.query_tiff_paths()
}

/// Drop one path from the queue; a path that was never queued is a no-op,
/// not an error: afterwards the queue is exactly the old queue without that
/// path.
pub fn remove_tiff_path(st: &mut Store, path: &str) -> (r: Result<(), String>)
    ensures
        r is Ok ==> final(st)@ == (StoreModel {
            queue: queue_without(setup_model(old(st)@).queue, path@),
            ..setup_model(old(st)@)
        }),
        final(st)@.models == old(st)@.models,
{
    match setup_db(st) {
        Ok(_) => {},
        Err(e) => { return Err(e); },
    }
    match st.delete_tiff_path(path) {
        Ok(_) => Ok(()),
        Err(e) => Err(e),
    }
}

} // verus!

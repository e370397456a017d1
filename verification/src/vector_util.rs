//! Slot-vector helpers for the renderer path: clipping an instance list
//! to a buffer's capacity, and grouping the filled slots of a sparse
//! list into runs of consecutive indices so they can be uploaded with
//! one write each.

use vstd::prelude::*;

verus! {

/// A read-only view of at most the first `max_size` elements.
pub fn get_upto<'a, T>(v: &'a Vec<T>, max_size: usize) -> (r: &'a [T])
    ensures
        r@ == (if v@.len() <= max_size {
            v@
        } else {
            v@.subrange(0, max_size as int)
        }),
{
    if v.len() <= max_size {
        proof {
            assert(v@.subrange(0, v@.len() as int) =~= v@);
        }
        v.as_slice()
    } else {
        vstd::slice::slice_subrange(v.as_slice(), 0, max_size)
    }
}

/// The maximal runs of filled slots among the first `k` of a sparse
/// list: for each run, its start index and its values in order.
pub open spec fn consecutive_runs_upto<T>(s: Seq<Option<T>>, k: int) -> Seq<(int, Seq<T>)>
    decreases k,
{
    if k <= 0 {
        Seq::empty()
    } else {
        let prev = consecutive_runs_upto(s, k - 1);
        match s[k - 1] {
            None => prev,
            Some(t) => {
                if k >= 2 && s[k - 2] is Some {
                    prev.update(
                        prev.len() - 1,
                        (prev.last().0, prev.last().1.push(t)),
                    )
                } else {
                    prev.push((k - 1, seq![t]))
                }
            },
        }
    }
}

/// The maximal runs of filled slots of a sparse list.
pub open spec fn consecutive_runs<T>(s: Seq<Option<T>>) -> Seq<(int, Seq<T>)> {
    consecutive_runs_upto(s, s.len() as int)
}

/// The mapped values `us` are a valid image of the run values `ts` under
/// `f`: same length, each an output `f` allows for the input.
pub open spec fn maps_run<T, U, F: Fn(&T) -> U>(f: F, ts: Seq<T>, us: Seq<U>) -> bool {
    &&& us.len() == ts.len()
    &&& forall|j: int| 0 <= j < ts.len() ==> call_ensures(f, (&ts[j],), #[trigger] us[j])
}

/// The produced groups `gs` match the runs `rs`: same count, same start
/// indices, and each group's values a valid image of the run under `f`.
pub open spec fn maps_runs<T, U, F: Fn(&T) -> U>(
    f: F,
    rs: Seq<(int, Seq<T>)>,
    gs: Seq<(usize, Vec<U>)>,
) -> bool {
    &&& gs.len() == rs.len()
    &&& forall|j: int|
        0 <= j < rs.len() ==> (#[trigger] gs[j]).0 == rs[j].0 && maps_run(f, rs[j].1, gs[j].1@)
}

/// Groups the filled slots of a sparse list into maximal runs of
/// consecutive indices, mapping each value with `f`: for each run, its
/// start index and the mapped values in order.
pub fn get_consecutive_somes<T, U, F: Fn(&T) -> U>(v: &[Option<T>], f: F) -> (group: Vec<
    (usize, Vec<U>),
>)
    requires
        forall|t: &T| call_requires(f, (t,)),
    ensures
        maps_runs(f, consecutive_runs(v@), group@),
{
    let mut group: Vec<(usize, Vec<U>)> = Vec::new();
    let mut cv: Vec<U> = Vec::new();
    let mut ci: usize = 0;
    let mut i: usize = 0;
    while i < v.len()
        invariant
            forall|t: &T| call_requires(f, (t,)),
            0 <= i <= v@.len(),
            cv@.len() == 0 ==> ({
                &&& maps_runs(f, consecutive_runs_upto(v@, i as int), group@)
                &&& (i == 0 || v@[i - 1] is None)
            }),
            cv@.len() > 0 ==> ({
                let runs = consecutive_runs_upto(v@, i as int);
                &&& runs.len() >= 1
                &&& maps_runs(f, runs.drop_last(), group@)
                &&& runs.last().0 == ci
                &&& maps_run(f, runs.last().1, cv@)
                &&& i >= 1 && v@[i - 1] is Some
            }),
        decreases v@.len() - i,
    {
        let ghost runs_pre = consecutive_runs_upto(v@, i as int);
        match &v[i] {
            Some(n) => {
                if cv.len() == 0 {
                    ci = i;
                }
                cv.push(f(n));
                proof {
                    let runs = consecutive_runs_upto(v@, i + 1);
                    if runs_pre.len() > 0 && i >= 1 && v@[i - 1] is Some {
                        assert(runs.drop_last() =~= runs_pre.drop_last());
                    } else {
                        assert(runs.drop_last() =~= runs_pre);
                    }
                }
            },
            None => {
                if cv.len() > 0 {
                    group.push((ci, cv));
                    cv = Vec::new();
                    proof {
                        let runs = consecutive_runs_upto(v@, i + 1);
                        assert(runs =~= runs_pre.drop_last().push(runs_pre.last()));
                    }
                }
            },
        }
        i = i + 1;
    }
    if cv.len() > 0 {
        group.push((ci, cv));
        proof {
            let runs = consecutive_runs(v@);
            assert(runs =~= runs.drop_last().push(runs.last()));
        }
    }
    group
}

} // verus!

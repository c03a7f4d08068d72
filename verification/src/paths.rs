use vstd::prelude::*;

verus! {

/// Reading a NUL-separated list left to right: the runs that a NUL has closed, and the
/// run still open (both without NULs; empty runs are skipped).
pub open spec fn split_runs(list: Seq<u16>) -> (Seq<Seq<u16>>, Seq<u16>)
    decreases list.len(),
{
    if list.len() == 0 {
        (Seq::empty(), Seq::empty())
    } else {
        let (done, open) = split_runs(list.drop_last());
        if list.last() == 0 {
            (if open.len() > 0 { done.push(open) } else { done }, Seq::empty())
        } else {
            (done, open.push(list.last()))
        }
    }
}

/// The non-empty NUL-free runs of `list`, in order.
pub open spec fn nonempty_runs(list: Seq<u16>) -> Seq<Seq<u16>> {
    let (done, open) = split_runs(list);
    if open.len() > 0 {
        done.push(open)
    } else {
        done
    }
}

/// The device paths in a device interface list: each non-empty run, NUL-terminated.
pub open spec fn interface_paths(list: Seq<u16>) -> Seq<Seq<u16>> {
    nonempty_runs(list).map_values(|run: Seq<u16>| run.push(0u16))
}

/// A run of a path list: non-empty and free of NULs.
pub open spec fn is_run(run: Seq<u16>) -> bool {
    run.len() > 0 && forall|j: int| 0 <= j < run.len() ==> run[j] != 0
}

/// A NUL-terminated device path: a non-empty NUL-free name and a final NUL.
pub open spec fn is_terminated_path(path: Seq<u16>) -> bool {
    path.len() >= 2 && path.last() == 0 && is_run(path.drop_last())
}

/// Concatenation of runs.
pub open spec fn concat_runs(runs: Seq<Seq<u16>>) -> Seq<u16>
    decreases runs.len(),
{
    if runs.len() == 0 {
        Seq::empty()
    } else {
        concat_runs(runs.drop_last()) + runs.last()
    }
}

/// `list` without its NULs.
pub open spec fn without_nuls(list: Seq<u16>) -> Seq<u16> {
    list.filter(|c: u16| c != 0)
}

/// The contents of a list of vectors.
pub open spec fn vec_views(vs: Seq<Vec<u16>>) -> Seq<Seq<u16>> {
    vs.map_values(|v: Vec<u16>| v@)
}

/// Splits a device interface list (NUL-separated, ended by an empty entry) into its
/// device paths, each NUL-terminated, skipping empty entries.
pub fn hid_interface_paths(list: &[u16]) -> (paths: Vec<Vec<u16>>)
    ensures
        vec_views(paths@) == interface_paths(list@),
{
    let mut paths: Vec<Vec<u16>> = Vec::new();
    let mut open: Vec<u16> = Vec::new();
    let mut i: usize = 0;
    while i < list.len()
        invariant
            i <= list@.len(),
            vec_views(paths@) == split_runs(list@.take(i as int)).0.map_values(
                |run: Seq<u16>| run.push(0u16),
            ),
            open@ == split_runs(list@.take(i as int)).1,
        decreases list.len() - i,
    {
        let c = list[i];
        let ghost before = list@.take(i as int);
        assert(list@.take(i + 1).drop_last() =~= before);
        let ghost done = split_runs(before).0;
        if c == 0 {
            if open.len() > 0 {
                let ghost run = open@;
                let ghost old_views = vec_views(paths@);
                let mut path = open;
                path.push(0u16);
                assert(path@ == run.push(0u16));
                paths.push(path);
                open = Vec::new();
                assert(vec_views(paths@) =~= old_views.push(run.push(0u16)));
                assert(done.push(run).map_values(|r: Seq<u16>| r.push(0u16)) =~= done.map_values(
                    |r: Seq<u16>| r.push(0u16),
                ).push(run.push(0u16)));
            }
        } else {
            open.push(c);
        }
        i = i + 1;
    }
    assert(list@.take(list.len() as int) =~= list@);
    if open.len() > 0 {
        let ghost run = open@;
        let ghost done = split_runs(list@).0;
        let ghost old_views = vec_views(paths@);
        let mut path = open;
        path.push(0u16);
        assert(path@ == run.push(0u16));
        paths.push(path);
        assert(vec_views(paths@) =~= old_views.push(run.push(0u16)));
        assert(done.push(run).map_values(|r: Seq<u16>| r.push(0u16)) =~= done.map_values(
            |r: Seq<u16>| r.push(0u16),
        ).push(run.push(0u16)));
    }
    paths
}

/// Every run that reading a list produces is non-empty and NUL-free, and the runs with
/// the open run after them spell out the list without its NULs.
proof fn lemma_split_runs(list: Seq<u16>)
    ensures
        forall|k: int| 0 <= k < split_runs(list).0.len() ==> is_run(#[trigger] split_runs(list).0[k]),
        forall|j: int| 0 <= j < split_runs(list).1.len() ==> split_runs(list).1[j] != 0,
        concat_runs(split_runs(list).0) + split_runs(list).1 == without_nuls(list),
    decreases list.len(),
{
    reveal_with_fuel(Seq::filter, 1);
    if list.len() > 0 {
        let prev = list.drop_last();
        lemma_split_runs(prev);
        let (done, open) = split_runs(prev);
        assert(list =~= prev.push(list.last()));
        if list.last() == 0 {
            if open.len() > 0 {
                assert(done.push(open).drop_last() =~= done);
                assert(concat_runs(done.push(open)) + Seq::<u16>::empty() =~= concat_runs(done) + open);
            } else {
                assert(concat_runs(done) + Seq::<u16>::empty() =~= concat_runs(done) + open);
            }
        } else {
            assert(concat_runs(done) + open.push(list.last()) =~= (concat_runs(done) + open).push(
                list.last(),
            ));
        }
    }
}

/// The paths of a device interface list are NUL-terminated names that are non-empty and
/// hold no other NUL, and their names, in order, spell out the list without its NULs.
pub proof fn lemma_interface_paths_well_formed(list: Seq<u16>)
    ensures
        forall|k: int|
            0 <= k < interface_paths(list).len() ==> is_terminated_path(
                #[trigger] interface_paths(list)[k],
            ),
        concat_runs(nonempty_runs(list)) == without_nuls(list),
        forall|k: int|
            0 <= k < interface_paths(list).len() ==> #[trigger] interface_paths(list)[k].drop_last()
                == nonempty_runs(list)[k],
{
    lemma_split_runs(list);
    let (done, open) = split_runs(list);
    let runs = nonempty_runs(list);
    if open.len() > 0 {
        assert(runs.drop_last() =~= done);
        assert(concat_runs(runs) == concat_runs(done) + open);
    } else {
        assert(concat_runs(done) + open =~= concat_runs(done));
    }
    assert forall|k: int| 0 <= k < runs.len() implies is_run(#[trigger] runs[k]) by {
        if k < done.len() {
            assert(is_run(done[k]));
        }
    }
    assert forall|k: int| 0 <= k < interface_paths(list).len() implies is_terminated_path(
        #[trigger] interface_paths(list)[k],
    ) && interface_paths(list)[k].drop_last() == runs[k] by {
        assert(interface_paths(list)[k] == runs[k].push(0u16));
        assert(runs[k].push(0u16).drop_last() =~= runs[k]);
        assert(is_run(runs[k]));
    }
}

/// Number of UTF-16 units before the first NUL, or all of them when there is none.
pub open spec fn nul_terminated_len(buf: Seq<u16>) -> nat
    decreases buf.len(),
{
    if buf.len() == 0 {
        0
    } else if buf[0] == 0 {
        0
    } else {
        1 + nul_terminated_len(buf.drop_first())
    }
}

/// Position of the first NUL in `buf`, or its length when it holds none.
pub fn nul_position(buf: &[u16]) -> (n: usize)
    ensures
        n == nul_terminated_len(buf@),
        n <= buf@.len(),
        forall|j: int| 0 <= j < n ==> buf@[j] != 0,
        n < buf@.len() ==> buf@[n as int] == 0,
{
    let mut i: usize = 0;
    assert(buf@.skip(0) =~= buf@);
    while i < buf.len() && buf[i] != 0
        invariant
            i <= buf@.len(),
            forall|j: int| 0 <= j < i ==> buf@[j] != 0,
            nul_terminated_len(buf@) == i + nul_terminated_len(buf@.skip(i as int)),
        decreases buf.len() - i,
    {
        assert(buf@.skip(i as int).drop_first() =~= buf@.skip(i + 1));
        i = i + 1;
    }
    proof {
        if i < buf@.len() {
            assert(buf@.skip(i as int)[0] == buf@[i as int]);
        } else {
            assert(buf@.skip(i as int).len() == 0);
        }
    }
    i
}


/// Reading a NUL-free list leaves it all as the open run.
proof fn lemma_split_runs_nul_free(r: Seq<u16>)
    requires
        forall|j: int| 0 <= j < r.len() ==> r[j] != 0,
    ensures
        split_runs(r) == (Seq::<Seq<u16>>::empty(), r),
    decreases r.len(),
{
    if r.len() > 0 {
        lemma_split_runs_nul_free(r.drop_last());
        assert(r.drop_last().push(r.last()) =~= r);
    }
}

/// After a NUL, reading goes on as if the list started there, with the runs of what came
/// before the NUL already closed.
proof fn lemma_split_runs_after_nul(a: Seq<u16>, b: Seq<u16>)
    ensures
        split_runs(a.push(0u16) + b) == (nonempty_runs(a) + split_runs(b).0, split_runs(b).1),
    decreases b.len(),
{
    let c = a.push(0u16);
    if b.len() == 0 {
        assert(c + b =~= c);
        assert(c.drop_last() =~= a);
        assert(nonempty_runs(a) + Seq::<Seq<u16>>::empty() =~= nonempty_runs(a));
    } else {
        lemma_split_runs_after_nul(a, b.drop_last());
        assert((c + b).drop_last() =~= c + b.drop_last());
        assert((c + b).last() == b.last());
        let (d, o) = split_runs(b.drop_last());
        if b.last() == 0 && o.len() > 0 {
            assert((nonempty_runs(a) + d).push(o) =~= nonempty_runs(a) + d.push(o));
        }
    }
}

/// A list splits at each NUL: the paths of `a`, a NUL, then `b` are the paths of `a`
/// followed by the paths of `b` (so a NUL ending `a` adds no path of its own).
pub proof fn lemma_interface_paths_split_at_nul(a: Seq<u16>, b: Seq<u16>)
    ensures
        interface_paths(a.push(0u16) + b) == interface_paths(a) + interface_paths(b),
        interface_paths(a.push(0u16) + b) == interface_paths(a.push(0u16)) + interface_paths(b),
{
    lemma_split_runs_after_nul(a, b);
    lemma_split_runs_after_nul(a, Seq::empty());
    let f = |r: Seq<u16>| r.push(0u16);
    let (d, o) = split_runs(b);
    let na = nonempty_runs(a);
    if o.len() > 0 {
        assert((na + d).push(o) =~= na + d.push(o));
    }
    assert(nonempty_runs(a.push(0u16) + b) =~= na + nonempty_runs(b));
    assert((na + nonempty_runs(b)).map_values(f) =~= na.map_values(f) + nonempty_runs(b).map_values(
        f,
    ));
    assert(a.push(0u16) + Seq::<u16>::empty() =~= a.push(0u16));
    assert(nonempty_runs(a.push(0u16)) =~= na + Seq::<Seq<u16>>::empty());
    assert(na + Seq::<Seq<u16>>::empty() =~= na);
}

/// An empty list has no paths, and one non-empty NUL-free name, with or without its
/// terminating NUL, is exactly one path: the whole name and a NUL, however long it is.
pub proof fn lemma_interface_paths_single_name(r: Seq<u16>)
    requires
        r.len() > 0,
        forall|j: int| 0 <= j < r.len() ==> r[j] != 0,
    ensures
        interface_paths(Seq::<u16>::empty()) == Seq::<Seq<u16>>::empty(),
        interface_paths(r) == seq![r.push(0u16)],
        interface_paths(r.push(0u16)) == seq![r.push(0u16)],
{
    lemma_split_runs_nul_free(r);
    assert(Seq::<Seq<u16>>::empty().push(r) =~= seq![r]);
    assert(seq![r].map_values(|x: Seq<u16>| x.push(0u16)) =~= seq![r.push(0u16)]);
    assert(interface_paths(Seq::<u16>::empty()) =~= Seq::<Seq<u16>>::empty());
    assert(r.push(0u16).drop_last() =~= r);
}

} // verus!

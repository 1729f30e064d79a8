//! Exchange router: redistributes records across the worker pool of a job by
//! a key-derived partition function, so that records sharing a partition key
//! are processed on the same worker from that point forward.

use vstd::prelude::*;

verus! {

/// The destination worker of a record with partition key `key` among `peers`
/// workers.
pub open spec fn spec_route(key: u64, peers: u32) -> u32
    recommends
        peers > 0,
{
    (key % (peers as u64)) as u32
}

/// Computes the destination worker of `key`: deterministic for a fixed
/// `peers` count, so re-runs of a job on the same partition count are
/// reproducible.
pub fn route(key: u64, peers: u32) -> (r: u32)
    requires
        peers > 0,
    ensures
        r == spec_route(key, peers),
        r < peers,
{
    proof {
        assert(key % (peers as u64) < peers as u64) by (nonlinear_arith)
            requires
                peers > 0,
        ;
    }
    (key % (peers as u64)) as u32
}

/// One worker-major sequence of all records of a partitioned stream: the
/// records of worker 0's partition in their emission order, then worker 1's,
/// and so on.
pub open spec fn spec_concat(parts: Seq<Seq<u64>>) -> Seq<u64>
    decreases parts.len(),
{
    if parts.len() == 0 {
        Seq::empty()
    } else {
        spec_concat(parts.drop_last()) + parts.last()
    }
}

/// The subsequence of `all` that the router sends to worker `w`, in order.
pub open spec fn spec_routed_to(all: Seq<u64>, peers: u32, w: u32) -> Seq<u64>
    decreases all.len(),
{
    if all.len() == 0 {
        Seq::empty()
    } else {
        let prefix = spec_routed_to(all.drop_last(), peers, w);
        if spec_route(all.last(), peers) == w {
            prefix.push(all.last())
        } else {
            prefix
        }
    }
}

/// Law: a record lands in worker `w`'s bucket exactly when it occurs in the
/// stream and `w` is its routed destination; in particular, all records with
/// equal keys are routed to the same worker.
pub proof fn lemma_routed_to_membership(all: Seq<u64>, peers: u32, w: u32, x: u64)
    requires
        peers > 0,
    ensures
        spec_routed_to(all, peers, w).contains(x) <==> (all.contains(x) && spec_route(x, peers)
            == w),
    decreases all.len(),
{
    if all.len() > 0 {
        lemma_routed_to_membership(all.drop_last(), peers, w, x);
        let routed = spec_routed_to(all, peers, w);
        let prefix = spec_routed_to(all.drop_last(), peers, w);
        if spec_route(all.last(), peers) == w {
            assert(routed == prefix.push(all.last()));
            if routed.contains(x) {
                let i = choose|i: int| 0 <= i < routed.len() && routed[i] == x;
                if i < prefix.len() {
                    assert(prefix.contains(x));
                } else {
                    assert(x == all.last());
                    assert(all.contains(x)) by {
                        assert(all[all.len() - 1] == x);
                    }
                }
            }
            if all.contains(x) && spec_route(x, peers) == w {
                let i = choose|i: int| 0 <= i < all.len() && all[i] == x;
                if i < all.len() - 1 {
                    assert(all.drop_last()[i] == x);
                    assert(all.drop_last().contains(x));
                    assert(prefix.contains(x));
                    let j = choose|j: int| 0 <= j < prefix.len() && prefix[j] == x;
                    assert(routed[j] == x);
                } else {
                    assert(routed[routed.len() - 1] == x);
                }
            }
        } else {
            if all.contains(x) && spec_route(x, peers) == w {
                let i = choose|i: int| 0 <= i < all.len() && all[i] == x;
                assert(i < all.len() - 1);
                assert(all.drop_last()[i] == x);
                assert(all.drop_last().contains(x));
            }
            if routed.contains(x) {
                assert(prefix.contains(x));
                assert(all.drop_last().contains(x));
                let i = choose|i: int| 0 <= i < all.drop_last().len() && all.drop_last()[i] == x;
                assert(all[i] == x);
            }
        }
    }
}

/// Law: worker `w`'s bucket is exactly the stream filtered to the records
/// whose key routes to `w`, kept in stream order — so the router loses no
/// record, duplicates none, and moves each to one worker alone.
pub proof fn lemma_routed_to_is_filter(all: Seq<u64>, peers: u32, w: u32)
    requires
        peers > 0,
    ensures
        spec_routed_to(all, peers, w) == all.filter(|x: u64| spec_route(x, peers) == w),
    decreases all.len(),
{
    reveal(Seq::filter);
    if all.len() > 0 {
        lemma_routed_to_is_filter(all.drop_last(), peers, w);
    }
}

/// Concatenates the per-worker partitions of a stream into one worker-major
/// record sequence.
pub fn concat_parts(parts: &Vec<Vec<u64>>) -> (all: Vec<u64>)
    ensures
        all@ == spec_concat(parts@.map_values(|p: Vec<u64>| p@)),
{
    let mut all: Vec<u64> = Vec::new();
    let ghost views = parts@.map_values(|p: Vec<u64>| p@);
    let mut i: usize = 0;
    while i < parts.len()
        invariant
            i <= parts@.len(),
            views == parts@.map_values(|p: Vec<u64>| p@),
            all@ == spec_concat(views.take(i as int)),
        decreases parts@.len() - i,
    {
        let part = &parts[i];
        let mut j: usize = 0;
        while j < part.len()
            invariant
                i < parts@.len(),
                j <= part@.len(),
                part@ == views[i as int],
                views == parts@.map_values(|p: Vec<u64>| p@),
                all@ == spec_concat(views.take(i as int)) + part@.take(j as int),
            decreases part@.len() - j,
        {
            all.push(part[j]);
            proof {
                assert(part@.take(j + 1) =~= part@.take(j as int).push(part@[j as int]));
            }
            j += 1;
        }
        proof {
            assert(views.take(i + 1).drop_last() =~= views.take(i as int));
            assert(spec_concat(views.take(i + 1)) == spec_concat(views.take(i as int))
                + views[i as int]);
            assert(part@.take(j as int) =~= part@);
        }
        i += 1;
    }
    proof {
        assert(views.take(parts@.len() as int) =~= views);
    }
    all
}

/// Collects, in order, the records of `all` whose destination is worker `w`.
pub fn routed_to(all: &Vec<u64>, peers: u32, w: u32) -> (bucket: Vec<u64>)
    requires
        peers > 0,
    ensures
        bucket@ == spec_routed_to(all@, peers, w),
{
    let mut bucket: Vec<u64> = Vec::new();
    let mut i: usize = 0;
    while i < all.len()
        invariant
            peers > 0,
            i <= all@.len(),
            bucket@ == spec_routed_to(all@.take(i as int), peers, w),
        decreases all@.len() - i,
    {
        let x = all[i];
        if route(x, peers) == w {
            bucket.push(x);
        }
        proof {
            assert(all@.take(i + 1).drop_last() =~= all@.take(i as int));
            assert(all@.take(i + 1).last() == all@[i as int]);
        }
        i += 1;
    }
    proof {
        assert(all@.take(all@.len() as int) =~= all@);
    }
    bucket
}

/// Redistributes a partitioned stream across the job's workers: every record
/// moves to the worker its own value, taken as the partition key, routes to.
/// Worker `w`'s new partition holds exactly the records routed to `w`, in
/// worker-major arrival order.
pub fn exchange(parts: &Vec<Vec<u64>>, peers: u32) -> (out: Vec<Vec<u64>>)
    requires
        peers > 0,
        parts@.len() == peers as int,
    ensures
        out@.len() == peers as int,
        forall|w: int|
            0 <= w < peers as int ==> #[trigger] out@[w]@ == spec_routed_to(
                spec_concat(parts@.map_values(|p: Vec<u64>| p@)),
                peers,
                w as u32,
            ),
{
    let all = concat_parts(parts);
    let mut out: Vec<Vec<u64>> = Vec::new();
    let mut w: u32 = 0;
    while w < peers
        invariant
            peers > 0,
            w <= peers,
            all@ == spec_concat(parts@.map_values(|p: Vec<u64>| p@)),
            out@.len() == w as int,
            forall|v: int|
                0 <= v < w as int ==> #[trigger] out@[v]@ == spec_routed_to(all@, peers, v as u32),
        decreases peers - w,
    {
        let bucket = routed_to(&all, peers, w);
        out.push(bucket);
        w += 1;
    }
    out
}

} // verus!

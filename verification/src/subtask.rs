//! Subtask fork/join engine: spawns a correlated nested sub-computation per
//! record of a parent stream and matches the sub-computation's results back
//! to the record that spawned them.
//!
//! Every record entering a fork is tagged with a correlation identifier
//! unique among the records in flight on that worker; every operator of the
//! nested sub-dataflow preserves the tag; the matching join consumes the tag
//! and hands each parent record, together with the full set of sub-records
//! sharing its tag, to a caller-supplied combiner. Correlated parent and
//! child records reside on the same worker: an exchange on the correlation
//! key upstream of the fork arranges that.

use crate::errors::BuildJobError;
use vstd::prelude::*;

verus! {

/// One record of a forked stream: the parent's correlation tag and the
/// record's value.
#[derive(Copy, Clone, PartialEq, Eq, Structural, Debug)]
pub struct Tagged {
    /// Correlation identifier linking this record to one parent record.
    pub tag: u64,
    /// The record's value.
    pub value: u64,
}

/// The tagged stream a fork derives from a parent stream: record `i` carries
/// correlation tag `i`.
pub open spec fn spec_tagged(parent: Seq<u64>) -> Seq<Tagged> {
    Seq::new(parent.len(), |i: int| Tagged { tag: i as u64, value: parent[i] })
}

/// Tags every record of the parent stream with a correlation identifier
/// unique among the records in flight: the tags count up from zero in stream
/// order.
pub fn fork_tag(parent: &Vec<u64>) -> (out: Vec<Tagged>)
    ensures
        out@ == spec_tagged(parent@),
{
    let mut out: Vec<Tagged> = Vec::new();
    let mut i: usize = 0;
    while i < parent.len()
        invariant
            i <= parent@.len(),
            out@ == spec_tagged(parent@.take(i as int)),
        decreases parent@.len() - i,
    {
        out.push(Tagged { tag: i as u64, value: parent[i] });
        proof {
            assert(out@ =~= spec_tagged(parent@.take(i + 1)));
        }
        i += 1;
    }
    proof {
        assert(parent@.take(parent@.len() as int) =~= parent@);
    }
    out
}

/// Forks a nested sub-dataflow off the parent stream: tags every parent
/// record, hands the tagged stream to the caller's sub-dataflow builder, and
/// exposes the nested graph's terminal stream. A failure of the builder
/// fails the whole job at submission time, before any data flows.
pub fn fork_subtask<E, F: Fn(Vec<Tagged>) -> Result<Vec<Tagged>, E>>(
    parent: &Vec<u64>,
    build: &F,
) -> (r: Result<Vec<Tagged>, E>)
    requires
        forall|t: Vec<Tagged>| t@ == spec_tagged(parent@) ==> #[trigger] call_requires(*build, (t,)),
    ensures
        exists|t: Vec<Tagged>| t@ == spec_tagged(parent@) && #[trigger] call_ensures(
            *build,
            (t,),
            r,
        ),
{
    let tagged = fork_tag(parent);
    let ghost gt = tagged;
    let r = build(tagged);
    proof {
        assert(gt@ == spec_tagged(parent@) && call_ensures(*build, (gt,), r));
    }
    r
}

/// The records of one sub-dataflow chunk, each carrying the parent's tag.
pub open spec fn spec_tag_chunk(tag: u64, chunk: Seq<u64>) -> Seq<Tagged> {
    chunk.map_values(|v: u64| Tagged { tag, value: v })
}

/// The stream a tag-preserving flat-map emits: for each input record in
/// order, its chunk of outputs, every one carrying the input record's tag.
pub open spec fn spec_flat_tagged(input: Seq<Tagged>, chunks: Seq<Vec<u64>>) -> Seq<Tagged>
    recommends
        chunks.len() == input.len(),
    decreases input.len(),
{
    if input.len() == 0 {
        Seq::empty()
    } else {
        spec_flat_tagged(input.drop_last(), chunks.drop_last()) + spec_tag_chunk(
            input.last().tag,
            chunks.last()@,
        )
    }
}

/// Applies a one-to-many transform to every record of a forked stream. Each
/// output record carries the tag of the input record it came from, and the
/// outputs of one input record keep the order the transform emitted them.
pub fn flat_map_tagged<F: Fn(u64) -> Vec<u64>>(input: &Vec<Tagged>, f: &F) -> (out: Vec<Tagged>)
    requires
        forall|i: int|
            0 <= i < input@.len() ==> #[trigger] call_requires(*f, (input@[i].value,)),
    ensures
        exists|chunks: Seq<Vec<u64>>|
            {
                &&& chunks.len() == input@.len()
                &&& (forall|i: int|
                    0 <= i < input@.len() ==> #[trigger] call_ensures(
                        *f,
                        (input@[i].value,),
                        chunks[i],
                    ))
                &&& out@ == spec_flat_tagged(input@, chunks)
            },
{
    let mut out: Vec<Tagged> = Vec::new();
    let ghost mut chunks: Seq<Vec<u64>> = Seq::empty();
    let mut i: usize = 0;
    while i < input.len()
        invariant
            i <= input@.len(),
            chunks.len() == i as int,
            forall|k: int|
                0 <= k < i as int ==> #[trigger] call_ensures(*f, (input@[k].value,), chunks[k]),
            out@ == spec_flat_tagged(input@.take(i as int), chunks),
            forall|k: int|
                0 <= k < input@.len() ==> #[trigger] call_requires(*f, (input@[k].value,)),
        decreases input@.len() - i,
    {
        let rec = input[i];
        let chunk = f(rec.value);
        let ghost prev_out = out@;
        let mut j: usize = 0;
        while j < chunk.len()
            invariant
                j <= chunk@.len(),
                out@ == prev_out + spec_tag_chunk(rec.tag, chunk@.take(j as int)),
            decreases chunk@.len() - j,
        {
            out.push(Tagged { tag: rec.tag, value: chunk[j] });
            proof {
                assert(spec_tag_chunk(rec.tag, chunk@.take(j + 1)) =~= spec_tag_chunk(
                    rec.tag,
                    chunk@.take(j as int),
                ).push(Tagged { tag: rec.tag, value: chunk@[j as int] }));
            }
            j += 1;
        }
        proof {
            assert(chunk@.take(chunk@.len() as int) =~= chunk@);
            let old_chunks = chunks;
            chunks = chunks.push(chunk);
            assert(input@.take(i + 1).drop_last() =~= input@.take(i as int));
            assert(chunks.drop_last() =~= old_chunks);
            assert(input@.take(i + 1).last() == input@[i as int]);
            assert(out@ == spec_flat_tagged(input@.take(i + 1), chunks));
        }
        i += 1;
    }
    proof {
        assert(input@.take(input@.len() as int) =~= input@);
    }
    out
}

/// Law: every record a tag-preserving flat-map emits carries the tag of one
/// of the records that entered it — the nested sub-dataflow neither invents
/// nor migrates a correlation tag, so each of its outputs correlates with
/// exactly the parent record its tag names.
pub proof fn lemma_flat_tagged_tags_come_from_input(
    input: Seq<Tagged>,
    chunks: Seq<Vec<u64>>,
    k: int,
)
    requires
        chunks.len() == input.len(),
        0 <= k < spec_flat_tagged(input, chunks).len(),
    ensures
        exists|i: int|
            0 <= i < input.len() && spec_flat_tagged(input, chunks)[k].tag == input[i].tag,
    decreases input.len(),
{
    let out = spec_flat_tagged(input, chunks);
    let prefix = spec_flat_tagged(input.drop_last(), chunks.drop_last());
    if k < prefix.len() {
        lemma_flat_tagged_tags_come_from_input(input.drop_last(), chunks.drop_last(), k);
        let i = choose|i: int|
            0 <= i < input.drop_last().len() && prefix[k].tag == input.drop_last()[i].tag;
        assert(out[k].tag == input[i].tag);
    } else {
        assert(out[k].tag == input.last().tag);
        assert(out[k].tag == input[input.len() - 1].tag);
    }
}

/// How many records of a sub-stream carry the given correlation tag.
pub open spec fn spec_count_tag(s: Seq<Tagged>, tag: u64) -> nat
    decreases s.len(),
{
    if s.len() == 0 {
        0
    } else {
        spec_count_tag(s.drop_last(), tag) + if s.last().tag == tag {
            1nat
        } else {
            0nat
        }
    }
}

pub proof fn lemma_count_tag_le_len(s: Seq<Tagged>, tag: u64)
    ensures
        spec_count_tag(s, tag) <= s.len(),
    decreases s.len(),
{
    if s.len() > 0 {
        lemma_count_tag_le_len(s.drop_last(), tag);
    }
}

/// Counts the records of a sub-stream that belong to the correlation group
/// of `tag`.
pub fn count_tag(sub: &Vec<Tagged>, tag: u64) -> (n: u64)
    ensures
        n == spec_count_tag(sub@, tag),
{
    let mut n: u64 = 0;
    let mut j: usize = 0;
    while j < sub.len()
        invariant
            j <= sub@.len(),
            n == spec_count_tag(sub@.take(j as int), tag),
            n <= j,
        decreases sub@.len() - j,
    {
        proof {
            assert(sub@.take(j + 1).drop_last() =~= sub@.take(j as int));
            assert(sub@.take(j + 1).last() == sub@[j as int]);
        }
        if sub[j].tag == tag {
            n += 1;
        }
        j += 1;
    }
    proof {
        assert(sub@.take(sub@.len() as int) =~= sub@);
    }
    n
}

/// The per-group count step of a nested sub-dataflow: once the sub-stream is
/// known complete, emits for every parent record one record carrying the
/// parent's tag and the size of its correlation group. The parent's tagged
/// stream is the explicit completion signal: it says which groups exist.
pub fn count_subtask(sub: &Vec<Tagged>, parents: &Vec<Tagged>) -> (out: Vec<Tagged>)
    ensures
        out@.len() == parents@.len(),
        forall|i: int|
            0 <= i < parents@.len() ==> #[trigger] out@[i] == (Tagged {
                tag: parents@[i].tag,
                value: spec_count_tag(sub@, parents@[i].tag) as u64,
            }),
{
    let mut out: Vec<Tagged> = Vec::new();
    let mut i: usize = 0;
    while i < parents.len()
        invariant
            i <= parents@.len(),
            out@.len() == i as int,
            forall|k: int|
                0 <= k < i as int ==> #[trigger] out@[k] == (Tagged {
                    tag: parents@[k].tag,
                    value: spec_count_tag(sub@, parents@[k].tag) as u64,
                }),
        decreases parents@.len() - i,
    {
        let tag = parents[i].tag;
        let n = count_tag(sub, tag);
        proof {
            lemma_count_tag_le_len(sub@, tag);
        }
        out.push(Tagged { tag, value: n });
        i += 1;
    }
    out
}

/// The values of the correlation group of `tag`: the sub-records carrying
/// the tag, in the order the sub-dataflow emitted them.
pub open spec fn spec_matching(sub: Seq<Tagged>, tag: u64) -> Seq<u64>
    decreases sub.len(),
{
    if sub.len() == 0 {
        Seq::empty()
    } else {
        let prefix = spec_matching(sub.drop_last(), tag);
        if sub.last().tag == tag {
            prefix.push(sub.last().value)
        } else {
            prefix
        }
    }
}

/// Collects the full correlation group of `tag` from a sub-stream, in
/// emission order.
pub fn matching_values(sub: &Vec<Tagged>, tag: u64) -> (r: Vec<u64>)
    ensures
        r@ == spec_matching(sub@, tag),
{
    let mut r: Vec<u64> = Vec::new();
    let mut j: usize = 0;
    while j < sub.len()
        invariant
            j <= sub@.len(),
            r@ == spec_matching(sub@.take(j as int), tag),
        decreases sub@.len() - j,
    {
        proof {
            assert(sub@.take(j + 1).drop_last() =~= sub@.take(j as int));
            assert(sub@.take(j + 1).last() == sub@[j as int]);
        }
        if sub[j].tag == tag {
            r.push(sub[j].value);
        }
        j += 1;
    }
    proof {
        assert(sub@.take(sub@.len() as int) =~= sub@);
    }
    r
}

/// The results a combiner may keep from one correlation group: `kept` holds,
/// in group order, the value of every `Some` answer the combiner gave for
/// `(parent, member)`.
pub open spec fn spec_collect_some<R>(opts: Seq<Option<R>>) -> Seq<R>
    decreases opts.len(),
{
    if opts.len() == 0 {
        Seq::empty()
    } else {
        let prefix = spec_collect_some(opts.drop_last());
        match opts.last() {
            Some(v) => prefix.push(v),
            None => prefix,
        }
    }
}

/// Whether `kept` is a possible outcome of running the combiner `f` over the
/// pairs of one parent value and its correlation group `ms`, dropping the
/// pairs the combiner answered `None` for.
pub open spec fn combined_group<R, F: Fn(u64, u64) -> Option<R>>(
    f: F,
    parent: u64,
    ms: Seq<u64>,
    kept: Seq<R>,
) -> bool {
    exists|opts: Seq<Option<R>>|
        {
            &&& opts.len() == ms.len()
            &&& (forall|j: int|
                0 <= j < ms.len() ==> #[trigger] call_ensures(f, (parent, ms[j]), opts[j]))
            &&& kept == spec_collect_some(opts)
        }
}

/// One stream out of the per-parent result groups, in parent order.
pub open spec fn spec_flatten<R>(groups: Seq<Seq<R>>) -> Seq<R>
    decreases groups.len(),
{
    if groups.len() == 0 {
        Seq::empty()
    } else {
        spec_flatten(groups.drop_last()) + groups.last()
    }
}

/// Merges a parent stream with the terminal stream of one of its forks by
/// correlation tag. For each parent record in order, the full correlation
/// group is collected — the sub-records sharing the record's tag, in the
/// order the sub-dataflow emitted them — and the combiner is applied to the
/// parent value and each group member; a `None` answer drops that pair
/// silently. A sub-record whose tag matches no parent record is a fatal
/// correlation failure: the join reports it and emits nothing.
pub fn join_subtask<R, F: Fn(u64, u64) -> Option<R>>(
    parent: &Vec<u64>,
    sub: &Vec<Tagged>,
    combine: &F,
) -> (r: Result<Vec<R>, BuildJobError>)
    requires
        forall|i: int, v: u64|
            0 <= i < parent@.len() && spec_matching(sub@, i as u64).contains(v)
                ==> #[trigger] call_requires(*combine, (parent@[i], v)),
    ensures
        r is Ok <==> (forall|j: int|
            0 <= j < sub@.len() ==> (#[trigger] sub@[j].tag) < parent@.len()),
        match r {
            Ok(out) => exists|groups: Seq<Seq<R>>|
                {
                    &&& groups.len() == parent@.len()
                    &&& (forall|i: int|
                        0 <= i < parent@.len() ==> combined_group(
                            *combine,
                            parent@[i],
                            spec_matching(sub@, i as u64),
                            #[trigger] groups[i],
                        ))
                    &&& out@ == spec_flatten(groups)
                },
            Err(e) => e == BuildJobError::Correlation,
        },
{
    let plen = parent.len();
    let mut c: usize = 0;
    while c < sub.len()
        invariant
            c <= sub@.len(),
            plen == parent@.len(),
            forall|j: int| 0 <= j < c as int ==> (#[trigger] sub@[j].tag) < parent@.len(),
        decreases sub@.len() - c,
    {
        if sub[c].tag >= plen as u64 {
            return Err(BuildJobError::Correlation);
        }
        c += 1;
    }
    let mut out: Vec<R> = Vec::new();
    let ghost mut groups: Seq<Seq<R>> = Seq::empty();
    let mut i: usize = 0;
    while i < parent.len()
        invariant
            i <= parent@.len(),
            groups.len() == i as int,
            forall|v: int|
                0 <= v < i as int ==> combined_group(
                    *combine,
                    parent@[v],
                    spec_matching(sub@, v as u64),
                    #[trigger] groups[v],
                ),
            out@ == spec_flatten(groups),
            forall|k: int, v: u64|
                0 <= k < parent@.len() && spec_matching(sub@, k as u64).contains(v)
                    ==> #[trigger] call_requires(*combine, (parent@[k], v)),
        decreases parent@.len() - i,
    {
        let p = parent[i];
        let ms = matching_values(sub, i as u64);
        let mut g: Vec<R> = Vec::new();
        let ghost mut opts: Seq<Option<R>> = Seq::empty();
        let mut m: usize = 0;
        while m < ms.len()
            invariant
                m <= ms@.len(),
                opts.len() == m as int,
                forall|q: int|
                    0 <= q < m as int ==> #[trigger] call_ensures(*combine, (p, ms@[q]), opts[q]),
                g@ == spec_collect_some(opts),
                ms@ == spec_matching(sub@, i as u64),
                i < parent@.len(),
                p == parent@[i as int],
                forall|k: int, v: u64|
                    0 <= k < parent@.len() && spec_matching(sub@, k as u64).contains(v)
                        ==> #[trigger] call_requires(*combine, (parent@[k], v)),
            decreases ms@.len() - m,
        {
            proof {
                assert(spec_matching(sub@, i as u64).contains(ms@[m as int])) by {
                    assert(spec_matching(sub@, i as u64)[m as int] == ms@[m as int]);
                }
            }
            let res = combine(p, ms[m]);
            let ghost gres = res;
            match res {
                Some(v) => g.push(v),
                None => (),
            }
            proof {
                let old_opts = opts;
                opts = opts.push(gres);
                assert(opts.drop_last() =~= old_opts);
                assert(g@ == spec_collect_some(opts));
            }
            m += 1;
        }
        let ghost gg = g@;
        out.append(&mut g);
        proof {
            let old_groups = groups;
            groups = groups.push(gg);
            assert(groups.drop_last() =~= old_groups);
            assert(combined_group(
                *combine,
                parent@[i as int],
                spec_matching(sub@, i as u64),
                gg,
            )) by {
                assert(opts.len() == spec_matching(sub@, i as u64).len() && (forall|j: int|
                    0 <= j < spec_matching(sub@, i as u64).len() ==> #[trigger] call_ensures(
                        *combine,
                        (parent@[i as int], spec_matching(sub@, i as u64)[j]),
                        opts[j],
                    )) && gg == spec_collect_some(opts));
            }
            assert(out@ == spec_flatten(groups));
        }
        i += 1;
    }
    Ok(out)
}

/// Delivers the values of a finished stream to the sink, stripping the
/// correlation tags in stream order.
pub fn sink_values(sub: &Vec<Tagged>) -> (out: Vec<u64>)
    ensures
        out@ == sub@.map_values(|t: Tagged| t.value),
{
    let mut out: Vec<u64> = Vec::new();
    let mut j: usize = 0;
    while j < sub.len()
        invariant
            j <= sub@.len(),
            out@ == sub@.take(j as int).map_values(|t: Tagged| t.value),
        decreases sub@.len() - j,
    {
        out.push(sub[j].value);
        proof {
            assert(sub@.take(j + 1).map_values(|t: Tagged| t.value) =~= sub@.take(
                j as int,
            ).map_values(|t: Tagged| t.value).push(sub@[j as int].value));
        }
        j += 1;
    }
    proof {
        assert(sub@.take(sub@.len() as int) =~= sub@);
    }
    out
}

} // verus!

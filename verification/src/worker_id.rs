//! Worker identity: who one worker is within one job, and the ordered
//! enumeration of a job's worker ranks used for broadcast and partition
//! addressing.

use vstd::prelude::*;
use vstd::std_specs::cmp::PartialEqSpec;

verus! {

/// Immutable identity of one worker within one job.
///
/// Equality is defined by `(job_id, index)` alone: `peers` and `trace_enable`
/// do not participate in identity comparisons.
#[derive(Copy, Clone, Hash, Debug)]
pub struct WorkerId {
    /// The sequence number of the job this worker belongs to.
    pub job_id: u64,
    /// The number of total worker peers this job consists of.
    pub peers: u32,
    /// The rank of this worker among all peers.
    pub index: u32,
    /// Whether trace-level diagnostics are enabled for this worker.
    pub trace_enable: bool,
}

impl PartialEq for WorkerId {
    fn eq(&self, other: &Self) -> (r: bool) {
        self.index == other.index && self.job_id == other.job_id
    }
}

impl Eq for WorkerId {}

impl vstd::std_specs::cmp::PartialEqSpecImpl for WorkerId {
    open spec fn obeys_eq_spec() -> bool {
        true
    }

    open spec fn eq_spec(&self, other: &WorkerId) -> bool {
        self.index == other.index && self.job_id == other.job_id
    }
}

impl WorkerId {
    /// Builds a worker identity. No validation is performed beyond the field
    /// types: callers must ensure `index < peers`; a violation is a logic
    /// error of the caller, not a reported failure.
    pub fn new(job_id: u64, peers: u32, index: u32, trace: bool) -> (r: WorkerId)
        ensures
            r == (WorkerId { job_id, peers, index, trace_enable: trace }),
    {
        WorkerId { job_id, peers, index, trace_enable: trace }
    }

    /// An enumeration of every peer of this worker's job, covering the whole
    /// rank range `[0, peers)` with this worker's trace setting.
    pub fn all_peers(&self) -> (r: WorkerIdIter)
        ensures
            r == (WorkerIdIter {
                job_id: self.job_id,
                peers: self.peers,
                trace_enable: self.trace_enable,
                cursor: 0,
                last: self.peers,
            }),
    {
        WorkerIdIter {
            job_id: self.job_id,
            peers: self.peers,
            cursor: 0,
            trace_enable: self.trace_enable,
            last: self.peers,
        }
    }
}

/// The ordered sequence of worker identities with ranks in `[start, last)`,
/// as an enumeration over that range emits them.
pub open spec fn worker_id_seq(job_id: u64, peers: u32, trace: bool, start: u32, last: u32) -> Seq<
    WorkerId,
> {
    if start <= last {
        Seq::new(
            (last - start) as nat,
            |i: int| WorkerId { job_id, peers, index: (start + i) as u32, trace_enable: trace },
        )
    } else {
        Seq::empty()
    }
}

/// Produces the worker identities of one job over a contiguous rank range,
/// in rank order. Once exhausted it stays empty: the sequence is not
/// restartable.
pub struct WorkerIdIter {
    /// Job whose ranks are enumerated.
    pub job_id: u64,
    /// Total worker count recorded in every emitted identity.
    pub peers: u32,
    /// Trace setting recorded in every subsequently emitted identity.
    pub trace_enable: bool,
    /// Next rank to emit.
    pub cursor: u32,
    /// Exclusive upper bound of the range.
    pub last: u32,
}

impl WorkerIdIter {
    /// The identities this enumeration has yet to emit.
    pub open spec fn remaining(self) -> Seq<WorkerId> {
        worker_id_seq(self.job_id, self.peers, self.trace_enable, self.cursor, self.last)
    }

    /// Builds an enumeration over the rank range `[start, last)`. The range is
    /// not validated here: callers choose ranges within the job's rank space.
    pub fn new(job_id: u64, peers: u32, start: u32, last: u32) -> (r: WorkerIdIter)
        ensures
            r == (WorkerIdIter { job_id, peers, trace_enable: false, cursor: start, last }),
    {
        WorkerIdIter { job_id, peers, trace_enable: false, cursor: start, last }
    }

    /// Turns tracing on for every identity emitted from now on; identities
    /// already emitted are unaffected.
    pub fn enable_trace(&mut self)
        ensures
            *final(self) == (WorkerIdIter { trace_enable: true, ..*old(self) }),
    {
        self.trace_enable = true;
    }

    /// Emits the identity at the cursor and advances, or reports exhaustion
    /// once the cursor has reached the end of the range.
    pub fn next(&mut self) -> (r: Option<WorkerId>)
        requires
            old(self).cursor <= old(self).last,
        ensures
            old(self).cursor == old(self).last ==> r is None && *final(self) == *old(self),
            old(self).cursor < old(self).last ==> {
                &&& r == Some(
                    WorkerId {
                        job_id: old(self).job_id,
                        peers: old(self).peers,
                        index: old(self).cursor,
                        trace_enable: old(self).trace_enable,
                    },
                )
                &&& *final(self) == (WorkerIdIter {
                    cursor: (old(self).cursor + 1) as u32,
                    ..*old(self)
                })
            },
            final(self).remaining() == old(self).remaining().skip(r is Some as int),
    {
        if self.cursor == self.last {
            proof {
                assert(final(self).remaining() =~= old(self).remaining().skip(0));
            }
            None
        } else {
            let next = WorkerId::new(self.job_id, self.peers, self.cursor, self.trace_enable);
            self.cursor += 1;
            proof {
                assert(final(self).remaining() =~= old(self).remaining().skip(1));
            }
            Some(next)
        }
    }
}

/// Law: for any job, any `peers > 0` and any range `0 <= start <= last <= peers`,
/// enumerating the range yields exactly `last - start` identities whose ranks
/// increase strictly from `start` to `last - 1`, each carrying the job id,
/// peer count and trace setting it was built from.
pub proof fn lemma_worker_id_iter_yields(job_id: u64, peers: u32, trace: bool, start: u32, last: u32)
    requires
        peers > 0,
        start <= last <= peers,
    ensures
        worker_id_seq(job_id, peers, trace, start, last).len() == last - start,
        forall|i: int|
            0 <= i < last - start ==> #[trigger] worker_id_seq(job_id, peers, trace, start, last)[i]
                == (WorkerId { job_id, peers, index: (start + i) as u32, trace_enable: trace }),
        forall|i: int, j: int|
            0 <= i < j < last - start ==> worker_id_seq(job_id, peers, trace, start, last)[i].index
                < worker_id_seq(job_id, peers, trace, start, last)[j].index,
{
}

/// Law: two worker identities of the same job and rank are equal under the
/// executable equality even when built with different peer counts or trace
/// flags: `peers` and `trace_enable` are excluded from identity.
pub proof fn lemma_eq_ignores_peers_and_trace(
    job_id: u64,
    index: u32,
    peers1: u32,
    peers2: u32,
    trace1: bool,
    trace2: bool,
)
    ensures
        (WorkerId {
            job_id,
            peers: peers1,
            index,
            trace_enable: trace1,
        }).eq_spec(
            &(WorkerId { job_id, peers: peers2, index, trace_enable: trace2 }),
        ),
{
}

} // verus!

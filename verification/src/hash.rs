//! Driving a stream adapter to exhaustion and digesting what it delivers.
//!
//! This is the generic chunked-read loop that consumes the adapter's
//! poll-based interface: poll until ready, feed each produced chunk in order
//! into the digest accumulator, stop at the first zero-byte read, and surface
//! any failure to the caller without retrying. The cooperative scheduler is
//! represented by a step budget, so the loop also ends if the source keeps
//! asking to be polled again for longer than the budget allows.

use vstd::prelude::*;

use crate::adapter::PollOutcome;
use crate::adapter::StreamAdapter;
use crate::digest::sha3_256_of;
use crate::digest::DigestAccumulator;
use crate::source::ByteSource;
use crate::source::ReadResult;
use crate::source::SourceError;

verus! {

/// How hashing a source ended: with the digest of its whole stream, with the
/// failure the source reported (hashing never retries on its own — that
/// decision belongs to the caller), or with the step budget exhausted before
/// the source ran dry.
#[derive(Debug)]
pub enum HashOutcome {
    Digest(Vec<u8>),
    SourceFailure(SourceError),
    Starved,
}

/// Read `source` to exhaustion through a [`StreamAdapter`] in chunks of
/// `chunk_size` bytes and digest everything it delivers, spending at most
/// `budget` scheduling steps.
///
/// A digest is returned only for the whole stream: exactly the bytes the
/// source produces, in order. A source that cannot fail never produces a
/// `SourceFailure` outcome.
#[verifier::loop_isolation(false)]
pub fn hash_source<S: ByteSource>(source: S, chunk_size: usize, budget: u64) -> (r: HashOutcome)
    requires
        source.wf(),
        source.consumed() == 0,
        chunk_size >= 1,
    ensures
        match r {
            HashOutcome::Digest(d) => {
                &&& d@ == sha3_256_of(source.stream())
                &&& d@.len() == 32
            },
            HashOutcome::SourceFailure(_) => source.can_fail(),
            HashOutcome::Starved => true,
        },
{
    let ghost stream = source.stream();
    let ghost could_fail = source.can_fail();
    let mut adapter = StreamAdapter::new(source);
    let mut acc = DigestAccumulator::new();
    let mut out: Vec<u8> = vec![0u8; chunk_size];
    let mut fuel: u64 = budget;
    proof {
        crate::adapter::lemma_wf_excludes_transitional(adapter);
    }
    while fuel > 0
        invariant
            adapter.wf(),
            adapter.stream() == stream,
            adapter.can_fail() ==> could_fail,
            adapter.in_progress() ==> adapter.pending_request() == chunk_size,
            !adapter.in_progress() ==> adapter.pending_request() == 0,
            out@.len() == chunk_size,
            chunk_size >= 1,
            acc.absorbed() == stream.take(adapter.consumed() as int),
        decreases fuel,
    {
        fuel = fuel - 1;
        proof {
            crate::adapter::lemma_wf_excludes_transitional(adapter);
        }
        match adapter.poll_read(&mut out) {
            PollOutcome::Pending => {},
            PollOutcome::Ready(ReadResult::Produced(n)) => {
                if n == 0 {
                    proof {
                        assert(acc.absorbed() =~= stream);
                    }
                    return HashOutcome::Digest(acc.finalize());
                }
                acc.update(&out, n);
                proof {
                    crate::adapter::lemma_wf_excludes_transitional(adapter);
                    assert(acc.absorbed() =~= stream.take(adapter.consumed() as int));
                }
            },
            PollOutcome::Ready(ReadResult::Failed(e)) => {
                return HashOutcome::SourceFailure(e);
            },
        }
    }
    HashOutcome::Starved
}

} // verus!

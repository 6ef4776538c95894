//! The stream adapter: a bridge from suspend/resume-style read attempts to a
//! conventional poll-based stream interface.
//!
//! The adapter owns a [`ByteSource`] and an internal buffer. A call to
//! [`StreamAdapter::poll_read`] either starts a fresh read attempt (when the
//! adapter is idle) or resumes the attempt already in flight; it never
//! restarts an attempt that is underway, so no byte is duplicated or lost.
//! While a transition is being computed the state slot holds a placeholder
//! variant, so the slot is always legally inhabited even in the instant both
//! resources have been moved out of it.

use vstd::prelude::*;

use crate::source::ByteSource;
use crate::source::ReadResult;
use crate::source::SourceStep;

verus! {

/// A read attempt in flight: it owns the source and the internal buffer and
/// yields both back, together with the attempt's result, once it completes.
pub struct PendingRead<S> {
    source: S,
    buf: Vec<u8>,
}

/// What one scheduling step of a [`PendingRead`] produced: either the attempt
/// is still underway (and still owns its resources), or it completed and
/// hands source, buffer and result back to the caller.
pub enum StepResult<S> {
    NotReady(PendingRead<S>),
    Complete(S, Vec<u8>, ReadResult),
}

impl<S: ByteSource> PendingRead<S> {
    /// The stream of the captured source.
    pub closed spec fn stream(&self) -> Seq<u8> {
        self.source.stream()
    }

    /// How many bytes the captured source has produced so far.
    pub closed spec fn consumed(&self) -> nat {
        self.source.consumed()
    }

    /// Whether the captured source may still fail.
    pub closed spec fn can_fail(&self) -> bool {
        self.source.can_fail()
    }

    /// How many bytes this attempt asked for: the buffer it was started with.
    pub closed spec fn request(&self) -> nat {
        self.buf@.len()
    }

    pub closed spec fn wf(&self) -> bool {
        self.source.wf()
    }

    /// Start a read attempt: capture the source and the buffer to fill.
    pub fn begin(source: S, buf: Vec<u8>) -> (p: Self)
        ensures
            p.wf() == source.wf(),
            p.stream() == source.stream(),
            p.consumed() == source.consumed(),
            p.can_fail() == source.can_fail(),
            p.request() == buf@.len(),
    {
        PendingRead { source, buf }
    }

    /// Advance the attempt by one scheduling step. Completion yields the
    /// source, the buffer (whose front now holds the produced bytes) and the
    /// result; an attempt that is not ready yet keeps everything captured and
    /// has consumed nothing.
    pub fn step(self) -> (r: StepResult<S>)
        requires
            self.wf(),
        ensures
            match r {
                StepResult::NotReady(p) => {
                    &&& p.wf()
                    &&& p.stream() == self.stream()
                    &&& p.consumed() == self.consumed()
                    &&& p.request() == self.request()
                    &&& p.can_fail() ==> self.can_fail()
                },
                StepResult::Complete(source, buf, result) => {
                    &&& source.wf()
                    &&& source.stream() == self.stream()
                    &&& source.consumed() <= source.stream().len()
                    &&& source.can_fail() ==> self.can_fail()
                    &&& buf@.len() == self.request()
                    &&& match result {
                        ReadResult::Produced(n) => {
                            &&& n <= self.request()
                            &&& self.consumed() + n <= self.stream().len()
                            &&& source.consumed() == self.consumed() + n
                            &&& buf@.subrange(0, n as int) == self.stream().subrange(
                                self.consumed() as int,
                                self.consumed() + n as int,
                            )
                            &&& (n == 0 <==> (self.request() == 0 || self.consumed()
                                == self.stream().len()))
                        },
                        ReadResult::Failed(_) => {
                            &&& self.can_fail()
                            &&& source.consumed() == self.consumed()
                        },
                    }
                },
            },
    {
        let PendingRead { mut source, mut buf } = self;
        match source.poll_once(&mut buf) {
            SourceStep::NotReady => StepResult::NotReady(PendingRead { source, buf }),
            SourceStep::Done(result) => {
                proof {
                    if let ReadResult::Produced(n) = result {
                        assert(buf@.subrange(0, n as int) =~= source.stream().subrange(
                            self.consumed() as int,
                            self.consumed() + n as int,
                        ));
                    }
                }
                StepResult::Complete(source, buf, result)
            },
        }
    }
}

/// The adapter's state slot: exactly one variant is active at a time. While a
/// transition is computed the slot holds `Transitional`, a placeholder that no
/// completed call ever leaves behind.
pub enum AdapterState<S> {
    Idle(S, Vec<u8>),
    InProgress(PendingRead<S>),
    Transitional,
}

/// What a poll of the adapter reports to its caller: a completed read result,
/// or a request to poll again once the source has made progress.
#[derive(Clone, Copy, Debug, PartialEq, Eq, Structural)]
pub enum PollOutcome {
    Ready(ReadResult),
    Pending,
}

/// The stream adapter itself: a [`ByteSource`] behind a poll-based interface.
pub struct StreamAdapter<S> {
    state: AdapterState<S>,
}

impl<S: ByteSource> StreamAdapter<S> {
    /// The adapter is idle: no read attempt is in flight.
    pub closed spec fn idle(&self) -> bool {
        self.state is Idle
    }

    /// A read attempt is in flight.
    pub closed spec fn in_progress(&self) -> bool {
        self.state is InProgress
    }

    /// The state slot holds the placeholder. No adapter a caller can observe
    /// is ever in this state; see [`lemma_wf_excludes_transitional`].
    pub closed spec fn transitional(&self) -> bool {
        self.state is Transitional
    }

    /// The stream of the owned source, wherever it currently sits.
    pub closed spec fn stream(&self) -> Seq<u8> {
        match self.state {
            AdapterState::Idle(source, _) => source.stream(),
            AdapterState::InProgress(op) => op.stream(),
            AdapterState::Transitional => Seq::empty(),
        }
    }

    /// How many bytes of the stream have been delivered to callers so far.
    pub closed spec fn consumed(&self) -> nat {
        match self.state {
            AdapterState::Idle(source, _) => source.consumed(),
            AdapterState::InProgress(op) => op.consumed(),
            AdapterState::Transitional => 0,
        }
    }

    /// Whether the owned source may still fail.
    pub closed spec fn can_fail(&self) -> bool {
        match self.state {
            AdapterState::Idle(source, _) => source.can_fail(),
            AdapterState::InProgress(op) => op.can_fail(),
            AdapterState::Transitional => false,
        }
    }

    /// The length the read attempt in flight was started with; zero while no
    /// attempt is in flight.
    pub closed spec fn pending_request(&self) -> nat {
        match self.state {
            AdapterState::InProgress(op) => op.request(),
            _ => 0,
        }
    }

    /// The contents of the internal buffer; meaningful only while `idle()`.
    /// After a successful cycle it holds exactly the bytes just delivered,
    /// after a failed cycle it is empty.
    pub closed spec fn idle_buffer(&self) -> Seq<u8> {
        match self.state {
            AdapterState::Idle(_, buf) => buf@,
            _ => Seq::empty(),
        }
    }

    /// Well-formed adapters are idle or in progress — never transitional —
    /// and own a well-formed source.
    pub closed spec fn wf(&self) -> bool {
        match self.state {
            AdapterState::Idle(source, _) => source.wf() && source.consumed()
                <= source.stream().len(),
            AdapterState::InProgress(op) => op.wf() && op.consumed() <= op.stream().len(),
            AdapterState::Transitional => false,
        }
    }

    /// Wrap a freshly opened source; the adapter starts out idle with an
    /// empty internal buffer.
    pub fn new(source: S) -> (a: Self)
        requires
            source.wf(),
            source.consumed() <= source.stream().len(),
        ensures
            a.wf(),
            a.idle(),
            a.stream() == source.stream(),
            a.consumed() == source.consumed(),
            a.can_fail() == source.can_fail(),
            a.idle_buffer() == Seq::<u8>::empty(),
            a.pending_request() == 0,
    {
        StreamAdapter { state: AdapterState::Idle(source, Vec::new()) }
    }

    /// Whether the adapter is idle right now.
    pub fn is_idle(&self) -> (r: bool)
        ensures
            r == self.idle(),
    {
        match &self.state {
            AdapterState::Idle(_, _) => true,
            _ => false,
        }
    }

    /// Whether a read attempt is in flight right now.
    pub fn is_in_progress(&self) -> (r: bool)
        ensures
            r == self.in_progress(),
    {
        match &self.state {
            AdapterState::InProgress(_) => true,
            _ => false,
        }
    }

    /// Poll the stream for bytes.
    ///
    /// When the adapter is idle this starts a fresh read attempt sized to
    /// `out`; when an attempt is in flight it resumes that attempt instead of
    /// restarting it. Either way the attempt advances by exactly one
    /// scheduling step. If it completes, the produced bytes — the next bytes
    /// of the source's stream, in order — are copied into the front of `out`,
    /// the internal buffer is truncated to exactly those bytes (to none on
    /// failure, so no partial data survives an error) and the adapter returns
    /// to idle; otherwise the caller is asked to poll again later.
    ///
    /// A zero-length `out` is well-defined: the attempt is delegated to the
    /// source, which completes it with zero bytes; such a read says nothing
    /// about end-of-data. A caller that shrinks `out` between the polls of
    /// one attempt would leave no room for the bytes the attempt was started
    /// for; the precondition keeps `out` at least as long as the request in
    /// flight.
    pub fn poll_read(&mut self, out: &mut Vec<u8>) -> (r: PollOutcome)
        requires
            old(self).wf(),
            old(self).pending_request() <= old(out)@.len(),
        ensures
            final(self).wf(),
            final(self).stream() == old(self).stream(),
            final(self).can_fail() ==> old(self).can_fail(),
            final(out)@.len() == old(out)@.len(),
            r is Pending <==> final(self).in_progress(),
            !(r is Pending) ==> final(self).pending_request() == 0,
            match r {
                PollOutcome::Pending => {
                    &&& final(self).in_progress()
                    &&& final(self).consumed() == old(self).consumed()
                    &&& final(out)@ == old(out)@
                    &&& final(self).pending_request() == requested(*old(self), old(out)@.len())
                },
                PollOutcome::Ready(ReadResult::Produced(n)) => {
                    &&& n <= old(out)@.len()
                    &&& success_cycle(*old(self), *final(self), final(out)@.take(n as int))
                    &&& final(out)@.skip(n as int) == old(out)@.skip(n as int)
                    &&& (n == 0 <==> (requested(*old(self), old(out)@.len()) == 0 || old(
                        self,
                    ).consumed() == old(self).stream().len()))
                },
                PollOutcome::Ready(ReadResult::Failed(_)) => {
                    &&& old(self).can_fail()
                    &&& error_cycle(*old(self), *final(self))
                    &&& final(out)@ == old(out)@
                },
            },
    {
        let ghost pre = *self;
        let mut state = AdapterState::Transitional;
        core::mem::swap(&mut self.state, &mut state);
        let op = match state {
            AdapterState::Idle(source, mut internal_buf) => {
                internal_buf.clear();
                internal_buf.resize(out.len(), 0u8);
                PendingRead::begin(source, internal_buf)
            },
            AdapterState::InProgress(op) => op,
            AdapterState::Transitional => vstd::pervasive::unreached(),
        };
        match op.step() {
            StepResult::NotReady(op) => {
                self.state = AdapterState::InProgress(op);
                PollOutcome::Pending
            },
            StepResult::Complete(source, mut internal_buf, result) => {
                let n: usize = match result {
                    ReadResult::Produced(n) => n,
                    ReadResult::Failed(_) => 0,
                };
                let ghost out0 = out@;
                let mut i: usize = 0;
                while i < n
                    invariant
                        i <= n,
                        n <= internal_buf@.len(),
                        n <= out0.len(),
                        out@.len() == out0.len(),
                        forall|j: int| 0 <= j < i ==> out@[j] == internal_buf@[j],
                        forall|j: int| i <= j < out0.len() ==> out@[j] == out0[j],
                    decreases n - i,
                {
                    let b = internal_buf[i];
                    out[i] = b;
                    i = i + 1;
                }
                internal_buf.truncate(n);
                proof {
                    assert(internal_buf@ =~= out@.take(n as int));
                    assert(out@.skip(n as int) =~= out0.skip(n as int));
                    if let ReadResult::Produced(_) = result {
                        assert(out@.take(n as int) =~= pre.stream().subrange(
                            pre.consumed() as int,
                            (pre.consumed() + n) as int,
                        ));
                    } else {
                        assert(internal_buf@ =~= Seq::<u8>::empty());
                    }
                }
                self.state = AdapterState::Idle(source, internal_buf);
                PollOutcome::Ready(result)
            },
        }
    }
}

/// The length a poll call asks the source for: the output buffer's length
/// when the adapter is idle, and the length of the attempt already in flight
/// otherwise.
pub open spec fn requested<S: ByteSource>(pre: StreamAdapter<S>, out_len: nat) -> nat {
    if pre.idle() {
        out_len
    } else {
        pre.pending_request()
    }
}

/// One completed, successful poll cycle: the adapter went back to idle having
/// delivered `delivered`, which is exactly the next bytes of the stream after
/// the position reached before the cycle, and its internal buffer holds
/// exactly those bytes.
pub open spec fn success_cycle<S: ByteSource>(
    pre: StreamAdapter<S>,
    post: StreamAdapter<S>,
    delivered: Seq<u8>,
) -> bool {
    &&& post.idle()
    &&& post.stream() == pre.stream()
    &&& pre.consumed() + delivered.len() <= pre.stream().len()
    &&& delivered == pre.stream().subrange(
        pre.consumed() as int,
        (pre.consumed() + delivered.len()) as int,
    )
    &&& post.consumed() == pre.consumed() + delivered.len()
    &&& post.idle_buffer() == delivered
}

/// One completed poll cycle that reported a failure: the adapter went back to
/// idle, the position in the stream is unchanged and the internal buffer
/// keeps no partial bytes.
pub open spec fn error_cycle<S: ByteSource>(pre: StreamAdapter<S>, post: StreamAdapter<S>) -> bool {
    &&& post.idle()
    &&& post.stream() == pre.stream()
    &&& post.consumed() == pre.consumed()
    &&& post.idle_buffer() == Seq::<u8>::empty()
}

/// A well-formed adapter is idle or in progress, never transitional: the
/// placeholder state is never observed by a caller, since every operation
/// both assumes and re-establishes well-formedness.
pub proof fn lemma_wf_excludes_transitional<S: ByteSource>(a: StreamAdapter<S>)
    requires
        a.wf(),
    ensures
        !a.transitional(),
        a.idle() || a.in_progress(),
        !(a.idle() && a.in_progress()),
{
}

/// Two successful cycles in a row deliver adjacent segments of the stream:
/// their concatenation is exactly the stream's next `d1.len() + d2.len()`
/// bytes, in order, with nothing lost, duplicated or reordered in between.
pub proof fn lemma_successive_deliveries_in_order<S: ByteSource>(
    s0: StreamAdapter<S>,
    s1: StreamAdapter<S>,
    s2: StreamAdapter<S>,
    d1: Seq<u8>,
    d2: Seq<u8>,
)
    requires
        success_cycle(s0, s1, d1),
        success_cycle(s1, s2, d2),
    ensures
        d1 + d2 == s0.stream().subrange(
            s0.consumed() as int,
            (s0.consumed() + d1.len() + d2.len()) as int,
        ),
{
    assert(d1 + d2 =~= s0.stream().subrange(
        s0.consumed() as int,
        (s0.consumed() + d1.len() + d2.len()) as int,
    ));
}

/// A failed cycle loses nothing: a successful cycle right after it delivers
/// exactly the bytes that come after the position reached before the error,
/// so no byte is skipped and none is replayed twice.
pub proof fn lemma_error_then_success_no_loss<S: ByteSource>(
    s0: StreamAdapter<S>,
    s1: StreamAdapter<S>,
    s2: StreamAdapter<S>,
    delivered: Seq<u8>,
)
    requires
        error_cycle(s0, s1),
        success_cycle(s1, s2, delivered),
    ensures
        delivered == s0.stream().subrange(
            s0.consumed() as int,
            (s0.consumed() + delivered.len()) as int,
        ),
{
}

} // verus!

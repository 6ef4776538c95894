//! Byte sources: the suspendable read operations that the stream adapter drives.
//!
//! A [`ByteSource`] makes one read attempt at a time. An attempt may report
//! that it is not ready yet, in which case nothing has been consumed and the
//! caller retries later; once it completes it either produced a prefix of the
//! caller's buffer or failed. The source owns its position in a fixed stream
//! of bytes, so every byte is delivered exactly once and in order.

use vstd::prelude::*;

verus! {

/// A failure reported by a byte source, identified by a plain numeric code so
/// that callers can carry it around and compare it without further machinery.
#[derive(Clone, Copy, Debug, PartialEq, Eq, Structural)]
pub struct SourceError {
    pub code: u64,
}

/// What a completed read attempt yielded: a count of bytes produced (where 0
/// signals end-of-data whenever the buffer had room), or a failure.
#[derive(Clone, Copy, Debug, PartialEq, Eq, Structural)]
pub enum ReadResult {
    Produced(usize),
    Failed(SourceError),
}

/// One scheduling step of a read attempt: either the attempt has not finished
/// yet, or it completed with a [`ReadResult`].
#[derive(Clone, Copy, Debug, PartialEq, Eq, Structural)]
pub enum SourceStep {
    NotReady,
    Done(ReadResult),
}

/// A resource that produces bytes into a caller-supplied buffer, one attempt
/// at a time, without blocking: an attempt that cannot finish yet answers
/// [`SourceStep::NotReady`] and consumes nothing.
///
/// The specification models a source as a fixed stream of bytes together with
/// a count of how many of them have been handed out so far. A completed
/// attempt delivers the next bytes of the stream into the front of the buffer;
/// a failed attempt consumes nothing, so a later attempt resumes at the same
/// position. `can_fail` bounds failure: once it is false, no attempt on this
/// source ever fails again.
pub trait ByteSource: Sized {
    /// The whole sequence of bytes this source will ever produce, in order.
    /// The default is the empty stream; verified sources give their own.
    open spec fn stream(&self) -> Seq<u8> {
        Seq::empty()
    }

    /// How many bytes of the stream have been produced so far.
    open spec fn consumed(&self) -> nat {
        0
    }

    /// Whether some future attempt on this source may still fail.
    open spec fn can_fail(&self) -> bool {
        true
    }

    /// Internal well-formedness; established by constructors and preserved by
    /// every attempt.
    open spec fn wf(&self) -> bool {
        true
    }

    /// Make one scheduling step of a read attempt into `buf`.
    fn poll_once(&mut self, buf: &mut Vec<u8>) -> (r: SourceStep)
        requires
            old(self).wf(),
        ensures
            final(self).wf(),
            final(self).stream() == old(self).stream(),
            final(self).consumed() <= final(self).stream().len(),
            final(self).can_fail() ==> old(self).can_fail(),
            final(buf)@.len() == old(buf)@.len(),
            match r {
                SourceStep::NotReady => {
                    &&& final(self).consumed() == old(self).consumed()
                    &&& final(buf)@ == old(buf)@
                },
                SourceStep::Done(ReadResult::Produced(n)) => {
                    &&& n <= old(buf)@.len()
                    &&& old(self).consumed() + n <= final(self).stream().len()
                    &&& final(self).consumed() == old(self).consumed() + n
                    &&& final(buf)@ == final(self).stream().subrange(
                        old(self).consumed() as int,
                        old(self).consumed() + n as int,
                    ) + old(buf)@.skip(n as int)
                    &&& (n == 0 <==> (old(buf)@.len() == 0 || old(self).consumed()
                        == final(self).stream().len()))
                },
                SourceStep::Done(ReadResult::Failed(_)) => {
                    &&& old(self).can_fail()
                    &&& final(self).consumed() == old(self).consumed()
                },
            },
    ;
}

/// A deterministic source over a fixed byte vector, for driving the adapter
/// without real input. Each attempt first answers [`SourceStep::NotReady`] a
/// configured number of times, then completes; the first few completions can
/// be made to fail, after which the source produces bytes normally. One
/// completion hands out at most `max_chunk` bytes, so a short chunk limit
/// spreads the data over several attempts.
pub struct ScriptedSource {
    data: Vec<u8>,
    pos: usize,
    delay: u64,
    waited: u64,
    max_chunk: usize,
    failures: u64,
    fail_code: u64,
}

impl ScriptedSource {
    /// A source that never fails: it delivers `data`, pausing `delay` steps
    /// before each completion and producing at most `max_chunk` bytes at once.
    pub fn new(data: Vec<u8>, delay: u64, max_chunk: usize) -> (s: Self)
        requires
            max_chunk >= 1,
        ensures
            s.wf(),
            s.stream() == data@,
            s.consumed() == 0,
            !s.can_fail(),
    {
        ScriptedSource { data, pos: 0, delay, waited: 0, max_chunk, failures: 0, fail_code: 0 }
    }

    /// Like [`ScriptedSource::new`], but the first `failures` completions fail
    /// with `fail_code` before any byte is produced.
    pub fn failing(data: Vec<u8>, delay: u64, max_chunk: usize, failures: u64, fail_code: u64) -> (s:
        Self)
        requires
            max_chunk >= 1,
        ensures
            s.wf(),
            s.stream() == data@,
            s.consumed() == 0,
            s.can_fail() == (failures > 0),
    {
        ScriptedSource { data, pos: 0, delay, waited: 0, max_chunk, failures, fail_code }
    }
}

impl ByteSource for ScriptedSource {
    closed spec fn stream(&self) -> Seq<u8> {
        self.data@
    }

    closed spec fn consumed(&self) -> nat {
        self.pos as nat
    }

    closed spec fn can_fail(&self) -> bool {
        self.failures > 0
    }

    closed spec fn wf(&self) -> bool {
        self.pos <= self.data.len() && self.max_chunk >= 1
    }

    fn poll_once(&mut self, buf: &mut Vec<u8>) -> (r: SourceStep) {
        if self.waited < self.delay {
            self.waited = self.waited + 1;
            return SourceStep::NotReady;
        }
        self.waited = 0;
        if self.failures > 0 {
            self.failures = self.failures - 1;
            return SourceStep::Done(ReadResult::Failed(SourceError { code: self.fail_code }));
        }
        let mut n: usize = self.data.len() - self.pos;
        if buf.len() < n {
            n = buf.len();
        }
        if self.max_chunk < n {
            n = self.max_chunk;
        }
        let ghost buf0 = buf@;
        let mut i: usize = 0;
        while i < n
            invariant
                i <= n,
                n <= buf0.len(),
                self.pos + n <= self.data.len(),
                buf@.len() == buf0.len(),
                forall|j: int| 0 <= j < i ==> buf@[j] == self.data@[self.pos + j],
                forall|j: int| i <= j < buf0.len() ==> buf@[j] == buf0[j],
            decreases n - i,
        {
            let b = self.data[self.pos + i];
            buf[i] = b;
            i = i + 1;
        }
        proof {
            assert(buf@ =~= self.data@.subrange(self.pos as int, self.pos + n as int)
                + buf0.skip(n as int));
        }
        self.pos = self.pos + n;
        SourceStep::Done(ReadResult::Produced(n))
    }
}

} // verus!

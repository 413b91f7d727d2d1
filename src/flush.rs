//! The buffering and flush controller: gathers resampled audio and hands it
//! on, whole, when told to stop or when it reaches the recording timeout.

use vstd::prelude::*;
use crate::messages::CaptureMsg;

verus! {

/// Sample rate of the audio that the controller gathers, in samples per second.
pub const TARGET_SAMPLE_RATE: usize = 16_000;

/// What the controller does with one message.
#[derive(Debug)]
pub enum FlushStep<S> {
    /// Nothing is handed on.
    Continue,
    /// A stop was asked for: these samples go to transcription.
    Flush(Vec<S>),
    /// The buffer reached its limit: these samples go to transcription, and
    /// the recording flag is to be cleared.
    TimeoutFlush(Vec<S>),
    /// The source has ended: so does the controller.
    Exit,
}

impl<S> FlushStep<S> {
    /// The samples that the step hands on, if any.
    pub open spec fn flushed(self) -> Option<Seq<S>> {
        match self {
            FlushStep::Flush(v) => Some(v@),
            FlushStep::TimeoutFlush(v) => Some(v@),
            _ => None,
        }
    }
}

/// Buffer and flushed samples after a block of audio arrives.
pub open spec fn audio_step<S>(buf: Seq<S>, max: nat, block: Seq<S>) -> (Seq<S>, Option<Seq<S>>) {
    let joined = buf + block;
    if joined.len() >= max {
        (Seq::empty(), Some(joined))
    } else {
        (joined, None)
    }
}

/// Buffer and flushed samples after a stop arrives.
pub open spec fn stop_step<S>(buf: Seq<S>) -> (Seq<S>, Option<Seq<S>>) {
    if buf.len() > 0 {
        (Seq::empty(), Some(buf))
    } else {
        (buf, None)
    }
}

/// The samples of a sequence of blocks, one after another.
pub open spec fn concat_all<S>(blocks: Seq<Seq<S>>) -> Seq<S>
    decreases blocks.len(),
{
    if blocks.len() == 0 {
        Seq::empty()
    } else {
        concat_all(blocks.drop_last()) + blocks.last()
    }
}

/// Feeding blocks of audio, and nothing else, from buffer `buf`: the final
/// buffer, the flushes in order, and whether any of them cleared the
/// recording flag.
pub open spec fn feed<S>(buf: Seq<S>, max: nat, blocks: Seq<Seq<S>>) -> (Seq<S>, Seq<Seq<S>>, bool)
    decreases blocks.len(),
{
    if blocks.len() == 0 {
        (buf, Seq::empty(), false)
    } else {
        let prev = feed(buf, max, blocks.drop_last());
        let next = audio_step(prev.0, max, blocks.last());
        match next.1 {
            Some(f) => (next.0, prev.1.push(f), true),
            None => (next.0, prev.1, prev.2),
        }
    }
}

/// Every block of a sequence of flushes at least `max` samples long makes
/// the whole at least that many times `max` long.
proof fn lemma_concat_len_lower<S>(flushes: Seq<Seq<S>>, max: nat)
    requires
        forall|i: int| 0 <= i < flushes.len() ==> #[trigger] flushes[i].len() >= max,
    ensures
        concat_all(flushes).len() >= flushes.len() * max,
    decreases flushes.len(),
{
    if flushes.len() > 0 {
        let init = flushes.drop_last();
        assert forall|i: int| 0 <= i < init.len() implies #[trigger] init[i].len() >= max by {
            assert(init[i] == flushes[i]);
        }
        lemma_concat_len_lower(init, max);
        let n = flushes.len();
        assert((n - 1) * max + max == n * max) by (nonlinear_arith);
    }
}

/// Feeding audio keeps every sample, in order: the flushes followed by the
/// final buffer are the starting buffer followed by the blocks. Every flush
/// holds at least the limit, and the final buffer stays below it.
pub proof fn lemma_feed_keeps_samples<S>(buf: Seq<S>, max: nat, blocks: Seq<Seq<S>>)
    requires
        buf.len() < max || buf.len() == 0,
    ensures
        concat_all(feed(buf, max, blocks).1) + feed(buf, max, blocks).0 == buf + concat_all(
            blocks,
        ),
        forall|i: int|
            0 <= i < feed(buf, max, blocks).1.len() ==> #[trigger] feed(buf, max, blocks).1[i].len()
                >= max,
        feed(buf, max, blocks).0.len() < max || feed(buf, max, blocks).0.len() == 0,
        feed(buf, max, blocks).2 <==> feed(buf, max, blocks).1.len() > 0,
    decreases blocks.len(),
{
    if blocks.len() > 0 {
        let init = blocks.drop_last();
        lemma_feed_keeps_samples(buf, max, init);
        let prev = feed(buf, max, init);
        let next = audio_step(prev.0, max, blocks.last());
        let cur = feed(buf, max, blocks);
        assert(concat_all(blocks) == concat_all(init) + blocks.last());
        match next.1 {
            Some(f) => {
                assert(cur.1.drop_last() == prev.1);
                assert(concat_all(cur.1) == concat_all(prev.1) + f);
                assert(concat_all(prev.1) + (prev.0 + blocks.last()) =~= (concat_all(prev.1)
                    + prev.0) + blocks.last());
                assert(buf + (concat_all(init) + blocks.last()) =~= (buf + concat_all(init))
                    + blocks.last());
                assert(concat_all(cur.1) + cur.0 =~= buf + concat_all(blocks));
                assert forall|i: int| 0 <= i < cur.1.len() implies #[trigger] cur.1[i].len()
                    >= max by {
                    if i < prev.1.len() {
                        assert(cur.1[i] == prev.1[i]);
                    }
                }
            },
            None => {
                assert(concat_all(prev.1) + (prev.0 + blocks.last()) =~= (concat_all(prev.1)
                    + prev.0) + blocks.last());
                assert(buf + (concat_all(init) + blocks.last()) =~= (buf + concat_all(init))
                    + blocks.last());
                assert(concat_all(cur.1) + cur.0 =~= buf + concat_all(blocks));
            },
        }
    }
}

/// A recording that reaches the limit is flushed and stopped without any
/// stop being asked for: once the blocks fed hold the limit's worth of
/// samples, at least one flush has happened and the recording flag has been
/// cleared; while they hold less than twice the limit (counting what was
/// buffered), exactly one flush has happened, and it holds the limit.
pub proof fn lemma_timeout_flush<S>(buf: Seq<S>, max: nat, blocks: Seq<Seq<S>>)
    requires
        max > 0,
        buf.len() < max,
        concat_all(blocks).len() >= max,
    ensures
        feed(buf, max, blocks).1.len() >= 1,
        feed(buf, max, blocks).2,
        buf.len() + concat_all(blocks).len() < 2 * max ==> feed(buf, max, blocks).1.len() == 1
            && feed(buf, max, blocks).1[0].len() >= max,
{
    lemma_feed_keeps_samples(buf, max, blocks);
    let out = feed(buf, max, blocks);
    assert((concat_all(out.1) + out.0).len() == (buf + concat_all(blocks)).len());
    if out.1.len() == 0 {
        assert(concat_all(out.1) == Seq::<S>::empty());
    }
    lemma_concat_len_lower(out.1, max);
    if buf.len() + concat_all(blocks).len() < 2 * max {
        assert((concat_all(out.1) + out.0).len() == (buf + concat_all(blocks)).len());
        if out.1.len() >= 2 {
            assert(out.1.len() * max >= 2 * max) by (nonlinear_arith)
                requires
                    out.1.len() >= 2,
            ;
        }
    }
}

/// A stop on an empty buffer hands nothing on and leaves the buffer empty,
/// so a second stop after any stop does nothing.
pub proof fn lemma_stop_idempotent<S>(buf: Seq<S>)
    ensures
        stop_step(stop_step(buf).0) == (Seq::<S>::empty(), None::<Seq<S>>),
        stop_step(Seq::<S>::empty()) == (Seq::<S>::empty(), None::<Seq<S>>),
{
}

/// The accumulation buffer, with the sample count at which it is flushed.
pub struct FlushController<S> {
    buffer: Vec<S>,
    max_samples: usize,
}

impl<S> FlushController<S> {
    /// The samples gathered and not yet flushed.
    pub closed spec fn buffered(&self) -> Seq<S> {
        self.buffer@
    }

    /// The sample count at which the buffer is flushed.
    pub closed spec fn max(&self) -> nat {
        self.max_samples as nat
    }

    /// The buffer never holds the limit's worth of samples between steps.
    pub open spec fn wf(&self) -> bool {
        self.buffered().len() < self.max() || self.buffered().len() == 0
    }

    /// A controller with an empty buffer that flushes at `max_samples`.
    pub fn new(max_samples: usize) -> (r: Self)
        ensures
            r.wf(),
            r.buffered() == Seq::<S>::empty(),
            r.max() == max_samples,
    {
        FlushController { buffer: Vec::new(), max_samples }
    }

    /// A controller that flushes after `timeout_secs` seconds of audio at
    /// the target rate; `None` where that count does not fit in `usize`.
    pub fn with_timeout(timeout_secs: usize) -> (r: Option<Self>)
        ensures
            r is Some <==> TARGET_SAMPLE_RATE * timeout_secs <= usize::MAX,
            r matches Some(c) ==> c.wf() && c.buffered() == Seq::<S>::empty() && c.max()
                == TARGET_SAMPLE_RATE * timeout_secs,
    {
        if timeout_secs > usize::MAX / TARGET_SAMPLE_RATE {
            proof {
                assert(TARGET_SAMPLE_RATE * timeout_secs > usize::MAX) by (nonlinear_arith)
                    requires
                        timeout_secs > usize::MAX / TARGET_SAMPLE_RATE,
                        TARGET_SAMPLE_RATE == 16_000,
                ;
            }
            None
        } else {
            proof {
                assert(TARGET_SAMPLE_RATE * timeout_secs <= usize::MAX) by (nonlinear_arith)
                    requires
                        timeout_secs <= usize::MAX / TARGET_SAMPLE_RATE,
                        TARGET_SAMPLE_RATE == 16_000,
                ;
            }
            Some(Self::new(TARGET_SAMPLE_RATE * timeout_secs))
        }
    }

    /// Takes one message: a block of audio is appended, and the buffer is
    /// flushed with a timeout once it holds the limit; a stop flushes a
    /// non-empty buffer; an exit ends the controller.
    pub fn step(&mut self, msg: CaptureMsg<S>) -> (r: FlushStep<S>)
        requires
            old(self).wf(),
        ensures
            final(self).wf(),
            final(self).max() == old(self).max(),
            match msg {
                CaptureMsg::Audio(block) => {
                    let next = audio_step(old(self).buffered(), old(self).max(), block@);
                    &&& final(self).buffered() == next.0
                    &&& r.flushed() == next.1
                    &&& (r is TimeoutFlush <==> next.1 is Some)
                    &&& !(r is Flush) && !(r is Exit)
                },
                CaptureMsg::Stop => {
                    let next = stop_step(old(self).buffered());
                    &&& final(self).buffered() == next.0
                    &&& r.flushed() == next.1
                    &&& !(r is TimeoutFlush) && !(r is Exit)
                },
                CaptureMsg::Exit => {
                    &&& final(self).buffered() == old(self).buffered()
                    &&& r is Exit
                },
            },
    {
        match msg {
            CaptureMsg::Audio(mut block) => {
                self.buffer.append(&mut block);
                if self.buffer.len() >= self.max_samples {
                    let flushed = self.buffer.split_off(0);
                    FlushStep::TimeoutFlush(flushed)
                } else {
                    FlushStep::Continue
                }
            },
            CaptureMsg::Stop => {
                if self.buffer.len() > 0 {
                    let flushed = self.buffer.split_off(0);
                    FlushStep::Flush(flushed)
                } else {
                    FlushStep::Continue
                }
            },
            CaptureMsg::Exit => FlushStep::Exit,
        }
    }
}

} // verus!

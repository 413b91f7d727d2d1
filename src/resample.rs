//! The resampling stage's own logic: which blocks it accepts, and how it
//! gathers mono samples into the fixed-size chunks that the resampling
//! engine takes.

use vstd::prelude::*;
use crate::capture::supported_channels;
use crate::errors::{AudioBackendError, AudioPipelineError, ResamplerError, Stage};
use crate::flush::concat_all;
use vstd::arithmetic::div_mod::lemma_hoist_over_denominator;

verus! {

/// Frames in each chunk handed to the resampling engine.
pub const CHUNK_FRAMES: usize = 1024;

/// The views of a sequence of blocks.
pub open spec fn views<S>(blocks: Seq<Vec<S>>) -> Seq<Seq<S>> {
    blocks.map_values(|b: Vec<S>| b@)
}

/// The `i`-th full chunk of `s`.
pub open spec fn chunk_of<S>(s: Seq<S>, i: int) -> Seq<S> {
    s.subrange(i * CHUNK_FRAMES, (i + 1) * CHUNK_FRAMES)
}

/// Number of full chunks in `s`.
pub open spec fn full_chunks<S>(s: Seq<S>) -> nat {
    s.len() / (CHUNK_FRAMES as nat)
}

/// The full chunks of `s`, in order.
pub open spec fn chunks_of<S>(s: Seq<S>) -> Seq<Seq<S>> {
    Seq::new(full_chunks(s), |i: int| chunk_of(s, i))
}

/// What is left of `s` after its full chunks.
pub open spec fn tail_of<S>(s: Seq<S>) -> Seq<S> {
    s.subrange(full_chunks(s) * CHUNK_FRAMES, s.len() as int)
}

/// Frames in an interleaved block of `len` samples over `channels`
/// channels; a stereo block must hold whole frames.
pub open spec fn frames_in(len: nat, channels: nat) -> Option<nat> {
    if channels == 2 {
        if len % 2 == 0 {
            Some(len / 2)
        } else {
            None
        }
    } else {
        Some(len)
    }
}

/// The first `n` full chunks of `s`, one after another, are its first
/// `n` chunks' worth of samples.
proof fn lemma_concat_prefix<S>(s: Seq<S>, n: nat)
    requires
        n <= full_chunks(s),
    ensures
        concat_all(Seq::new(n, |i: int| chunk_of(s, i))) == s.subrange(0, n * CHUNK_FRAMES),
    decreases n,
{
    let c = Seq::new(n, |i: int| chunk_of(s, i));
    if n == 0 {
        assert(s.subrange(0, 0) =~= Seq::<S>::empty());
    } else {
        lemma_concat_prefix(s, (n - 1) as nat);
        assert(c.drop_last() =~= Seq::new((n - 1) as nat, |i: int| chunk_of(s, i)));
        assert(s.subrange(0, (n - 1) * CHUNK_FRAMES) + chunk_of(s, n - 1) =~= s.subrange(
            0,
            n * CHUNK_FRAMES,
        ));
    }
}

/// Chunking loses and reorders nothing: the full chunks of a sequence,
/// followed by what is held back, are the sequence itself. Every chunk holds
/// exactly `CHUNK_FRAMES` samples, and less than that is held back.
pub proof fn lemma_chunks_keep_samples<S>(s: Seq<S>)
    ensures
        concat_all(chunks_of(s)) + tail_of(s) == s,
        forall|i: int| 0 <= i < chunks_of(s).len() ==> #[trigger] chunks_of(s)[i].len() == CHUNK_FRAMES,
        tail_of(s).len() < CHUNK_FRAMES,
{
    lemma_concat_prefix(s, full_chunks(s));
    assert(s.subrange(0, full_chunks(s) * CHUNK_FRAMES) + tail_of(s) =~= s);
}

/// Gathering a stream in two pieces gives the chunks and the remainder of
/// gathering it whole: the chunks of `s`, then those of what `s` held back
/// followed by `b`, are the chunks of `s + b`.
pub proof fn lemma_chunks_in_pieces<S>(s: Seq<S>, b: Seq<S>)
    ensures
        chunks_of(s) + chunks_of(tail_of(s) + b) == chunks_of(s + b),
        tail_of(tail_of(s) + b) == tail_of(s + b),
{
    let whole = s + b;
    let k1 = full_chunks(s);
    let u = tail_of(s) + b;
    assert(u =~= whole.subrange(k1 * CHUNK_FRAMES, whole.len() as int));
    lemma_hoist_over_denominator(u.len() as int, k1 as int, CHUNK_FRAMES as nat);
    assert(u.len() + k1 * CHUNK_FRAMES == whole.len());
    assert(full_chunks(whole) == k1 + full_chunks(u));
    assert forall|i: int| 0 <= i < full_chunks(u) implies #[trigger] chunk_of(u, i) == chunk_of(
        whole,
        k1 + i,
    ) by {
        assert(chunk_of(u, i) =~= chunk_of(whole, k1 + i));
    }
    assert forall|i: int| 0 <= i < full_chunks(s) implies #[trigger] chunk_of(s, i) == chunk_of(
        whole,
        i,
    ) by {
        assert(chunk_of(s, i) =~= chunk_of(whole, i));
    }
    assert(chunks_of(s) + chunks_of(u) =~= chunks_of(whole));
    assert(tail_of(u) =~= tail_of(whole));
}

/// The error that ends the stage when the capture source has failed.
pub fn source_failed() -> (r: AudioPipelineError)
    ensures
        r matches AudioPipelineError::AudioDevice(AudioBackendError::StreamFailed),
        r.origin() == Stage::Capture,
{
    AudioPipelineError::AudioDevice(AudioBackendError::StreamFailed)
}

/// The stage's carry-over of mono samples that do not yet fill a chunk.
pub struct ResampleStage<S> {
    input_channels: usize,
    accum: Vec<S>,
}

impl<S> ResampleStage<S> {
    /// Samples held back until they fill a chunk.
    pub closed spec fn pending(&self) -> Seq<S> {
        self.accum@
    }

    /// Channels of the blocks that the stage takes.
    pub closed spec fn channels(&self) -> nat {
        self.input_channels as nat
    }

    /// Less than a chunk is ever held back, from blocks of one or two channels.
    pub open spec fn wf(&self) -> bool {
        &&& self.pending().len() < CHUNK_FRAMES
        &&& (self.channels() == 1 || self.channels() == 2)
    }

    /// A stage for blocks of `input_channels` interleaved channels.
    pub fn new(input_channels: usize) -> (r: Self)
        requires
            supported_channels(input_channels),
        ensures
            r.wf(),
            r.channels() == input_channels,
            r.pending() == Seq::<S>::empty(),
    {
        ResampleStage { input_channels, accum: Vec::new() }
    }

    /// Frames in a block of `len` interleaved samples; an error where a
    /// stereo block holds half a frame.
    pub fn mono_frames(&self, len: usize) -> (r: Result<usize, ResamplerError>)
        requires
            self.wf(),
        ensures
            frames_in(len as nat, self.channels()) matches Some(n) ==> r == Ok::<usize, ResamplerError>(n as usize),
            frames_in(len as nat, self.channels()) is None ==> (r matches Err(
                ResamplerError::HalfSampleMissing(l),
            ) && l == len),
    {
        if self.input_channels == 2 {
            if len % 2 == 0 {
                Ok(len / 2)
            } else {
                Err(ResamplerError::HalfSampleMissing(len))
            }
        } else {
            Ok(len)
        }
    }

    /// Appends mono samples to what is held back and takes out every full
    /// chunk, in order.
    pub fn push_mono(&mut self, mono: Vec<S>) -> (r: Vec<Vec<S>>)
        requires
            old(self).wf(),
        ensures
            final(self).wf(),
            final(self).channels() == old(self).channels(),
            views(r@) == chunks_of(old(self).pending() + mono@),
            final(self).pending() == tail_of(old(self).pending() + mono@),
    {
        let ghost whole = self.accum@ + mono@;
        let mut mono = mono;
        self.accum.append(&mut mono);
        let mut chunks: Vec<Vec<S>> = Vec::new();
        let mut rest = self.accum.split_off(0);
        while rest.len() >= CHUNK_FRAMES
            invariant
                chunks@.len() * CHUNK_FRAMES + rest@.len() == whole.len(),
                rest@ == whole.subrange(chunks@.len() * CHUNK_FRAMES, whole.len() as int),
                views(chunks@) == Seq::new(chunks@.len(), |i: int| chunk_of(whole, i)),
                self.input_channels == old(self).input_channels,
                self.input_channels == 1 || self.input_channels == 2,
            decreases rest@.len(),
        {
            let tail = rest.split_off(CHUNK_FRAMES);
            let ghost k = chunks@.len();
            let ghost before = chunks@;
            assert(rest@ =~= chunk_of(whole, k as int));
            chunks.push(rest);
            assert(chunks@ == before.push(chunks@[k as int]));
            assert(views(chunks@) =~= views(before).push(chunk_of(whole, k as int)));
            rest = tail;
            assert(views(chunks@) =~= Seq::new(chunks@.len(), |i: int| chunk_of(whole, i)));
            assert(rest@ =~= whole.subrange(chunks@.len() * CHUNK_FRAMES, whole.len() as int));
        }
        assert(chunks@.len() == full_chunks(whole));
        self.accum = rest;
        chunks
    }
}

} // verus!

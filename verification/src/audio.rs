//! Bounded, backpressure-aware audio sample buffer.
//!
//! The sink decouples sample production on the emulation thread from
//! consumption by a platform audio callback. Its capacity is one second of
//! audio at the configured sample rate: a push beyond that bound is silently
//! discarded, so a fast-forwarding producer can neither grow the buffer
//! without bound nor block, and a drain never waits for more data.

use vstd::prelude::*;

verus! {

/// The sample rate the sink wants from the platform, in Hz.
pub const WANTED_SAMPLE_RATE: u32 = 44100;

/// What the output-configuration choice reads of one configuration range a
/// platform audio device offers.
#[derive(Clone, Copy, PartialEq, Eq, Structural, Debug)]
pub struct ConfigRange {
    /// Channels the configuration carries.
    pub channels: u16,
    /// Whether samples are 32-bit floats.
    pub is_f32: bool,
    /// Lowest supported sample rate, in Hz.
    pub min_rate: u32,
    /// Highest supported sample rate, in Hz.
    pub max_rate: u32,
}

/// A configuration the sink can use: two channels of 32-bit float samples.
pub open spec fn eligible(c: ConfigRange) -> bool {
    c.channels == 2 && c.is_f32
}

/// The rate taken from an eligible range: the wanted rate where the range
/// covers it, else the range's maximum.
pub open spec fn chosen_rate(c: ConfigRange) -> u32 {
    if c.min_rate <= WANTED_SAMPLE_RATE && WANTED_SAMPLE_RATE <= c.max_rate {
        WANTED_SAMPLE_RATE
    } else {
        c.max_rate
    }
}

/// Picks the platform output configuration: the first offered range with
/// two channels of 32-bit float samples wins, at the wanted sample rate if
/// that range covers it and at the range's maximum otherwise; none at all
/// leaves the device unusable.
pub fn select_output_config(configs: &Vec<ConfigRange>) -> (r: Option<(usize, u32)>)
    ensures
        match r {
            Some((i, rate)) => {
                &&& i < configs@.len()
                &&& eligible(configs@[i as int])
                &&& forall|j: int| 0 <= j < i ==> !eligible(#[trigger] configs@[j])
                &&& rate == chosen_rate(configs@[i as int])
            },
            None => forall|j: int| 0 <= j < configs@.len() ==> !eligible(#[trigger] configs@[j]),
        },
{
    let mut i: usize = 0;
    while i < configs.len()
        invariant
            i <= configs@.len(),
            forall|j: int| 0 <= j < i ==> !eligible(#[trigger] configs@[j]),
        decreases configs@.len() - i,
    {
        let c = configs[i];
        if c.channels == 2 && c.is_f32 {
            let rate = if c.min_rate <= WANTED_SAMPLE_RATE && WANTED_SAMPLE_RATE <= c.max_rate {
                WANTED_SAMPLE_RATE
            } else {
                c.max_rate
            };
            return Some((i, rate));
        }
        i = i + 1;
    }
    None
}

/// A bounded FIFO buffer of audio samples.
///
/// The element type is left generic: the sink orders and bounds samples but
/// never inspects them, and hosts choose their own sample representation.
pub struct AudioSink<S> {
    buffer: Vec<S>,
    sample_rate: u32,
}

impl<S> AudioSink<S> {
    /// The buffered samples, oldest first.
    pub closed spec fn buffered(&self) -> Seq<S> {
        self.buffer@
    }

    /// The fixed sample rate, which is also the buffer's capacity bound.
    pub closed spec fn rate(&self) -> u32 {
        self.sample_rate
    }

    /// Invariant: the buffer never holds more than one second of audio.
    pub open spec fn wf(&self) -> bool {
        self.buffered().len() <= self.rate()
    }

    /// How many of `incoming` samples a push accepts before the bound cuts
    /// the rest off.
    pub open spec fn accepted(&self, incoming: int) -> int {
        vstd::math::min(incoming, self.rate() - self.buffered().len())
    }

    /// Creates an empty sink whose capacity is one second of audio at
    /// `sample_rate`.
    pub fn new(sample_rate: u32) -> (sink: AudioSink<S>)
        ensures
            sink.wf(),
            sink.rate() == sample_rate,
            sink.buffered() == Seq::<S>::empty(),
    {
        AudioSink { buffer: Vec::new(), sample_rate }
    }

    /// Appends samples in order until the capacity bound is reached; the
    /// excess is dropped, never queued, and the call never blocks.
    pub fn push(&mut self, samples: Vec<S>)
        requires
            old(self).wf(),
        ensures
            final(self).wf(),
            final(self).rate() == old(self).rate(),
            final(self).buffered() == old(self).buffered() + samples@.take(
                old(self).accepted(samples@.len() as int),
            ),
            final(self).buffered().len() == vstd::math::min(
                old(self).buffered().len() + samples@.len() as int,
                old(self).rate() as int,
            ),
    {
        let cap: usize = self.sample_rate as usize;
        let mut incoming = samples;
        let ghost all = incoming@;
        let ghost mut k: int = 0;
        while self.buffer.len() < cap && incoming.len() > 0
            invariant
                cap == self.sample_rate as usize,
                self.sample_rate == old(self).sample_rate,
                0 <= k <= all.len(),
                incoming@ == all.skip(k),
                self.buffer@ == old(self).buffer@ + all.take(k),
                self.buffer@.len() <= cap,
            decreases all.len() - k,
        {
            let s = incoming.remove(0);
            assert(s == all[k]);
            self.buffer.push(s);
            proof {
                assert(all.skip(k).remove(0) =~= all.skip(k + 1));
                assert(all.take(k).push(all[k]) =~= all.take(k + 1));
                k = k + 1;
            }
        }
        proof {
            assert(k == old(self).accepted(all.len() as int));
        }
    }

    /// Removes and returns up to `n` samples in FIFO order, fewer if the
    /// buffer holds fewer; it never waits for more data.
    pub fn drain(&mut self, n: usize) -> (out: Vec<S>)
        requires
            old(self).wf(),
        ensures
            final(self).wf(),
            final(self).rate() == old(self).rate(),
            out@ == old(self).buffered().take(
                vstd::math::min(n as int, old(self).buffered().len() as int),
            ),
            final(self).buffered() == old(self).buffered().skip(
                vstd::math::min(n as int, old(self).buffered().len() as int),
            ),
    {
        let k: usize = if n < self.buffer.len() {
            n
        } else {
            self.buffer.len()
        };
        let ghost orig = self.buffer@;
        let mut out: Vec<S> = Vec::new();
        let mut i: usize = 0;
        while i < k
            invariant
                k <= orig.len(),
                0 <= i <= k,
                self.sample_rate == old(self).sample_rate,
                out@ == orig.take(i as int),
                self.buffer@ == orig.skip(i as int),
            decreases k - i,
        {
            let s = self.buffer.remove(0);
            out.push(s);
            proof {
                assert(orig.skip(i as int).remove(0) =~= orig.skip(i + 1));
                assert(orig.take(i as int).push(orig[i as int]) =~= orig.take(i + 1));
            }
            i = i + 1;
        }
        out
    }

    /// How many samples are currently buffered.
    pub fn len(&self) -> (n: usize)
        ensures
            n == self.buffered().len(),
    {
        self.buffer.len()
    }

    /// True exactly when the buffer is empty, so the scheduler can judge
    /// audio health.
    pub fn is_underflowed(&self) -> (r: bool)
        ensures
            r == (self.buffered().len() == 0),
    {
        self.buffer.len() == 0
    }

    /// The sample rate fixed at construction.
    pub fn sample_rate(&self) -> (r: u32)
        ensures
            r == self.rate(),
    {
        self.sample_rate
    }
}

} // verus!

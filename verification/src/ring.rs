//! Bounded single-producer / single-consumer queue of samples.
//!
//! The producer respects a high-water mark before appending a decoded chunk
//! (backpressure); the consumer never blocks: popping from an empty buffer
//! yields silence. Seeking clears the buffer so that no stale audio from
//! before the seek is ever played.

use std::collections::VecDeque;
use vstd::prelude::*;

verus! {

/// Bounded FIFO of interleaved fixed-point samples.
///
/// The view of a `RingBuffer` is the queued sample sequence, front first.
/// The high-water mark is fixed at construction; occupancy is compared
/// against it before each producer write, so the length never grows past
/// the mark by more than one decoded chunk.
pub struct RingBuffer {
    samples: VecDeque<i32>,
    high_water: usize,
}

impl View for RingBuffer {
    type V = Seq<i32>;

    closed spec fn view(&self) -> Seq<i32> {
        self.samples@
    }
}

impl RingBuffer {
    /// Occupancy threshold above which the producer must hold back.
    pub closed spec fn spec_high_water(&self) -> usize {
        self.high_water
    }

    /// Creates an empty buffer with the given high-water mark.
    pub fn new(high_water: usize) -> (rb: RingBuffer)
        ensures
            rb@ == Seq::<i32>::empty(),
            rb.spec_high_water() == high_water,
    {
        RingBuffer { samples: VecDeque::new(), high_water }
    }

    /// Number of samples currently queued.
    pub fn len(&self) -> (n: usize)
        ensures
            n == self@.len(),
    {
        self.samples.len()
    }

    /// The high-water mark this buffer was created with.
    pub fn high_water(&self) -> (hw: usize)
        ensures
            hw == self.spec_high_water(),
    {
        self.high_water
    }

    /// True exactly when the producer may append another chunk: occupancy
    /// has not yet passed the high-water mark.
    pub fn has_headroom(&self) -> (ok: bool)
        ensures
            ok == (self@.len() <= self.spec_high_water()),
    {
        self.samples.len() <= self.high_water
    }

    /// Appends one sample at the back (producer side).
    pub fn push_back(&mut self, sample: i32)
        ensures
            final(self)@ == old(self)@.push(sample),
            final(self).spec_high_water() == old(self).spec_high_water(),
    {
        self.samples.push_back(sample);
    }

    /// Appends a whole decoded chunk at the back (producer side).
    pub fn push_chunk(&mut self, chunk: &Vec<i32>)
        ensures
            final(self)@ == old(self)@ + chunk@,
            final(self).spec_high_water() == old(self).spec_high_water(),
    {
        let ghost start = self@;
        let ghost hw = self.spec_high_water();
        let n = chunk.len();
        let mut i: usize = 0;
        while i < n
            invariant
                n == chunk@.len(),
                i <= n,
                self@ == start + chunk@.take(i as int),
                self.spec_high_water() == hw,
            decreases n - i,
        {
            self.samples.push_back(chunk[i]);
            i = i + 1;
            proof {
                assert(chunk@.take(i as int) =~= chunk@.take(i - 1).push(chunk@[i - 1]));
                assert(start + chunk@.take(i as int) =~= (start + chunk@.take(i - 1)).push(
                    chunk@[i - 1],
                ));
            }
        }
        proof {
            assert(chunk@.take(n as int) =~= chunk@);
        }
    }

    /// Removes and returns the front sample, or `0` (silence) when the
    /// buffer is empty. Never blocks, never fails (consumer side).
    pub fn pop_front_or_silence(&mut self) -> (s: i32)
        ensures
            old(self)@.len() == 0 ==> s == 0 && final(self)@ == old(self)@,
            old(self)@.len() > 0 ==> s == old(self)@[0] && final(self)@ == old(self)@.skip(1),
            final(self).spec_high_water() == old(self).spec_high_water(),
    {
        match self.samples.pop_front() {
            Some(s) => {
                proof {
                    assert(self@ =~= old(self)@.skip(1));
                }
                s
            },
            None => 0,
        }
    }

    /// Discards everything queued; used when a seek lands so that no audio
    /// from before the seek is played afterwards.
    pub fn clear(&mut self)
        ensures
            final(self)@ == Seq::<i32>::empty(),
            final(self).spec_high_water() == old(self).spec_high_water(),
    {
        self.samples.clear();
    }
}

/// High-water mark covering roughly two seconds of output: sample rate
/// times channel count times two, saturated at the machine word.
pub fn high_water_for(sample_rate: u32, channels: u16) -> (hw: usize)
    ensures
        hw == vstd::math::min(sample_rate * channels * 2, usize::MAX as int),
{
    proof {
        assert(0 <= (sample_rate as int) * (channels as int) <= 0xffff_ffff * 0xffff)
            by (nonlinear_arith)
            requires
                0 <= sample_rate as int <= 0xffff_ffff,
                0 <= channels as int <= 0xffff,
        {}
    }
    let wide: u64 = (sample_rate as u64) * (channels as u64) * 2;
    if wide > usize::MAX as u64 {
        usize::MAX
    } else {
        wide as usize
    }
}

} // verus!

//! Realtime consume callback: fills the device's request buffer from the
//! ring buffer.
//!
//! The device decides when it is invoked and how many samples it wants;
//! this side must never block and never fail. While paused it writes pure
//! silence and leaves the queue untouched; otherwise it pops one queued
//! sample per slot (silence when the queue runs dry) and applies the
//! volume.

use crate::ring::RingBuffer;
use crate::sample::{scale_sample, scaled_sample, VOLUME_MAX_TENTHS};
use vstd::prelude::*;

verus! {

/// The sample written into output slot `i` of one callback invocation,
/// given the queue contents at its start.
pub open spec fn rendered_sample(queued: Seq<i32>, paused: bool, vol: int, i: int) -> int {
    if paused {
        0
    } else if 0 <= i < queued.len() {
        scaled_sample(queued[i] as int, vol)
    } else {
        0
    }
}

/// The queue left behind by one callback invocation that was asked for
/// `request` samples: untouched while paused, otherwise its first
/// `request` samples are gone.
pub open spec fn queue_after_render(queued: Seq<i32>, paused: bool, request: int) -> Seq<i32> {
    if paused {
        queued
    } else if request < queued.len() {
        queued.skip(request)
    } else {
        Seq::empty()
    }
}

/// Fills one device request of `request` samples. Never blocks: a dry
/// queue contributes silence. While paused the whole request is silence
/// and the queue keeps every sample it held, so un-pausing resumes the
/// audio exactly where it stopped.
pub fn render_output(ring: &mut RingBuffer, paused: bool, volume_tenths: u8, request: usize) -> (out:
    Vec<i32>)
    requires
        volume_tenths <= VOLUME_MAX_TENTHS,
    ensures
        out@.len() == request,
        forall|i: int|
            0 <= i < request ==> out@[i] == rendered_sample(
                old(ring)@,
                paused,
                volume_tenths as int,
                i,
            ),
        final(ring)@ == queue_after_render(old(ring)@, paused, request as int),
        final(ring).spec_high_water() == old(ring).spec_high_water(),
{
    let ghost start = ring@;
    let ghost hw = ring.spec_high_water();
    let mut out: Vec<i32> = Vec::new();
    let mut i: usize = 0;
    if paused {
        while i < request
            invariant
                i <= request,
                out@.len() == i,
                forall|j: int| 0 <= j < i ==> out@[j] == 0,
                ring@ == start,
                ring.spec_high_water() == hw,
            decreases request - i,
        {
            out.push(0);
            i = i + 1;
        }
        return out;
    }
    proof {
        assert(queue_after_render(start, false, 0) =~= start);
    }
    while i < request
        invariant
            !paused,
            volume_tenths <= VOLUME_MAX_TENTHS,
            i <= request,
            out@.len() == i,
            forall|j: int|
                0 <= j < i ==> out@[j] == rendered_sample(start, paused, volume_tenths as int, j),
            ring@ == queue_after_render(start, paused, i as int),
            ring.spec_high_water() == hw,
        decreases request - i,
    {
        let raw = ring.pop_front_or_silence();
        proof {
            if i < start.len() {
                assert(queue_after_render(start, false, i as int)[0] == start[i as int]);
                assert(queue_after_render(start, false, i as int).skip(1) =~= queue_after_render(
                    start,
                    false,
                    i + 1,
                ));
            } else {
                assert(queue_after_render(start, false, i as int).len() == 0);
                assert(queue_after_render(start, false, i + 1) =~= queue_after_render(
                    start,
                    false,
                    i as int,
                ));
            }
        }
        let scaled = scale_sample(raw, volume_tenths);
        out.push(scaled);
        proof {
            if i < start.len() {
                assert(raw == start[i as int]);
            } else {
                assert(raw == 0);
                assert(scaled_sample(0, volume_tenths as int) == 0);
            }
        }
        i = i + 1;
    }
    out
}

/// Law: pausing disturbs nothing. A paused invocation returns the queue
/// unchanged, so an unpaused invocation after any number of paused ones
/// sees — and plays — exactly the samples that were queued before them.
pub proof fn lemma_pause_preserves_queue(queued: Seq<i32>, vol: int, paused_requests: int, i: int)
    ensures
        queue_after_render(queued, true, paused_requests) == queued,
        rendered_sample(queue_after_render(queued, true, paused_requests), false, vol, i)
            == rendered_sample(queued, false, vol, i),
{
}

} // verus!

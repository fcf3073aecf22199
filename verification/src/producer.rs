//! Decode-produce loop: every decision the producer thread takes, as pure
//! functions over the transport state and the ring buffer.
//!
//! The unverified shell runs the loop itself — it opens the source, reads
//! packets, decodes them and sleeps — and calls in here at each decision
//! point: what to do at the loop head, whether the buffer has headroom,
//! what a seek outcome changes, and how a decoded chunk enters the buffer.

use crate::remap::{remap_chunk, remapped_chunk};
use crate::ring::RingBuffer;
use crate::transport::PlaybackState;
use vstd::prelude::*;

verus! {

/// Phases of the decode-produce loop. `Stopped`, `Failed` and `Eof` are
/// terminal: the thread exits in them. `Failed` is a fatal mid-stream read
/// failure; a clean end of stream is `Eof`, not a failure.
#[derive(Clone, Copy, Debug, PartialEq, Eq)]
pub enum ProducerPhase {
    Running,
    Paused,
    SeekPending,
    Draining,
    Stopped,
    Failed,
    Eof,
}

/// What one loop iteration observed or completed.
#[derive(Clone, Copy, Debug, PartialEq, Eq)]
pub enum ProducerEvent {
    StopSeen,
    PauseSeen,
    SeekTaken,
    SeekApplied,
    NeedHeadroom,
    ChunkQueued,
    DecodeFailed,
    EndOfStream,
    ReadFailed,
}

/// True of the phases in which the producer thread has terminated.
pub open spec fn phase_is_terminal(phase: ProducerPhase) -> bool {
    phase is Stopped || phase is Failed || phase is Eof
}

/// The phase after one event. A terminal phase absorbs every event; a
/// decode failure is recoverable (the unit is skipped, the loop runs on),
/// while a read failure and end-of-stream are terminal.
pub open spec fn spec_phase_next(phase: ProducerPhase, event: ProducerEvent) -> ProducerPhase {
    if phase_is_terminal(phase) {
        phase
    } else {
        match event {
            ProducerEvent::StopSeen => ProducerPhase::Stopped,
            ProducerEvent::PauseSeen => ProducerPhase::Paused,
            ProducerEvent::SeekTaken => ProducerPhase::SeekPending,
            ProducerEvent::SeekApplied => ProducerPhase::Running,
            ProducerEvent::NeedHeadroom => ProducerPhase::Draining,
            ProducerEvent::ChunkQueued => ProducerPhase::Running,
            ProducerEvent::DecodeFailed => ProducerPhase::Running,
            ProducerEvent::EndOfStream => ProducerPhase::Eof,
            ProducerEvent::ReadFailed => ProducerPhase::Failed,
        }
    }
}

/// Advances the loop's phase by one observed event.
pub fn phase_next(phase: ProducerPhase, event: ProducerEvent) -> (next: ProducerPhase)
    ensures
        next == spec_phase_next(phase, event),
{
    match phase {
        ProducerPhase::Stopped => ProducerPhase::Stopped,
        ProducerPhase::Failed => ProducerPhase::Failed,
        ProducerPhase::Eof => ProducerPhase::Eof,
        _ => match event {
            ProducerEvent::StopSeen => ProducerPhase::Stopped,
            ProducerEvent::PauseSeen => ProducerPhase::Paused,
            ProducerEvent::SeekTaken => ProducerPhase::SeekPending,
            ProducerEvent::SeekApplied => ProducerPhase::Running,
            ProducerEvent::NeedHeadroom => ProducerPhase::Draining,
            ProducerEvent::ChunkQueued => ProducerPhase::Running,
            ProducerEvent::DecodeFailed => ProducerPhase::Running,
            ProducerEvent::EndOfStream => ProducerPhase::Eof,
            ProducerEvent::ReadFailed => ProducerPhase::Failed,
        },
    }
}

/// Law: a terminal phase is absorbing — once the loop has stopped, failed
/// or reached the end of the stream, no event revives it.
pub proof fn lemma_terminal_phase_absorbing(phase: ProducerPhase, event: ProducerEvent)
    ensures
        phase_is_terminal(phase) ==> spec_phase_next(phase, event) == phase,
{
}

/// The decision at the head of one loop iteration.
#[derive(Clone, Copy, Debug, PartialEq, Eq)]
pub enum ProducerStep {
    /// Stop was requested: leave the loop and end the thread.
    Stop,
    /// Paused: sleep one short poll interval and come round, without
    /// decoding.
    PauseWait,
    /// A seek request was taken (and cleared): perform a source-level
    /// seek to the carried target, then report through
    /// [`apply_seek_outcome`].
    Seek(u64),
    /// Read and decode the next unit.
    Decode,
}

/// The decision at the head of one producer loop iteration. Stop wins over
/// everything — in particular over pause, so a stop issued while paused is
/// honoured within one pause-poll interval, not at the next decode
/// boundary. Pause wins over a pending seek; a taken seek request is
/// cleared (delivered at most once); otherwise the loop decodes.
pub fn next_producer_step(st: &mut PlaybackState) -> (step: ProducerStep)
    ensures
        old(st).stop_requested ==> step is Stop && *final(st) == *old(st),
        !old(st).stop_requested && old(st).paused ==> step is PauseWait && *final(st) == *old(st),
        (!old(st).stop_requested && !old(st).paused) ==> match old(st).pending_seek_ms {
            Some(target) => step == ProducerStep::Seek(target) && *final(st) == (PlaybackState {
                pending_seek_ms: None,
                ..*old(st)
            }),
            None => step is Decode && *final(st) == *old(st),
        },
{
    if st.is_stop_requested() {
        return ProducerStep::Stop;
    }
    if st.is_paused() {
        return ProducerStep::PauseWait;
    }
    match st.take_pending_seek() {
        Some(target) => ProducerStep::Seek(target),
        None => ProducerStep::Decode,
    }
}

/// Applies the outcome of a source-level seek to `target_ms`. On success
/// the elapsed clock moves to the target and the buffer is cleared, so no
/// stale audio from before the seek is played; on failure the report is
/// the shell's business and playback continues at the prior position,
/// nothing changed.
pub fn apply_seek_outcome(
    st: &mut PlaybackState,
    ring: &mut RingBuffer,
    target_ms: u64,
    succeeded: bool,
)
    ensures
        succeeded ==> *final(st) == (PlaybackState { elapsed_ms: target_ms, ..*old(st) })
            && final(ring)@ == Seq::<i32>::empty(),
        !succeeded ==> *final(st) == *old(st) && final(ring)@ == old(ring)@,
        final(ring).spec_high_water() == old(ring).spec_high_water(),
{
    if succeeded {
        st.set_elapsed(target_ms);
        ring.clear();
    }
}

/// The decision of one round of the producer's wait for buffer headroom.
#[derive(Clone, Copy, Debug, PartialEq, Eq)]
pub enum BackpressureStep {
    /// The buffer is at or under the high-water mark: append the chunk now.
    Proceed,
    /// Over the mark and a stop is requested: leave the loop at once — a
    /// full buffer never starves a stop.
    Stop,
    /// Over the mark and a seek is pending: the stale queue was cleared;
    /// append and let the next loop head take the seek — a full buffer
    /// never starves a seek.
    FlushedProceed,
    /// Over the mark: sleep briefly and ask again.
    Wait,
}

/// One round of the backpressure wait. The producer may append only when
/// this says `Proceed` or `FlushedProceed`; while the buffer sits over the
/// high-water mark the producer is held back, yet keeps answering stop and
/// seek requests.
pub fn backpressure_step(st: &PlaybackState, ring: &mut RingBuffer) -> (step: BackpressureStep)
    ensures
        old(ring)@.len() <= old(ring).spec_high_water() ==> step is Proceed && final(ring)@ == old(
            ring,
        )@,
        (old(ring)@.len() > old(ring).spec_high_water() && st.stop_requested) ==> step is Stop
            && final(ring)@ == old(ring)@,
        (old(ring)@.len() > old(ring).spec_high_water() && !st.stop_requested
            && st.pending_seek_ms is Some) ==> step is FlushedProceed && final(ring)@ == Seq::<
            i32,
        >::empty(),
        (old(ring)@.len() > old(ring).spec_high_water() && !st.stop_requested
            && st.pending_seek_ms is None) ==> step is Wait && final(ring)@ == old(ring)@,
        final(ring).spec_high_water() == old(ring).spec_high_water(),
{
    if ring.has_headroom() {
        return BackpressureStep::Proceed;
    }
    if st.is_stop_requested() {
        return BackpressureStep::Stop;
    }
    if st.has_pending_seek() {
        ring.clear();
        return BackpressureStep::FlushedProceed;
    }
    BackpressureStep::Wait
}

/// Duration of `samples` interleaved samples at `rate` Hz over `channels`
/// channels, in milliseconds, saturated at the largest representable time.
pub open spec fn spec_chunk_duration_ms(samples: int, rate: int, channels: int) -> int
    recommends
        1 <= rate,
        1 <= channels,
{
    if samples * 1000 / (rate * channels) <= u64::MAX {
        samples * 1000 / (rate * channels)
    } else {
        u64::MAX as int
    }
}

/// Milliseconds of playback carried by one decoded chunk of `samples`
/// interleaved samples at the source's rate and channel count.
pub fn chunk_duration_ms(samples: usize, rate: u32, channels: usize) -> (ms: u64)
    requires
        1 <= rate,
        1 <= channels,
    ensures
        ms == spec_chunk_duration_ms(samples as int, rate as int, channels as int),
{
    proof {
        assert((samples as int) * 1000 <= 0xffff_ffff_ffff_ffff * 1000) by (nonlinear_arith)
            requires
                0 <= samples as int <= 0xffff_ffff_ffff_ffff,
        {}
        assert(1 <= (rate as int) * (channels as int) <= 0xffff_ffff * 0xffff_ffff_ffff_ffff)
            by (nonlinear_arith)
            requires
                1 <= rate as int <= 0xffff_ffff,
                1 <= channels as int <= 0xffff_ffff_ffff_ffff,
        {}
    }
    let total: u128 = (samples as u128) * 1000;
    let per_ms: u128 = (rate as u128) * (channels as u128);
    let q: u128 = total / per_ms;
    if q > u64::MAX as u128 {
        u64::MAX
    } else {
        q as u64
    }
}

/// One decoded unit fully handled: the chunk is remapped from the source's
/// channel count to the device's, appended whole at the back of the ring
/// buffer, and the elapsed clock advances by the chunk's duration at the
/// source's rate. A failed decode never reaches this point, so it
/// contributes no samples.
pub fn process_chunk(
    st: &mut PlaybackState,
    ring: &mut RingBuffer,
    samples: &Vec<i32>,
    in_channels: usize,
    in_rate: u32,
    out_channels: usize,
)
    requires
        1 <= in_channels,
        1 <= in_rate,
        1 <= out_channels,
    ensures
        final(ring)@ == old(ring)@ + remapped_chunk(
            samples@,
            in_channels as int,
            out_channels as int,
        ),
        final(ring).spec_high_water() == old(ring).spec_high_water(),
        *final(st) == (PlaybackState {
            elapsed_ms: {
                let d = spec_chunk_duration_ms(
                    samples@.len() as int,
                    in_rate as int,
                    in_channels as int,
                );
                if old(st).elapsed_ms + d <= u64::MAX {
                    (old(st).elapsed_ms + d) as u64
                } else {
                    u64::MAX
                }
            },
            ..*old(st)
        }),
{
    let duration = chunk_duration_ms(samples.len(), in_rate, in_channels);
    st.add_elapsed(duration);
    let mapped = remap_chunk(samples, in_channels, out_channels);
    ring.push_chunk(&mapped);
}

} // verus!

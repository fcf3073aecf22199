//! Tests of the playback pipeline: remapping, buffering, transport
//! commands, producer decisions and the realtime render.

use playback_core::consumer::render_output;
use playback_core::control::{
    apply_command, command_for_key, control_step, seek_back_target, seek_forward_target, Command,
    Key,
};
use playback_core::producer::{
    backpressure_step, chunk_duration_ms, next_producer_step, phase_next, process_chunk,
    BackpressureStep, ProducerEvent, ProducerPhase, ProducerStep,
};
use playback_core::remap::{remap, remap_chunk};
use playback_core::ring::{high_water_for, RingBuffer};
use playback_core::sample::{mix_pair, scale_sample};
use playback_core::transport::PlaybackState;

#[test]
fn remap_mono_to_stereo_duplicates() {
    let out = remap(&vec![7], 1, 2);
    assert_eq!(out, vec![7, 7]);
}

#[test]
fn remap_stereo_to_mono_averages() {
    assert_eq!(remap(&vec![4, 8], 2, 1), vec![6]);
    assert_eq!(remap(&vec![3, 4], 2, 1), vec![3]);
    assert_eq!(remap(&vec![-3, -4], 2, 1), vec![-3]);
}

#[test]
fn remap_downmix_truncates_to_first_channels() {
    assert_eq!(remap(&vec![1, 2, 3, 4], 4, 2), vec![1, 2]);
    assert_eq!(remap(&vec![10, 20, 30], 3, 3), vec![10, 20, 30]);
}

#[test]
fn remap_upmix_broadcasts_first_sample() {
    assert_eq!(remap(&vec![5], 1, 3), vec![5, 5, 5]);
    assert_eq!(remap(&vec![9, -1], 2, 4), vec![9, 9, 9, 9]);
}

#[test]
fn remap_output_length_is_output_channels() {
    for (in_ch, out_ch) in [(1usize, 2usize), (2, 1), (6, 2), (1, 8), (3, 5), (2, 2)] {
        let frame: Vec<i32> = (0..in_ch as i32).collect();
        assert_eq!(remap(&frame, in_ch, out_ch).len(), out_ch);
    }
}

#[test]
fn remap_chunk_walks_frames_in_order() {
    // two stereo frames down to mono: the means, in order
    assert_eq!(remap_chunk(&vec![1, 2, 3, 4], 2, 1), vec![1, 3]);
    // mono frames up to stereo
    assert_eq!(remap_chunk(&vec![1, 2], 1, 2), vec![1, 1, 2, 2]);
}

#[test]
fn remap_chunk_drops_trailing_partial_frame() {
    assert_eq!(remap_chunk(&vec![1, 2, 3, 4, 5], 2, 1), vec![1, 3]);
}

#[test]
fn mix_pair_rounds_towards_zero() {
    assert_eq!(mix_pair(3, 4), 3);
    assert_eq!(mix_pair(-3, -4), -3);
    assert_eq!(mix_pair(0, 0), 0);
    assert_eq!(mix_pair(i32::MAX, i32::MAX), i32::MAX);
    assert_eq!(mix_pair(i32::MIN, i32::MIN), i32::MIN);
}

#[test]
fn scale_sample_applies_tenths_and_clips() {
    assert_eq!(scale_sample(1000, 10), 1000);
    assert_eq!(scale_sample(1000, 20), 2000);
    assert_eq!(scale_sample(1000, 5), 500);
    assert_eq!(scale_sample(999, 5), 499);
    assert_eq!(scale_sample(-999, 5), -499);
    assert_eq!(scale_sample(1000, 0), 0);
    assert_eq!(scale_sample(i32::MAX, 20), i32::MAX);
    assert_eq!(scale_sample(i32::MIN, 20), i32::MIN);
}

#[test]
fn ring_pop_on_empty_is_silence() {
    let mut rb = RingBuffer::new(16);
    assert_eq!(rb.pop_front_or_silence(), 0);
    assert_eq!(rb.len(), 0);
}

#[test]
fn ring_is_fifo() {
    let mut rb = RingBuffer::new(16);
    rb.push_back(1);
    rb.push_back(2);
    rb.push_chunk(&vec![3, 4]);
    assert_eq!(rb.pop_front_or_silence(), 1);
    assert_eq!(rb.pop_front_or_silence(), 2);
    assert_eq!(rb.pop_front_or_silence(), 3);
    assert_eq!(rb.pop_front_or_silence(), 4);
    assert_eq!(rb.pop_front_or_silence(), 0);
}

#[test]
fn ring_headroom_boundary() {
    let mut rb = RingBuffer::new(2);
    assert!(rb.has_headroom());
    rb.push_back(1);
    rb.push_back(2);
    assert!(rb.has_headroom());
    rb.push_back(3);
    assert!(!rb.has_headroom());
    rb.clear();
    assert_eq!(rb.len(), 0);
    assert!(rb.has_headroom());
}

#[test]
fn high_water_covers_two_seconds() {
    assert_eq!(high_water_for(48000, 2), 192000);
    assert_eq!(high_water_for(44100, 2), 176400);
}

#[test]
fn backpressure_proceeds_under_mark() {
    let st = PlaybackState::new();
    let mut rb = RingBuffer::new(4);
    rb.push_chunk(&vec![1, 2, 3]);
    assert_eq!(backpressure_step(&st, &mut rb), BackpressureStep::Proceed);
    assert_eq!(rb.len(), 3);
}

#[test]
fn backpressure_waits_over_mark() {
    let st = PlaybackState::new();
    let mut rb = RingBuffer::new(2);
    rb.push_chunk(&vec![1, 2, 3]);
    assert_eq!(backpressure_step(&st, &mut rb), BackpressureStep::Wait);
    assert_eq!(rb.len(), 3);
}

#[test]
fn backpressure_never_starves_stop() {
    let mut st = PlaybackState::new();
    st.request_stop();
    let mut rb = RingBuffer::new(2);
    rb.push_chunk(&vec![1, 2, 3]);
    assert_eq!(backpressure_step(&st, &mut rb), BackpressureStep::Stop);
}

#[test]
fn backpressure_never_starves_seek() {
    let mut st = PlaybackState::new();
    st.request_seek(1000);
    let mut rb = RingBuffer::new(2);
    rb.push_chunk(&vec![1, 2, 3]);
    assert_eq!(
        backpressure_step(&st, &mut rb),
        BackpressureStep::FlushedProceed
    );
    assert_eq!(rb.len(), 0);
}

#[test]
fn volume_twenty_ups_clamp_at_double() {
    let mut st = PlaybackState::new();
    assert_eq!(st.get_volume(), 10);
    for _ in 0..20 {
        st.volume_up();
    }
    assert_eq!(st.get_volume(), 20);
}

#[test]
fn volume_downs_clamp_at_zero() {
    let mut st = PlaybackState::new();
    for _ in 0..25 {
        st.volume_down();
    }
    assert_eq!(st.get_volume(), 0);
}

#[test]
fn set_volume_clamps_high() {
    let mut st = PlaybackState::new();
    st.set_volume(25);
    assert_eq!(st.get_volume(), 20);
    st.set_volume(0);
    assert_eq!(st.get_volume(), 0);
}

#[test]
fn seek_back_clamps_at_start() {
    assert_eq!(seek_back_target(3000), 0);
    assert_eq!(seek_back_target(0), 0);
    assert_eq!(seek_back_target(5000), 0);
    assert_eq!(seek_back_target(12345), 7345);
}

#[test]
fn seek_forward_saturates() {
    assert_eq!(seek_forward_target(0), 5000);
    assert_eq!(seek_forward_target(u64::MAX - 1), u64::MAX);
}

#[test]
fn keys_decode_to_commands() {
    assert_eq!(command_for_key(Key::Char(' ')), Some(Command::TogglePause));
    assert_eq!(command_for_key(Key::Char('q')), Some(Command::Quit));
    assert_eq!(command_for_key(Key::Char('Q')), Some(Command::Quit));
    assert_eq!(command_for_key(Key::Left), Some(Command::SeekBack));
    assert_eq!(command_for_key(Key::Right), Some(Command::SeekForward));
    assert_eq!(command_for_key(Key::Up), Some(Command::VolumeUp));
    assert_eq!(command_for_key(Key::Down), Some(Command::VolumeDown));
    assert_eq!(command_for_key(Key::Char('x')), None);
    assert_eq!(command_for_key(Key::Other), None);
}

#[test]
fn space_toggles_pause() {
    let mut st = PlaybackState::new();
    assert!(!apply_command(&mut st, Command::TogglePause));
    assert!(st.is_paused());
    assert!(!apply_command(&mut st, Command::TogglePause));
    assert!(!st.is_paused());
}

#[test]
fn seek_back_command_posts_clamped_target() {
    let mut st = PlaybackState::new();
    st.set_elapsed(2000);
    apply_command(&mut st, Command::SeekBack);
    assert_eq!(st.take_pending_seek(), Some(0));
    // at-most-once delivery: a second take comes up empty
    assert_eq!(st.take_pending_seek(), None);
}

#[test]
fn quit_raises_stop() {
    let mut st = PlaybackState::new();
    assert!(apply_command(&mut st, Command::Quit));
    assert!(st.is_stop_requested());
}

#[test]
fn control_step_leaves_when_producer_finished() {
    let mut st = PlaybackState::new();
    assert!(control_step(&mut st, true, Some(Key::Up)));
    assert_eq!(st.get_volume(), 10);
}

#[test]
fn control_step_applies_key() {
    let mut st = PlaybackState::new();
    assert!(!control_step(&mut st, false, Some(Key::Up)));
    assert_eq!(st.get_volume(), 11);
    assert!(!control_step(&mut st, false, None));
    assert!(control_step(&mut st, false, Some(Key::Char('q'))));
    assert!(st.is_stop_requested());
    // once stop is set, the next round is over before any key
    assert!(control_step(&mut st, false, Some(Key::Up)));
    assert_eq!(st.get_volume(), 11);
}

#[test]
fn stop_wins_over_pause_within_one_poll() {
    let mut st = PlaybackState::new();
    st.set_paused(true);
    st.request_stop();
    assert_eq!(next_producer_step(&mut st), ProducerStep::Stop);
}

#[test]
fn paused_head_does_not_decode() {
    let mut st = PlaybackState::new();
    st.set_paused(true);
    st.request_seek(100);
    assert_eq!(next_producer_step(&mut st), ProducerStep::PauseWait);
    // the seek is still pending for the iteration after un-pausing
    st.set_paused(false);
    assert_eq!(next_producer_step(&mut st), ProducerStep::Seek(100));
    assert_eq!(next_producer_step(&mut st), ProducerStep::Decode);
}

#[test]
fn chunk_duration_follows_rate_and_channels() {
    assert_eq!(chunk_duration_ms(88200, 44100, 2), 1000);
    assert_eq!(chunk_duration_ms(4410, 44100, 2), 50);
    assert_eq!(chunk_duration_ms(0, 44100, 2), 0);
    assert_eq!(chunk_duration_ms(48000, 48000, 1), 1000);
}

#[test]
fn process_chunk_queues_and_advances_clock() {
    let mut st = PlaybackState::new();
    let mut rb = RingBuffer::new(1000);
    // one second of 2ch audio at 4Hz, remapped to mono
    let chunk: Vec<i32> = vec![10, 20, 30, 40, 50, 60, 70, 80];
    process_chunk(&mut st, &mut rb, &chunk, 2, 4, 1);
    assert_eq!(st.get_elapsed(), 1000);
    assert_eq!(rb.len(), 4);
    assert_eq!(rb.pop_front_or_silence(), 15);
    assert_eq!(rb.pop_front_or_silence(), 35);
}

#[test]
fn failed_decode_contributes_no_samples() {
    // a failed decode never reaches process_chunk; the phase just runs on
    assert_eq!(
        phase_next(ProducerPhase::Running, ProducerEvent::DecodeFailed),
        ProducerPhase::Running
    );
}

#[test]
fn terminal_phases_absorb_every_event() {
    let events = [
        ProducerEvent::StopSeen,
        ProducerEvent::PauseSeen,
        ProducerEvent::SeekTaken,
        ProducerEvent::SeekApplied,
        ProducerEvent::NeedHeadroom,
        ProducerEvent::ChunkQueued,
        ProducerEvent::DecodeFailed,
        ProducerEvent::EndOfStream,
        ProducerEvent::ReadFailed,
    ];
    for term in [
        ProducerPhase::Stopped,
        ProducerPhase::Failed,
        ProducerPhase::Eof,
    ] {
        for ev in events {
            assert_eq!(phase_next(term, ev), term);
        }
    }
}

#[test]
fn phase_follows_the_loop() {
    let p = ProducerPhase::Running;
    let p = phase_next(p, ProducerEvent::PauseSeen);
    assert_eq!(p, ProducerPhase::Paused);
    let p = phase_next(p, ProducerEvent::SeekTaken);
    assert_eq!(p, ProducerPhase::SeekPending);
    let p = phase_next(p, ProducerEvent::SeekApplied);
    assert_eq!(p, ProducerPhase::Running);
    let p = phase_next(p, ProducerEvent::NeedHeadroom);
    assert_eq!(p, ProducerPhase::Draining);
    let p = phase_next(p, ProducerEvent::ChunkQueued);
    assert_eq!(p, ProducerPhase::Running);
    let p = phase_next(p, ProducerEvent::EndOfStream);
    assert_eq!(p, ProducerPhase::Eof);
}

#[test]
fn render_paused_is_pure_silence_and_keeps_queue() {
    let mut rb = RingBuffer::new(16);
    rb.push_chunk(&vec![11, 22, 33]);
    let out = render_output(&mut rb, true, 20, 5);
    assert_eq!(out, vec![0, 0, 0, 0, 0]);
    assert_eq!(rb.len(), 3);
    // un-pausing resumes at exactly the queued samples, none dropped
    let out = render_output(&mut rb, false, 10, 3);
    assert_eq!(out, vec![11, 22, 33]);
    assert_eq!(rb.len(), 0);
}

#[test]
fn render_applies_volume_and_pads_silence() {
    let mut rb = RingBuffer::new(16);
    rb.push_chunk(&vec![100, -100]);
    let out = render_output(&mut rb, false, 15, 4);
    assert_eq!(out, vec![150, -150, 0, 0]);
    assert_eq!(rb.len(), 0);
}

#[test]
fn elapsed_clock_saturates() {
    let mut st = PlaybackState::new();
    st.set_elapsed(u64::MAX - 10);
    st.add_elapsed(100);
    assert_eq!(st.get_elapsed(), u64::MAX);
}

//! Control surface: turns discrete key presses into transport commands and
//! applies them to the shared state.
//!
//! The unverified shell polls the terminal with a short timeout and hands
//! each press over as a [`Key`]; it leaves the loop when `control_step`
//! says the session is done (quit key, stop requested elsewhere, or the
//! producer thread already finished).

use crate::transport::PlaybackState;
use vstd::prelude::*;

verus! {

/// Milliseconds skipped by one seek command (five seconds).
pub const SEEK_STEP_MS: u64 = 5000;

/// A discrete key press, as the terminal reports it.
#[derive(Clone, Copy, Debug, PartialEq, Eq)]
pub enum Key {
    Char(char),
    Left,
    Right,
    Up,
    Down,
    Other,
}

/// A logical transport command.
#[derive(Clone, Copy, Debug, PartialEq, Eq)]
pub enum Command {
    TogglePause,
    SeekBack,
    SeekForward,
    VolumeUp,
    VolumeDown,
    Quit,
}

/// Which command a key press stands for: space toggles pause, the arrows
/// seek and change volume, `q` (either case) quits, anything else nothing.
pub open spec fn spec_command_for_key(key: Key) -> Option<Command> {
    match key {
        Key::Char(c) => if c == ' ' {
            Some(Command::TogglePause)
        } else if c == 'q' || c == 'Q' {
            Some(Command::Quit)
        } else {
            None
        },
        Key::Left => Some(Command::SeekBack),
        Key::Right => Some(Command::SeekForward),
        Key::Up => Some(Command::VolumeUp),
        Key::Down => Some(Command::VolumeDown),
        Key::Other => None,
    }
}

/// Decodes one key press into its command, if it has one.
pub fn command_for_key(key: Key) -> (cmd: Option<Command>)
    ensures
        cmd == spec_command_for_key(key),
{
    match key {
        Key::Char(c) => {
            if c == ' ' {
                Some(Command::TogglePause)
            } else if c == 'q' || c == 'Q' {
                Some(Command::Quit)
            } else {
                None
            }
        },
        Key::Left => Some(Command::SeekBack),
        Key::Right => Some(Command::SeekForward),
        Key::Up => Some(Command::VolumeUp),
        Key::Down => Some(Command::VolumeDown),
        Key::Other => None,
    }
}

/// Target of a seek five seconds back from `elapsed_ms`, clamped to the
/// start: it is never negative.
pub open spec fn spec_seek_back_target(elapsed_ms: u64) -> u64 {
    if elapsed_ms < SEEK_STEP_MS {
        0
    } else {
        (elapsed_ms - SEEK_STEP_MS) as u64
    }
}

/// Target of a seek five seconds forward from `elapsed_ms`, saturated at
/// the largest representable time.
pub open spec fn spec_seek_forward_target(elapsed_ms: u64) -> u64 {
    if elapsed_ms <= u64::MAX - SEEK_STEP_MS {
        (elapsed_ms + SEEK_STEP_MS) as u64
    } else {
        u64::MAX
    }
}

pub fn seek_back_target(elapsed_ms: u64) -> (target: u64)
    ensures
        target == spec_seek_back_target(elapsed_ms),
{
    if elapsed_ms < SEEK_STEP_MS {
        0
    } else {
        elapsed_ms - SEEK_STEP_MS
    }
}

pub fn seek_forward_target(elapsed_ms: u64) -> (target: u64)
    ensures
        target == spec_seek_forward_target(elapsed_ms),
{
    if elapsed_ms <= u64::MAX - SEEK_STEP_MS {
        elapsed_ms + SEEK_STEP_MS
    } else {
        u64::MAX
    }
}

/// The transport state after one command: pause toggles, seeks post a
/// clamped target, volume moves one step within its bounds, quit raises
/// the stop flag. Nothing else moves.
pub open spec fn spec_apply_command(st: PlaybackState, cmd: Command) -> PlaybackState {
    match cmd {
        Command::TogglePause => PlaybackState { paused: !st.paused, ..st },
        Command::SeekBack => PlaybackState {
            pending_seek_ms: Some(spec_seek_back_target(st.elapsed_ms)),
            ..st
        },
        Command::SeekForward => PlaybackState {
            pending_seek_ms: Some(spec_seek_forward_target(st.elapsed_ms)),
            ..st
        },
        Command::VolumeUp => PlaybackState {
            volume_tenths: if st.volume_tenths < crate::sample::VOLUME_MAX_TENTHS {
                (st.volume_tenths + 1) as u8
            } else {
                crate::sample::VOLUME_MAX_TENTHS
            },
            ..st
        },
        Command::VolumeDown => PlaybackState {
            volume_tenths: if st.volume_tenths > 0 {
                (st.volume_tenths - 1) as u8
            } else {
                0
            },
            ..st
        },
        Command::Quit => PlaybackState { stop_requested: true, ..st },
    }
}

/// Law: no command drives the transport state out of well-formedness. In
/// particular, any number of volume steps in any order keeps the volume
/// within `[0.0, 2.0]`: from 1.0, twenty steps up end at 2.0, not 3.0.
pub proof fn lemma_commands_preserve_wf(st: PlaybackState, cmd: Command)
    requires
        st.wf(),
    ensures
        spec_apply_command(st, cmd).wf(),
{
}

/// Applies one command to the transport state; returns whether the
/// command ends the control loop.
pub fn apply_command(st: &mut PlaybackState, cmd: Command) -> (quit: bool)
    requires
        old(st).wf(),
    ensures
        *final(st) == spec_apply_command(*old(st), cmd),
        final(st).wf(),
        quit == (cmd is Quit),
{
    match cmd {
        Command::TogglePause => {
            let p = st.is_paused();
            st.set_paused(!p);
            false
        },
        Command::SeekBack => {
            let t = seek_back_target(st.get_elapsed());
            st.request_seek(t);
            false
        },
        Command::SeekForward => {
            let t = seek_forward_target(st.get_elapsed());
            st.request_seek(t);
            false
        },
        Command::VolumeUp => {
            st.volume_up();
            false
        },
        Command::VolumeDown => {
            st.volume_down();
            false
        },
        Command::Quit => {
            st.request_stop();
            true
        },
    }
}

/// One round of the control loop. The loop is over as soon as the
/// producer thread has finished (natural end of the track) or a stop was
/// requested by another path; otherwise the key press, if any, is decoded
/// and applied, and only the quit command ends the loop.
pub fn control_step(st: &mut PlaybackState, producer_finished: bool, key: Option<Key>) -> (done:
    bool)
    requires
        old(st).wf(),
    ensures
        final(st).wf(),
        producer_finished ==> done && *final(st) == *old(st),
        !producer_finished && old(st).stop_requested ==> done && *final(st) == *old(st),
        (!producer_finished && !old(st).stop_requested) ==> match key {
            None => !done && *final(st) == *old(st),
            Some(k) => match spec_command_for_key(k) {
                None => !done && *final(st) == *old(st),
                Some(cmd) => *final(st) == spec_apply_command(*old(st), cmd) && done == (
                cmd is Quit),
            },
        },
{
    if producer_finished {
        return true;
    }
    if st.is_stop_requested() {
        return true;
    }
    match key {
        None => false,
        Some(k) => {
            match command_for_key(k) {
                None => false,
                Some(cmd) => apply_command(st, cmd),
            }
        },
    }
}

} // verus!

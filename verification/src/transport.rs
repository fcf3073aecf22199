//! Shared transport state: the flags through which the control loop steers
//! the producer and the realtime consumer.
//!
//! Each field is independently meaningful — no invariant couples two fields —
//! so the unverified shell may guard each with its own lock. A pending seek
//! is delivered at most once: `take_pending_seek` reads and clears it.

use crate::sample::{VOLUME_MAX_TENTHS, VOLUME_UNIT_TENTHS};
use vstd::prelude::*;

verus! {

/// Transport flags of one playback session.
///
/// `volume_tenths` is the playback volume in tenths of a unit (10 = 1.0);
/// it never leaves `0 ..= VOLUME_MAX_TENTHS`. `elapsed_ms` tracks how much
/// audio has been queued, in milliseconds, counted by production (it runs
/// ahead of the audible position by at most the buffer residency).
pub struct PlaybackState {
    pub paused: bool,
    pub stop_requested: bool,
    pub pending_seek_ms: Option<u64>,
    pub volume_tenths: u8,
    pub elapsed_ms: u64,
}

impl PlaybackState {
    /// Well-formedness: the volume is within `[0.0, 2.0]` in tenths.
    pub open spec fn wf(&self) -> bool {
        self.volume_tenths <= VOLUME_MAX_TENTHS
    }

    /// A fresh session: playing, volume 1.0, at the start, nothing pending.
    pub fn new() -> (st: PlaybackState)
        ensures
            st.wf(),
            !st.paused,
            !st.stop_requested,
            st.pending_seek_ms is None,
            st.volume_tenths == VOLUME_UNIT_TENTHS,
            st.elapsed_ms == 0,
    {
        PlaybackState {
            paused: false,
            stop_requested: false,
            pending_seek_ms: None,
            volume_tenths: VOLUME_UNIT_TENTHS,
            elapsed_ms: 0,
        }
    }

    /// Pauses or resumes playback; nothing else changes.
    pub fn set_paused(&mut self, paused: bool)
        ensures
            *final(self) == (PlaybackState { paused, ..*old(self) }),
    {
        self.paused = paused;
    }

    pub fn is_paused(&self) -> (p: bool)
        ensures
            p == self.paused,
    {
        self.paused
    }

    /// Asks every loop to shut down; the flag is never cleared.
    pub fn request_stop(&mut self)
        ensures
            *final(self) == (PlaybackState { stop_requested: true, ..*old(self) }),
    {
        self.stop_requested = true;
    }

    pub fn is_stop_requested(&self) -> (s: bool)
        ensures
            s == self.stop_requested,
    {
        self.stop_requested
    }

    /// Records a seek target; a still-undelivered older request is replaced.
    pub fn request_seek(&mut self, target_ms: u64)
        ensures
            *final(self) == (PlaybackState { pending_seek_ms: Some(target_ms), ..*old(self) }),
    {
        self.pending_seek_ms = Some(target_ms);
    }

    /// Reads and clears the pending seek request: at-most-once delivery.
    pub fn take_pending_seek(&mut self) -> (taken: Option<u64>)
        ensures
            taken == old(self).pending_seek_ms,
            *final(self) == (PlaybackState { pending_seek_ms: None, ..*old(self) }),
    {
        let taken = self.pending_seek_ms;
        self.pending_seek_ms = None;
        taken
    }

    /// True while a seek request waits to be delivered.
    pub fn has_pending_seek(&self) -> (p: bool)
        ensures
            p == (self.pending_seek_ms is Some),
    {
        self.pending_seek_ms.is_some()
    }

    /// Sets the volume, clamped into `[0, VOLUME_MAX_TENTHS]` tenths.
    pub fn set_volume(&mut self, tenths: u8)
        ensures
            *final(self) == (PlaybackState {
                volume_tenths: if tenths <= VOLUME_MAX_TENTHS {
                    tenths
                } else {
                    VOLUME_MAX_TENTHS
                },
                ..*old(self)
            }),
            final(self).wf(),
    {
        self.volume_tenths = if tenths <= VOLUME_MAX_TENTHS {
            tenths
        } else {
            VOLUME_MAX_TENTHS
        };
    }

    pub fn get_volume(&self) -> (v: u8)
        ensures
            v == self.volume_tenths,
    {
        self.volume_tenths
    }

    /// One volume step up (+0.1), clamped at 2.0: twenty presses from 1.0
    /// end at 2.0, not above.
    pub fn volume_up(&mut self)
        requires
            old(self).wf(),
        ensures
            *final(self) == (PlaybackState {
                volume_tenths: if old(self).volume_tenths < VOLUME_MAX_TENTHS {
                    (old(self).volume_tenths + 1) as u8
                } else {
                    VOLUME_MAX_TENTHS
                },
                ..*old(self)
            }),
            final(self).wf(),
    {
        if self.volume_tenths < VOLUME_MAX_TENTHS {
            self.volume_tenths = self.volume_tenths + 1;
        }
    }

    /// One volume step down (-0.1), clamped at 0.0.
    pub fn volume_down(&mut self)
        ensures
            *final(self) == (PlaybackState {
                volume_tenths: if old(self).volume_tenths > 0 {
                    (old(self).volume_tenths - 1) as u8
                } else {
                    0
                },
                ..*old(self)
            }),
            old(self).wf() ==> final(self).wf(),
    {
        if self.volume_tenths > 0 {
            self.volume_tenths = self.volume_tenths - 1;
        }
    }

    /// Advances the produced-audio clock, saturating at the largest
    /// representable time.
    pub fn add_elapsed(&mut self, delta_ms: u64)
        ensures
            *final(self) == (PlaybackState {
                elapsed_ms: if old(self).elapsed_ms + delta_ms <= u64::MAX {
                    (old(self).elapsed_ms + delta_ms) as u64
                } else {
                    u64::MAX
                },
                ..*old(self)
            }),
    {
        if self.elapsed_ms <= u64::MAX - delta_ms {
            self.elapsed_ms = self.elapsed_ms + delta_ms;
        } else {
            self.elapsed_ms = u64::MAX;
        }
    }

    pub fn get_elapsed(&self) -> (t: u64)
        ensures
            t == self.elapsed_ms,
    {
        self.elapsed_ms
    }

    /// Rewrites the produced-audio clock; used when a seek lands.
    pub fn set_elapsed(&mut self, elapsed_ms: u64)
        ensures
            *final(self) == (PlaybackState { elapsed_ms, ..*old(self) }),
    {
        self.elapsed_ms = elapsed_ms;
    }
}

} // verus!

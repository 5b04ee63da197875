//! The part of a track that a request asks to hear.

use vstd::prelude::*;

verus! {

/// A stretch of a track, in whole seconds. A `length` of zero stands for
/// "to the end of the track".
#[derive(Clone, Copy, Debug, PartialEq, Eq, Structural)]
pub struct PlaybackWindow {
    /// Seconds from the start of the track at which playback begins.
    pub start: u64,
    /// Seconds to play; zero means the rest of the track.
    pub length: u64,
}

impl PlaybackWindow {
    /// The window that plays a whole track.
    pub open spec fn whole() -> PlaybackWindow {
        PlaybackWindow { start: 0, length: 0 }
    }

    /// Whether the window lies inside a track of `total` seconds and names
    /// its own length.
    pub open spec fn fits(self, total: u64) -> bool {
        &&& self.start + self.length <= total
        &&& total > 0 ==> self.start < total
        &&& self.start + self.length == total || self.length > 0
    }

    /// The window that is played of a track of `total` seconds when `self` is
    /// asked for. A start at or past the end is moved to the beginning; a
    /// window that has no length of its own, or that as asked would run past
    /// the end, runs from its start to the end.
    pub open spec fn clamp_to(self, total: u64) -> PlaybackWindow {
        let start = if self.start < total {
            self.start
        } else {
            0
        };
        let length = if self.length == 0 || self.start + self.length > total {
            (total - start) as u64
        } else {
            self.length
        };
        PlaybackWindow { start, length }
    }

    /// Clamps the window to a track that is `total` seconds long.
    pub fn normalize(self, total: u64) -> (w: PlaybackWindow)
        ensures
            w == self.clamp_to(total),
            w.fits(total),
    {
        if self.start >= total {
            PlaybackWindow { start: 0, length: total }
        } else if self.length == 0 || self.length > total - self.start {
            PlaybackWindow { start: self.start, length: total - self.start }
        } else {
            self
        }
    }
}

/// A window that already fits its track is left as it is.
pub proof fn lemma_clamp_keeps_fitting(w: PlaybackWindow, total: u64)
    requires
        w.fits(total),
    ensures
        w.clamp_to(total) == w,
{
}

/// Clamping a second time changes nothing.
pub proof fn lemma_clamp_idempotent(w: PlaybackWindow, total: u64)
    ensures
        w.clamp_to(total).clamp_to(total) == w.clamp_to(total),
{
}

} // verus!

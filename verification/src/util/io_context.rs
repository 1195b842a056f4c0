//! The state that file I/O carries along: progress reports, once a second.

use vstd::prelude::*;
use crate::util::progress::Progress;

verus! {

/// One second, in the milliseconds that `Progress` counts.
pub const PROGRESS_DEBOUNCE_MS: u64 = 1000;

/// What I/O carries along.
pub struct IoContext {
    progress: Progress,
}

impl IoContext {
    /// The progress state.
    pub closed spec fn progress_spec(&self) -> Progress {
        self.progress
    }

    /// Progress once a second, starting at `now`.
    pub fn new(now: u64) -> (c: Self)
        ensures
            c.progress_spec().next_log() == now,
            c.progress_spec().debounce_spec() == PROGRESS_DEBOUNCE_MS,
    {
        Self { progress: Progress::with_duration(PROGRESS_DEBOUNCE_MS, now) }
    }

    /// Whether to show a message at `now` (see `Progress::update`).
    pub fn update(&mut self, now: u64) -> (shown: bool)
        requires
            now + old(self).progress_spec().debounce_spec() <= u64::MAX,
        ensures
            shown == (now >= old(self).progress_spec().next_log()),
            shown ==> final(self).progress_spec().next_log() == now + old(self).progress_spec().debounce_spec(),
            !shown ==> final(self).progress_spec().next_log() == old(self).progress_spec().next_log(),
            final(self).progress_spec().debounce_spec() == old(self).progress_spec().debounce_spec(),
    {
        self.progress.update(now)
    }
}

} // verus!

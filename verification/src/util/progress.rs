//! Debounced progress messages.  The clock is read by the caller and passed in, in milliseconds
//! from any fixed start; a message that this decides to show is printed by the caller.

use vstd::prelude::*;

verus! {

/// Shows a progress message at most once per `debounce`.
pub struct Progress {
    can_next_log: u64,
    debounce: u64,
}

impl Progress {
    /// The time before which no message is shown.
    pub closed spec fn next_log(&self) -> u64 {
        self.can_next_log
    }

    /// The least time between two messages.
    pub closed spec fn debounce_spec(&self) -> u64 {
        self.debounce
    }

    /// Progress that may show a message at once, at `now`, and then once per `debounce`.
    pub fn with_duration(debounce: u64, now: u64) -> (p: Self)
        ensures
            p.next_log() == now,
            p.debounce_spec() == debounce,
    {
        Self { can_next_log: now, debounce }
    }

    /// Whether a message may be shown at `now`.
    pub fn can_update(&self, now: u64) -> (b: bool)
        ensures
            b == shows_at(self.next_log(), now),
    {
        now >= self.can_next_log
    }

    /// Shows a message at `now` whatever the time: none is shown before `now + debounce`.
    pub fn force_update(&mut self, now: u64)
        requires
            now + old(self).debounce_spec() <= u64::MAX,
        ensures
            final(self).next_log() == now + old(self).debounce_spec(),
            final(self).debounce_spec() == old(self).debounce_spec(),
    {
        self.can_next_log = now + self.debounce;
    }

    /// Whether to show a message at `now`; when it is shown, the next one waits `debounce`.
    pub fn update(&mut self, now: u64) -> (shown: bool)
        requires
            now + old(self).debounce_spec() <= u64::MAX,
        ensures
            shown == shows_at(old(self).next_log(), now),
            shown ==> final(self).next_log() == now + old(self).debounce_spec(),
            !shown ==> final(self).next_log() == old(self).next_log(),
            final(self).debounce_spec() == old(self).debounce_spec(),
    {
        if !self.can_update(now) {
            return false;
        }
        self.force_update(now);
        true
    }
}

/// Whether a message is shown at `now` when none is to be shown before `next_log`.
pub open spec fn shows_at(next_log: u64, now: u64) -> bool {
    now >= next_log
}

/// Messages are at least `debounce` apart: after one is shown at `t`, none is shown before
/// `t + debounce`, and one is shown from then on.
pub proof fn law_debounced(t: u64, debounce: u64, later: u64)
    requires
        t + debounce <= u64::MAX,
    ensures
        later < t + debounce ==> !shows_at((t + debounce) as u64, later),
        later >= t + debounce ==> shows_at((t + debounce) as u64, later),
{
}

} // verus!

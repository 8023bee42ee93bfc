//! The progress clock's arithmetic: a session extrapolates the playback
//! position from a base offset and a wall-clock anchor. Times are whole
//! milliseconds; `now` is read from a monotonic clock by the caller.
use vstd::prelude::*;

verus! {

/// The interval, in milliseconds, at which the clock writes the position.
pub const TICK_MS: u64 = 200;

/// `a + b`, capped at the largest `u64`.
pub open spec fn add_capped(a: u64, b: u64) -> u64 {
    if a + b > u64::MAX { u64::MAX } else { (a + b) as u64 }
}

/// One clock session: the position at the last start, pause or seek, the
/// instant from which time is counted (none while paused), and whether the
/// clock is paused.
#[derive(Clone, Copy, Debug, PartialEq, Eq, Structural)]
pub struct ProgressSession {
    pub base_position: u64,
    pub anchor: Option<u64>,
    pub paused: bool,
}

impl ProgressSession {
    /// The position at `now`: the base plus the time since the anchor.
    pub open spec fn position_at(self, now: u64) -> u64 {
        match self.anchor {
            Some(a) => add_capped(self.base_position, if now >= a { (now - a) as u64 } else { 0 }),
            None => self.base_position,
        }
    }

    /// A session counting from `position`, anchored at `now`.
    pub fn start(position: u64, paused: bool, now: u64) -> (r: ProgressSession)
        ensures
            r == (ProgressSession { base_position: position, anchor: Some(now), paused }),
    {
        ProgressSession { base_position: position, anchor: Some(now), paused }
    }

    /// The position at `now`.
    pub fn elapsed(&self, now: u64) -> (r: u64)
        ensures
            r == self.position_at(now),
    {
        match self.anchor {
            Some(a) => {
                let since: u64 = if now >= a { now - a } else { 0 };
                if since > u64::MAX - self.base_position {
                    u64::MAX
                } else {
                    self.base_position + since
                }
            },
            None => self.base_position,
        }
    }

    /// What a tick at `now` writes: nothing while paused, else the position.
    pub fn tick(&self, now: u64) -> (r: Option<u64>)
        ensures
            r == (if self.paused { None } else { Some(self.position_at(now)) }),
    {
        if self.paused {
            None
        } else {
            Some(self.elapsed(now))
        }
    }

    /// Freezes the clock: the time since the anchor is folded into the base.
    pub fn pause(&mut self, now: u64)
        ensures
            old(self).paused ==> *final(self) == *old(self),
            !old(self).paused ==> *final(self) == (ProgressSession {
                base_position: old(self).position_at(now),
                anchor: None,
                paused: true,
            }),
    {
        if !self.paused {
            let pos = self.elapsed(now);
            self.base_position = pos;
            self.anchor = None;
            self.paused = true;
        }
    }

    /// Lets the clock run again from `now`, keeping the base.
    pub fn resume(&mut self, now: u64)
        ensures
            !old(self).paused ==> *final(self) == *old(self),
            old(self).paused ==> *final(self) == (ProgressSession {
                base_position: old(self).base_position,
                anchor: Some(now),
                paused: false,
            }),
    {
        if self.paused {
            self.anchor = Some(now);
            self.paused = false;
        }
    }

    /// Moves to `position` and stays frozen there.
    pub fn seek_and_pause(&mut self, position: u64)
        ensures
            *final(self) == (ProgressSession { base_position: position, anchor: None, paused: true }),
    {
        self.base_position = position;
        self.anchor = None;
        self.paused = true;
    }

    /// Moves to `position` and runs from `now`.
    pub fn seek_and_resume(&mut self, position: u64, now: u64)
        ensures
            *final(self) == (ProgressSession {
                base_position: position,
                anchor: Some(now),
                paused: false,
            }),
    {
        self.base_position = position;
        self.anchor = Some(now);
        self.paused = false;
    }
}

impl ProgressSession {
    /// Moves to `position`, frozen when playback is `paused`, else running
    /// from `now`.
    pub fn seek(&mut self, position: u64, now: u64, paused: bool)
        ensures
            *final(self) == (ProgressSession {
                base_position: position,
                anchor: if paused { None } else { Some(now) },
                paused,
            }),
    {
        if paused {
            self.seek_and_pause(position);
        } else {
            self.seek_and_resume(position, now);
        }
    }
}

/// Pausing and resuming loses no time and adds none: after a pause at `t1`
/// and a resume at `t2`, the position at `t3` is the position at the pause
/// plus the time since the resume.
pub proof fn lemma_pause_resume_drift_free(s: ProgressSession, t1: u64, t2: u64, t3: u64)
    requires
        !s.paused,
        s.anchor is Some,
        s.anchor.unwrap() <= t1 <= t2 <= t3,
        s.position_at(t1) + (t3 - t2) <= u64::MAX,
    ensures
        ({
            let p = ProgressSession { base_position: s.position_at(t1), anchor: None, paused: true };
            let r = ProgressSession { base_position: p.base_position, anchor: Some(t2), paused: false };
            r.position_at(t3) == s.position_at(t1) + (t3 - t2)
        }),
{
}

/// Within one tick interval of a seek to `position` that keeps playing, the
/// clock reports a position no earlier than the target and at most one
/// interval later.
pub proof fn lemma_seek_within_tick(position: u64, now: u64, t: u64)
    requires
        now <= t <= now + TICK_MS,
        position + TICK_MS <= u64::MAX,
    ensures
        ({
            let r = ProgressSession { base_position: position, anchor: Some(now), paused: false };
            &&& r.position_at(t) >= position
            &&& r.position_at(t) <= position + TICK_MS
        }),
{
}

} // verus!

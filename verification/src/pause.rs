//! Pause and resume accounting for one session, in milliseconds.

use vstd::prelude::*;
use crate::error::RecordingError;

verus! {

/// The mathematical state of the accounting.
pub struct PauseModel {
    /// When the session started.
    pub started_at: int,
    /// The latest instant the accounting has seen.
    pub clock: int,
    /// The summed length of all closed pause intervals.
    pub total_pause: int,
    /// The start of the open pause interval, if one is open.
    pub open_since: Option<int>,
}

impl PauseModel {
    /// The instant a reading taken at `now` counts as: time never runs back.
    pub open spec fn instant(self, now: int) -> int {
        if now >= self.clock {
            now
        } else {
            self.clock
        }
    }

    /// Time since the session started.
    pub open spec fn total_duration(self, now: int) -> int {
        self.instant(now) - self.started_at
    }

    /// Time since the session started that does not lie in a closed pause interval.
    pub open spec fn active_duration(self, now: int) -> int {
        self.total_duration(now) - self.total_pause
    }

    /// The length so far of the open pause interval.
    pub open spec fn current_pause_duration(self, now: int) -> Option<int> {
        match self.open_since {
            Some(since) => Some(self.instant(now) - since),
            None => None,
        }
    }

    /// The state after a pause at `now`.
    pub open spec fn paused(self, now: int) -> PauseModel {
        PauseModel { clock: self.instant(now), open_since: Some(self.instant(now)), ..self }
    }

    /// The state after the open interval is closed at `now`.
    pub open spec fn resumed(self, now: int) -> PauseModel {
        PauseModel {
            clock: self.instant(now),
            total_pause: self.total_pause + (self.instant(now) - self.open_since.unwrap()),
            open_since: None,
            ..self
        }
    }

    /// Pauses lie inside the session and at most one interval is open.
    pub open spec fn consistent(self) -> bool {
        &&& 0 <= self.started_at <= self.clock <= u64::MAX
        &&& 0 <= self.total_pause
        &&& match self.open_since {
            Some(since) => self.started_at <= since <= self.clock && self.total_pause <= since
                - self.started_at,
            None => self.total_pause <= self.clock - self.started_at,
        }
    }
}

/// Durations of one session: total, paused and active time.
pub struct PauseAccounting {
    started_at: u64,
    clock: u64,
    total_pause: u64,
    pause_started_at: Option<u64>,
}

impl View for PauseAccounting {
    type V = PauseModel;

    closed spec fn view(&self) -> PauseModel {
        PauseModel {
            started_at: self.started_at as int,
            clock: self.clock as int,
            total_pause: self.total_pause as int,
            open_since: match self.pause_started_at {
                Some(since) => Some(since as int),
                None => None,
            },
        }
    }
}

impl PauseAccounting {
    /// The accounting's invariant.
    pub open spec fn wf(&self) -> bool {
        self@.consistent()
    }

    /// Accounting for a session that starts at `now`.
    pub fn new(now: u64) -> (r: PauseAccounting)
        ensures
            r.wf(),
            r@ == (PauseModel { started_at: now as int, clock: now as int, total_pause: 0, open_since: None }),
    {
        PauseAccounting { started_at: now, clock: now, total_pause: 0, pause_started_at: None }
    }

    fn instant(&self, now: u64) -> (r: u64)
        ensures
            r as int == self@.instant(now as int),
    {
        if now >= self.clock {
            now
        } else {
            self.clock
        }
    }

    pub fn is_paused(&self) -> (r: bool)
        ensures
            r == self@.open_since.is_some(),
    {
        self.pause_started_at.is_some()
    }

    /// Opens a pause interval at `now`, unless one is open.
    pub fn pause(&mut self, now: u64) -> (r: Result<(), RecordingError>)
        requires
            old(self).wf(),
        ensures
            final(self).wf(),
            old(self)@.open_since.is_some() ==> r == Err::<(), RecordingError>(
                RecordingError::AlreadyPaused,
            ) && *final(self) == *old(self),
            old(self)@.open_since.is_none() ==> r.is_ok() && final(self)@ == old(self)@.paused(
                now as int,
            ),
    {
        if self.pause_started_at.is_some() {
            return Err(RecordingError::AlreadyPaused);
        }
        let at = self.instant(now);
        self.clock = at;
        self.pause_started_at = Some(at);
        Ok(())
    }

    /// Closes the open pause interval at `now` and adds its length to the
    /// paused total.
    pub fn resume(&mut self, now: u64) -> (r: Result<(), RecordingError>)
        requires
            old(self).wf(),
        ensures
            final(self).wf(),
            old(self)@.open_since.is_none() ==> r == Err::<(), RecordingError>(
                RecordingError::NotPaused,
            ) && *final(self) == *old(self),
            old(self)@.open_since.is_some() ==> r.is_ok() && final(self)@ == old(self)@.resumed(
                now as int,
            ),
    {
        match self.pause_started_at {
            None => Err(RecordingError::NotPaused),
            Some(since) => {
                let at = self.instant(now);
                self.total_pause = self.total_pause + (at - since);
                self.clock = at;
                self.pause_started_at = None;
                Ok(())
            },
        }
    }

    /// Time since the session started.
    pub fn total_duration(&self, now: u64) -> (r: u64)
        requires
            self.wf(),
        ensures
            r as int == self@.total_duration(now as int),
    {
        self.instant(now) - self.started_at
    }

    /// The summed length of the closed pause intervals.
    pub fn total_pause_duration(&self) -> (r: u64)
        ensures
            r as int == self@.total_pause,
    {
        self.total_pause
    }

    /// Total time less the paused total; the two always add up to the total.
    pub fn active_duration(&self, now: u64) -> (r: u64)
        requires
            self.wf(),
        ensures
            r as int == self@.active_duration(now as int),
            r as int + self@.total_pause == self@.total_duration(now as int),
    {
        self.instant(now) - self.started_at - self.total_pause
    }

    /// The length so far of the open pause interval, if one is open.
    pub fn current_pause_duration(&self, now: u64) -> (r: Option<u64>)
        requires
            self.wf(),
        ensures
            match r {
                Some(d) => self@.current_pause_duration(now as int) == Some(d as int),
                None => self@.current_pause_duration(now as int).is_none(),
            },
    {
        match self.pause_started_at {
            Some(since) => Some(self.instant(now) - since),
            None => None,
        }
    }
}

/// Active time and paused time add up to total time, at every instant and in
/// every consistent state, and none of the three is negative.
pub proof fn lemma_durations_add_up(m: PauseModel, now: int)
    requires
        m.consistent(),
    ensures
        m.active_duration(now) + m.total_pause == m.total_duration(now),
        0 <= m.active_duration(now) <= m.total_duration(now),
        0 <= m.total_pause <= m.total_duration(now),
{
}

/// Pausing and resuming keep the state consistent, so the sum above holds
/// after any number of pause and resume cycles.
pub proof fn lemma_cycle_keeps_consistent(m: PauseModel, pause_at: int, resume_at: int)
    requires
        m.consistent(),
        m.open_since.is_none(),
        pause_at <= u64::MAX,
        resume_at <= u64::MAX,
    ensures
        m.paused(pause_at).consistent(),
        m.paused(pause_at).resumed(resume_at).consistent(),
        m.paused(pause_at).resumed(resume_at).total_pause == m.total_pause + (m.paused(
            pause_at,
        ).instant(resume_at) - m.instant(pause_at)),
{
}

} // verus!

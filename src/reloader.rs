use std::sync::Arc;
use vstd::prelude::*;
use crate::dataset::Dataset;
use crate::period::{
    effective_period, local_today, CalendarDate, DatasetInfo, FeedConstructionInfo, Period,
};
use crate::store::DatasetStore;

verus! {

/// Seconds between two regular rebuilds.
pub const RELOAD_INTERVAL_SECS: u64 = 86400;

/// Seconds to wait after a failed build before trying again.
pub const RETRY_DELAY_SECS: u64 = 300;

/// Where the reloader stands.
#[derive(Clone, Copy, Debug, PartialEq, Eq, Structural)]
pub enum Phase {
    /// Waiting for the next regular tick.
    Idle,
    /// A rebuild is in progress; no timer is pending.
    Building,
    /// Waiting for the retry delay after a failed build.
    Cooldown,
}

/// The kind of the one timer a waiting reloader has armed.
#[derive(Clone, Copy, Debug, PartialEq, Eq, Structural)]
pub enum TimerKind {
    Reload,
    Retry,
}

/// A pending timer: its kind and the second at which it fires.
#[derive(Clone, Copy, Debug, PartialEq, Eq, Structural)]
pub struct PendingTimer {
    pub kind: TimerKind,
    pub due: u64,
}

/// Bookkeeping of the reloader: when the next attempt is due, and how many
/// builds have failed since the last success.
#[derive(Clone, Copy, Debug, PartialEq, Eq, Structural)]
pub struct RetryState {
    pub next_attempt_due: u64,
    pub failure_streak: u64,
}

/// Why a build could not produce a dataset.
#[derive(Clone, Debug)]
pub struct BuildError {
    pub message: String,
}

/// A rebuild to perform: the feed source and the period to cover.
#[derive(Clone, Debug)]
pub struct BuildRequest {
    pub dataset_info: DatasetInfo,
    pub period: Period,
}

/// What to report to operators about a failed build.
#[derive(Clone, Debug)]
pub struct FailureReport {
    /// Identifier of the feed source that failed.
    pub dataset_id: String,
    pub message: String,
    /// Consecutive failures, this one included.
    pub failure_streak: u64,
}

/// `a + b`, or the largest `u64` when the sum does not fit.
pub open spec fn saturating_sum(a: u64, b: u64) -> u64 {
    if a + b > u64::MAX { u64::MAX } else { (a + b) as u64 }
}

/// Reloads the base schedule on a fixed cadence and retries failed builds
/// after a fixed delay. It performs no build itself: it says which build to
/// run and when, and decides what to do with the outcome.
pub struct BaseScheduleReloader {
    pub feed_construction_info: FeedConstructionInfo,
    pub phase: Phase,
    pub retry: RetryState,
    /// When the regular cadence brings the next tick.
    pub next_regular_due: u64,
}

impl BaseScheduleReloader {
    /// The timer a reloader in this state has pending: none while building,
    /// else exactly one, due when the next attempt is.
    pub open spec fn pending_spec(&self) -> Option<PendingTimer> {
        match self.phase {
            Phase::Building => None,
            Phase::Idle => Some(
                PendingTimer { kind: TimerKind::Reload, due: self.retry.next_attempt_due },
            ),
            Phase::Cooldown => Some(
                PendingTimer { kind: TimerKind::Retry, due: self.retry.next_attempt_due },
            ),
        }
    }

    /// A reloader started at second `now`: idle, with its first tick due at
    /// once rather than after a full interval.
    pub fn started(feed_construction_info: FeedConstructionInfo, now: u64) -> (r: Self)
        ensures
            r.feed_construction_info == feed_construction_info,
            r.phase == Phase::Idle,
            r.retry == (RetryState { next_attempt_due: now, failure_streak: 0 }),
            r.next_regular_due == now,
            r.pending_spec() == Some(PendingTimer { kind: TimerKind::Reload, due: now }),
            r.fires_at(now),
    {
        BaseScheduleReloader {
            feed_construction_info,
            phase: Phase::Idle,
            retry: RetryState { next_attempt_due: now, failure_streak: 0 },
            next_regular_due: now,
        }
    }

    /// The one timer pending, if any.
    pub fn pending_timer(&self) -> (r: Option<PendingTimer>)
        ensures
            r == self.pending_spec(),
    {
        match self.phase {
            Phase::Building => None,
            Phase::Idle => Some(PendingTimer { kind: TimerKind::Reload, due: self.retry.next_attempt_due }),
            Phase::Cooldown => Some(PendingTimer { kind: TimerKind::Retry, due: self.retry.next_attempt_due }),
        }
    }

    /// Whether a timer firing at second `now` starts a rebuild: one is pending
    /// and it is due.
    pub open spec fn fires_at(&self, now: u64) -> bool {
        self.phase != Phase::Building && now >= self.retry.next_attempt_due
    }

    /// The state after a due timer fired: building, with the regular cadence
    /// moved one interval on when the timer was the regular one.
    pub open spec fn after_firing(&self) -> Self {
        BaseScheduleReloader {
            feed_construction_info: self.feed_construction_info,
            phase: Phase::Building,
            retry: self.retry,
            next_regular_due: if self.phase == Phase::Idle {
                saturating_sum(self.retry.next_attempt_due, RELOAD_INTERVAL_SECS)
            } else {
                self.next_regular_due
            },
        }
    }

    /// A timer fired at second `now`, on calendar day `today`. When it was due
    /// the reloader starts building and returns the rebuild to run: the feed
    /// source, over a period that begins `today` and keeps the configured
    /// horizon. Otherwise (a build is running, or the wake-up is early) nothing
    /// changes and no build is asked for, so builds never overlap.
    pub fn timer_fired_on(&mut self, now: u64, today: CalendarDate) -> (r: Option<BuildRequest>)
        ensures
            old(self).fires_at(now) ==> {
                &&& *final(self) == old(self).after_firing()
                &&& r matches Some(req) && req.dataset_info.id@
                    == old(self).feed_construction_info.dataset_info.id@
                    && req.dataset_info.source@ == old(self).feed_construction_info.dataset_info.source@
                    && req.period == effective_period(old(self).feed_construction_info, today)
            },
            !old(self).fires_at(now) ==> r is None && *final(self) == *old(self),
    {
        if self.phase == Phase::Building || now < self.retry.next_attempt_due {
            return None;
        }
        if self.phase == Phase::Idle {
            self.next_regular_due = self.retry.next_attempt_due.saturating_add(RELOAD_INTERVAL_SECS);
        }
        self.phase = Phase::Building;
        Some(
            BuildRequest {
                dataset_info: self.feed_construction_info.dataset_info.duplicate(),
                period: Period {
                    begin: today,
                    horizon_days: self.feed_construction_info.generation_period.horizon_days,
                },
            },
        )
    }

    /// A timer fired at second `now`: as `timer_fired_on`, with today's date
    /// read from the local clock as the beginning of the period.
    pub fn timer_fired(&mut self, now: u64) -> (r: Option<BuildRequest>)
        ensures
            old(self).fires_at(now) ==> {
                &&& *final(self) == old(self).after_firing()
                &&& r matches Some(req) && req.dataset_info.id@
                    == old(self).feed_construction_info.dataset_info.id@
                    && req.dataset_info.source@ == old(self).feed_construction_info.dataset_info.source@
                    && req.period.begin.valid()
                    && req.period.horizon_days
                    == old(self).feed_construction_info.generation_period.horizon_days
            },
            !old(self).fires_at(now) ==> r is None && *final(self) == *old(self),
    {
        let today = local_today();
        self.timer_fired_on(now, today)
    }

    /// The state after a successful build: idle, failure streak reset, next
    /// attempt at the regular cadence.
    pub open spec fn after_success(&self) -> Self {
        BaseScheduleReloader {
            feed_construction_info: self.feed_construction_info,
            phase: Phase::Idle,
            retry: RetryState { next_attempt_due: self.next_regular_due, failure_streak: 0 },
            next_regular_due: self.next_regular_due,
        }
    }

    /// The state after a build failed at second `now`: cooling down, one more
    /// failure in the streak, a single retry due after the fixed delay.
    pub open spec fn after_failure(&self, now: u64) -> Self {
        BaseScheduleReloader {
            feed_construction_info: self.feed_construction_info,
            phase: Phase::Cooldown,
            retry: RetryState {
                next_attempt_due: saturating_sum(now, RETRY_DELAY_SECS),
                failure_streak: saturating_sum(self.retry.failure_streak, 1),
            },
            next_regular_due: self.next_regular_due,
        }
    }

    /// The build started by the last due timer ended at second `now` with
    /// `new_dataset`. On success the dataset is published to `store` and the
    /// reloader waits for its regular cadence. On failure the store is left as
    /// it was, one retry is armed after the fixed delay, and the failure is
    /// returned for reporting, tagged with the feed source's identifier. An
    /// outcome that arrives while no build is running is dropped.
    pub fn update_data(
        &mut self,
        new_dataset: Result<Dataset, BuildError>,
        now: u64,
        store: &mut DatasetStore,
    ) -> (r: Option<FailureReport>)
        ensures
            old(self).phase != Phase::Building ==> {
                &&& r is None
                &&& *final(self) == *old(self)
                &&& final(store)@ == old(store)@
            },
            old(self).phase == Phase::Building ==> match new_dataset {
                Ok(d) => {
                    &&& r is None
                    &&& *final(self) == old(self).after_success()
                    &&& final(store)@ matches Some(a) && *a == d
                },
                Err(e) => {
                    &&& *final(self) == old(self).after_failure(now)
                    &&& final(store)@ == old(store)@
                    &&& r matches Some(rep) && rep.dataset_id@
                        == old(self).feed_construction_info.dataset_info.id@
                        && rep.message@ == e.message@
                        && rep.failure_streak == final(self).retry.failure_streak
                },
            },
    {
        if self.phase != Phase::Building {
            return None;
        }
        match new_dataset {
            Ok(d) => {
                store.publish(Arc::new(d));
                self.phase = Phase::Idle;
                self.retry = RetryState { next_attempt_due: self.next_regular_due, failure_streak: 0 };
                None
            },
            Err(e) => {
                self.phase = Phase::Cooldown;
                self.retry = RetryState {
                    next_attempt_due: now.saturating_add(RETRY_DELAY_SECS),
                    failure_streak: self.retry.failure_streak.saturating_add(1),
                };
                Some(
                    FailureReport {
                        dataset_id: self.feed_construction_info.dataset_info.id.clone(),
                        message: e.message,
                        failure_streak: self.retry.failure_streak,
                    },
                )
            },
        }
    }
}

/// A failed build arms exactly one timer, the retry, due the fixed delay after
/// the failure, and nothing fires before it. Firing it starts the same rebuild
/// again, with the regular cadence left where it was, and a further failure
/// again leaves exactly one retry pending.
pub proof fn lemma_failure_arms_one_retry(s: BaseScheduleReloader, now: u64, later: u64)
    requires
        s.phase == Phase::Building,
    ensures
        s.after_failure(now).pending_spec() == Some(
            PendingTimer { kind: TimerKind::Retry, due: saturating_sum(now, RETRY_DELAY_SECS) },
        ),
        s.after_failure(now).retry.failure_streak == saturating_sum(s.retry.failure_streak, 1),
        s.after_failure(now).fires_at(later) <==> later >= saturating_sum(now, RETRY_DELAY_SECS),
        s.after_failure(now).after_firing().phase == Phase::Building,
        s.after_failure(now).after_firing().next_regular_due == s.next_regular_due,
        s.after_failure(now).after_firing().after_failure(later).pending_spec() == Some(
            PendingTimer { kind: TimerKind::Retry, due: saturating_sum(later, RETRY_DELAY_SECS) },
        ),
{
}

/// A successful build leaves the reloader waiting for its regular tick alone,
/// with no failure counted.
pub proof fn lemma_success_rearms_regular_tick(s: BaseScheduleReloader)
    requires
        s.phase == Phase::Building,
    ensures
        s.after_success().pending_spec() == Some(
            PendingTimer { kind: TimerKind::Reload, due: s.next_regular_due },
        ),
        s.after_success().retry.failure_streak == 0,
{
}

} // verus!

//! Refresh timers: when new data must be fetched.
//!
//! Time is a count of milliseconds on a clock that never runs backwards;
//! the caller reads the clock and hands the reading in.

use vstd::prelude::*;

verus! {

/// Interval of the general list refresh, in milliseconds.
pub const GENERAL_INTERVAL_MS: u64 = 5000;

/// Interval of the log tail refresh, in milliseconds.
pub const LOGS_INTERVAL_MS: u64 = 2000;

/// Interval of the description refresh, in milliseconds.
pub const DESCRIBE_INTERVAL_MS: u64 = 5000;

/// Interval of the manifest refresh, in milliseconds.
pub const YAML_INTERVAL_MS: u64 = 5000;

/// How far back a forced refresh moves the time of the last fetch, in
/// milliseconds. It is longer than every interval.
pub const FORCE_REFRESH_BACKDATE_MS: u64 = 10000;

/// The classes of data that are refreshed on timers of their own.
#[derive(Debug, Clone, Copy, PartialEq, Eq, Structural)]
pub enum RefreshClass {
    General,
    Logs,
    Describe,
    Yaml,
}

/// The timer of one refresh class.
#[derive(Debug, Clone, Copy, PartialEq, Eq, Structural)]
pub struct RefreshTimer {
    pub enabled: bool,
    pub interval: u64,
    pub last_fetch: u64,
}

impl RefreshTimer {
    /// Whether a fetch is due at time `now`: the timer is enabled and at
    /// least one interval has passed since the last fetch.
    pub open spec fn is_due(self, now: u64) -> bool {
        self.enabled && now - self.last_fetch >= self.interval
    }

    /// The timer after a fetch at time `now`.
    pub open spec fn refreshed(self, now: u64) -> RefreshTimer {
        RefreshTimer { last_fetch: now, ..self }
    }

    /// The timer with `enabled` flipped. The time of the last fetch stays.
    pub open spec fn toggled(self) -> RefreshTimer {
        RefreshTimer { enabled: !self.enabled, ..self }
    }

    /// The timer after a forced refresh at time `now`: the last fetch is
    /// moved back by `FORCE_REFRESH_BACKDATE_MS`, or set to `now` when the
    /// clock has not run that long.
    pub open spec fn forced(self, now: u64) -> RefreshTimer {
        RefreshTimer {
            last_fetch: if now >= FORCE_REFRESH_BACKDATE_MS {
                (now - FORCE_REFRESH_BACKDATE_MS) as u64
            } else {
                now
            },
            ..self
        }
    }

    /// A timer with the given setting and interval whose last fetch was at
    /// `now`.
    pub fn new(enabled: bool, interval: u64, now: u64) -> (t: RefreshTimer)
        ensures
            t == (RefreshTimer { enabled, interval, last_fetch: now }),
    {
        RefreshTimer { enabled, interval, last_fetch: now }
    }

    /// Whether a fetch is due at time `now`.
    pub fn should_refresh(&self, now: u64) -> (due: bool)
        ensures
            due == self.is_due(now),
    {
        self.enabled && now >= self.last_fetch && now - self.last_fetch >= self.interval
    }

    /// Records a fetch at time `now`.
    pub fn mark_refreshed(&mut self, now: u64)
        ensures
            *final(self) == old(self).refreshed(now),
    {
        self.last_fetch = now;
    }

    /// Flips `enabled`. The time of the last fetch is not touched, so
    /// enabling a timer forces no fetch unless its interval has passed.
    pub fn toggle(&mut self)
        ensures
            *final(self) == old(self).toggled(),
    {
        self.enabled = !self.enabled;
    }

    /// Moves the time of the last fetch back so that an enabled timer is
    /// due at once.
    pub fn force(&mut self, now: u64)
        ensures
            *final(self) == old(self).forced(now),
    {
        self.last_fetch = if now >= FORCE_REFRESH_BACKDATE_MS {
            now - FORCE_REFRESH_BACKDATE_MS
        } else {
            now
        };
    }
}

/// One independent timer per refresh class.
#[derive(Debug, Clone, Copy, PartialEq, Eq, Structural)]
pub struct RefreshScheduler {
    pub general: RefreshTimer,
    pub logs: RefreshTimer,
    pub describe: RefreshTimer,
    pub yaml: RefreshTimer,
}

impl RefreshScheduler {
    /// The timer of `class`.
    pub open spec fn spec_timer(self, class: RefreshClass) -> RefreshTimer {
        match class {
            RefreshClass::General => self.general,
            RefreshClass::Logs => self.logs,
            RefreshClass::Describe => self.describe,
            RefreshClass::Yaml => self.yaml,
        }
    }

    /// The scheduler with the timer of `class` replaced.
    pub open spec fn with_timer(self, class: RefreshClass, t: RefreshTimer) -> RefreshScheduler {
        match class {
            RefreshClass::General => RefreshScheduler { general: t, ..self },
            RefreshClass::Logs => RefreshScheduler { logs: t, ..self },
            RefreshClass::Describe => RefreshScheduler { describe: t, ..self },
            RefreshClass::Yaml => RefreshScheduler { yaml: t, ..self },
        }
    }

    /// Whether a fetch of `class` is due at time `now`.
    pub open spec fn is_due(self, class: RefreshClass, now: u64) -> bool {
        self.spec_timer(class).is_due(now)
    }

    /// The scheduler at start-up at time `now`: lists and logs refresh
    /// themselves, descriptions and manifests do not, and every last fetch
    /// is `now`.
    pub open spec fn initial(now: u64) -> RefreshScheduler {
        RefreshScheduler {
            general: RefreshTimer { enabled: true, interval: GENERAL_INTERVAL_MS, last_fetch: now },
            logs: RefreshTimer { enabled: true, interval: LOGS_INTERVAL_MS, last_fetch: now },
            describe: RefreshTimer {
                enabled: false,
                interval: DESCRIBE_INTERVAL_MS,
                last_fetch: now,
            },
            yaml: RefreshTimer { enabled: false, interval: YAML_INTERVAL_MS, last_fetch: now },
        }
    }

    /// The scheduler at start-up at time `now`.
    pub fn new(now: u64) -> (s: RefreshScheduler)
        ensures
            s == RefreshScheduler::initial(now),
    {
        RefreshScheduler {
            general: RefreshTimer::new(true, GENERAL_INTERVAL_MS, now),
            logs: RefreshTimer::new(true, LOGS_INTERVAL_MS, now),
            describe: RefreshTimer::new(false, DESCRIBE_INTERVAL_MS, now),
            yaml: RefreshTimer::new(false, YAML_INTERVAL_MS, now),
        }
    }

    /// The timer of `class`.
    #[verifier::when_used_as_spec(spec_timer)]
    pub fn timer(self, class: RefreshClass) -> (t: RefreshTimer)
        ensures
            t == self.spec_timer(class),
    {
        match class {
            RefreshClass::General => self.general,
            RefreshClass::Logs => self.logs,
            RefreshClass::Describe => self.describe,
            RefreshClass::Yaml => self.yaml,
        }
    }

    /// Replaces the timer of `class`.
    pub fn set_timer(&mut self, class: RefreshClass, t: RefreshTimer)
        ensures
            *final(self) == old(self).with_timer(class, t),
    {
        match class {
            RefreshClass::General => self.general = t,
            RefreshClass::Logs => self.logs = t,
            RefreshClass::Describe => self.describe = t,
            RefreshClass::Yaml => self.yaml = t,
        }
    }

    /// Whether a fetch of `class` is due at time `now`: the class is
    /// enabled and `now - last_fetch >= interval`.
    pub fn should_refresh(&self, class: RefreshClass, now: u64) -> (due: bool)
        ensures
            due == self.is_due(class, now),
    {
        self.timer(class).should_refresh(now)
    }

    /// Records a fetch of `class` at time `now`. The timers of the other
    /// classes are not touched.
    pub fn mark_refreshed(&mut self, class: RefreshClass, now: u64)
        ensures
            *final(self) == old(self).with_timer(class, old(self).spec_timer(class).refreshed(now)),
    {
        let mut t = self.timer(class);
        t.mark_refreshed(now);
        self.set_timer(class, t);
    }

    /// Flips whether `class` refreshes itself, without touching the time of
    /// its last fetch.
    pub fn toggle(&mut self, class: RefreshClass)
        ensures
            *final(self) == old(self).with_timer(class, old(self).spec_timer(class).toggled()),
    {
        let mut t = self.timer(class);
        t.toggle();
        self.set_timer(class, t);
    }

    /// Makes an enabled `class` due at once.
    pub fn force(&mut self, class: RefreshClass, now: u64)
        ensures
            *final(self) == old(self).with_timer(class, old(self).spec_timer(class).forced(now)),
    {
        let mut t = self.timer(class);
        t.force(now);
        self.set_timer(class, t);
    }
}

/// Toggling a timer never changes the time of its last fetch or its
/// interval, and toggling twice restores the timer.
pub proof fn lemma_toggle_keeps_last_fetch(t: RefreshTimer)
    ensures
        t.toggled().last_fetch == t.last_fetch,
        t.toggled().interval == t.interval,
        t.toggled().toggled() == t,
{
}

/// An operation on the timer of one class leaves the timers of all other
/// classes as they were.
pub proof fn lemma_classes_are_independent(
    s: RefreshScheduler,
    class: RefreshClass,
    other: RefreshClass,
    t: RefreshTimer,
)
    requires
        class != other,
    ensures
        s.with_timer(class, t).spec_timer(other) == s.spec_timer(other),
        s.with_timer(class, t).spec_timer(class) == t,
{
}

/// A timer that was just refreshed is not due again before its interval
/// has passed, and is due from then on while it is enabled.
pub proof fn lemma_due_after_interval(t: RefreshTimer, fetched: u64, now: u64)
    requires
        fetched <= now,
    ensures
        t.refreshed(fetched).is_due(now) == (t.enabled && now - fetched >= t.interval),
{
}

/// After a forced refresh at a time when the clock has run for at least
/// `FORCE_REFRESH_BACKDATE_MS`, an enabled timer whose interval is no
/// longer than that is due at once.
pub proof fn lemma_forced_is_due(t: RefreshTimer, now: u64)
    requires
        t.enabled,
        t.interval <= FORCE_REFRESH_BACKDATE_MS,
        now >= FORCE_REFRESH_BACKDATE_MS,
    ensures
        t.forced(now).is_due(now),
{
}

} // verus!

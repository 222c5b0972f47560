//! Reconnect policy and attempt bookkeeping.
//!
//! The controller owns a backoff instance, counts attempts against a
//! configured budget and tracks a stability timer: a disconnect after a
//! sufficiently long uptime is treated as unrelated to past flakiness and
//! resets the accumulated backoff state.
use vstd::prelude::*;
use crate::backoff::ExponentialBackoff;
use crate::backoff::BackoffView;
use crate::events::Error;

verus! {

/// Configuration of the automatic reconnect policy.
#[derive(Debug, Clone, Copy, PartialEq, Eq, Structural)]
pub struct ReconnectConfig {
    /// Attempt budget; once reached, no further attempts are permitted
    /// until a stable connection resets the counter.
    pub max_attempts: u32,
    /// First backoff delay, in milliseconds.
    pub min_delay_ms: u64,
    /// Backoff delay cap, in milliseconds.
    pub max_delay_ms: u64,
    /// Minimum uptime, in milliseconds, after which a disconnect resets
    /// the attempt counter.
    pub stability_threshold_ms: u64,
}

impl ReconnectConfig {
    /// A configuration is valid when the delay cap does not undercut the
    /// first delay.
    pub open spec fn valid(&self) -> bool {
        self.min_delay_ms <= self.max_delay_ms
    }
}

impl Default for ReconnectConfig {
    /// Ten attempts, delays from one second up to thirty seconds, and a
    /// ten-second stability threshold.
    fn default() -> (r: Self)
        ensures
            r == (ReconnectConfig {
                max_attempts: 10,
                min_delay_ms: 1000,
                max_delay_ms: 30000,
                stability_threshold_ms: 10000,
            }),
    {
        ReconnectConfig {
            max_attempts: 10,
            min_delay_ms: 1000,
            max_delay_ms: 30000,
            stability_threshold_ms: 10000,
        }
    }
}

/// The abstract state of a reconnect controller.
pub ghost struct ReconnectView {
    /// The configured policy.
    pub config: ReconnectConfig,
    /// Attempts recorded since the last reset.
    pub attempts: nat,
    /// When the last attempt was recorded, if any.
    pub last_attempt: Option<nat>,
    /// When the current connection came up, if it is up.
    pub connected_since: Option<nat>,
    /// The delay gating the next attempt, in milliseconds.
    pub gate_delay: nat,
}

/// The controller state a disconnect at time `now` leaves behind: held
/// up for at least the stability threshold, the attempt counter and the
/// backoff return to their initial values; a shorter uptime preserves
/// the accumulated state, so a persistent failure keeps its escalated
/// delay. Either way the session is no longer connected.
pub open spec fn spec_after_disconnect(v: ReconnectView, now_ms: nat) -> ReconnectView {
    let stable = match v.connected_since {
        Option::None => false,
        Option::Some(up) => now_ms >= up + v.config.stability_threshold_ms,
    };
    if stable {
        ReconnectView {
            attempts: 0,
            last_attempt: Option::None,
            gate_delay: 0,
            connected_since: Option::None,
            ..v
        }
    } else {
        ReconnectView { connected_since: Option::None, ..v }
    }
}

/// Whether a reconnect attempt is permitted at time `now`: the attempt
/// budget is not exhausted, and either no attempt was recorded yet or the
/// time elapsed since the last one has reached the gating delay.
pub open spec fn spec_can_attempt(v: ReconnectView, now_ms: nat) -> bool {
    &&& v.attempts < v.config.max_attempts
    &&& match v.last_attempt {
        Option::None => true,
        Option::Some(last) => now_ms >= last + v.gate_delay,
    }
}

/// Decides whether and when reconnect attempts are permitted.
pub struct ReconnectHandler {
    /// The configured policy.
    pub config: ReconnectConfig,
    backoff: ExponentialBackoff,
    attempts: u32,
    last_attempt_ms: Option<u64>,
    connected_since_ms: Option<u64>,
}

impl View for ReconnectHandler {
    type V = ReconnectView;

    closed spec fn view(&self) -> ReconnectView {
        ReconnectView {
            config: self.config,
            attempts: self.attempts as nat,
            last_attempt: match self.last_attempt_ms {
                Option::None => Option::None,
                Option::Some(t) => Option::Some(t as nat),
            },
            connected_since: match self.connected_since_ms {
                Option::None => Option::None,
                Option::Some(t) => Option::Some(t as nat),
            },
            gate_delay: self.backoff@.last,
        }
    }
}

impl ReconnectHandler {
    /// A controller is well formed when its policy was validated and its
    /// backoff instance matches that policy.
    pub open spec fn wf(&self) -> bool {
        &&& self@.config.valid()
        &&& self@.gate_delay <= self@.config.max_delay_ms
        &&& self.backoff_wf()
    }

    /// The backoff coupling, kept opaque to callers.
    pub closed spec fn backoff_wf(&self) -> bool {
        &&& self.backoff.wf()
        &&& self.backoff@.initial == self.config.min_delay_ms as nat
        &&& self.backoff@.max == self.config.max_delay_ms as nat
        &&& self.backoff@.factor == 2
    }

    /// Creates a controller for the given policy.
    ///
    /// A policy whose delay cap undercuts its first delay is a
    /// configuration error reported here.
    pub fn new(config: ReconnectConfig) -> (r: Result<Self, Error>)
        ensures
            config.valid() <==> r is Ok,
            r matches Err(e) ==> e == Error::InvalidParam,
            r matches Ok(h) ==> h.wf() && h@ == (ReconnectView {
                config,
                attempts: 0,
                last_attempt: Option::None,
                connected_since: Option::None,
                gate_delay: 0,
            }),
    {
        let backoff = match ExponentialBackoff::new(config.min_delay_ms, config.max_delay_ms, 2) {
            Ok(b) => b,
            Err(e) => {
                return Err(e);
            },
        };
        Ok(ReconnectHandler {
            config,
            backoff,
            attempts: 0,
            last_attempt_ms: Option::None,
            connected_since_ms: Option::None,
        })
    }

    /// Forgets all accumulated attempt and backoff state.
    pub fn reset(&mut self)
        requires
            old(self).wf(),
        ensures
            final(self).wf(),
            final(self)@ == (ReconnectView {
                attempts: 0,
                last_attempt: Option::None,
                gate_delay: 0,
                ..old(self)@
            }),
    {
        self.attempts = 0;
        self.backoff.reset();
        self.last_attempt_ms = Option::None;
    }

    /// Returns true when a reconnect attempt is permitted at time `now`.
    pub fn can_attempt(&self, now_ms: u64) -> (r: bool)
        requires
            self.wf(),
        ensures
            r == spec_can_attempt(self@, now_ms as nat),
    {
        if self.attempts >= self.config.max_attempts {
            return false;
        }
        match self.last_attempt_ms {
            Option::None => true,
            Option::Some(last) => {
                let delay = self.backoff.current_delay();
                now_ms >= last && now_ms - last >= delay
            },
        }
    }

    /// Records an attempt made at time `now`: counts it against the
    /// budget, stamps the time and advances the backoff, computing the
    /// delay that gates the next attempt (not the current one).
    pub fn record_attempt(&mut self, now_ms: u64)
        requires
            old(self).wf(),
        ensures
            final(self).wf(),
            final(self)@.attempts == if old(self)@.attempts < u32::MAX {
                old(self)@.attempts + 1
            } else {
                old(self)@.attempts
            },
            final(self)@.last_attempt == Option::Some(now_ms as nat),
            final(self)@.gate_delay <= final(self)@.config.max_delay_ms,
            final(self)@.config == old(self)@.config,
            final(self)@.connected_since == old(self)@.connected_since,
    {
        if self.attempts < u32::MAX {
            self.attempts = self.attempts + 1;
        }
        self.last_attempt_ms = Option::Some(now_ms);
        let _ = self.backoff.next_delay();
    }

    /// Notes that the session came up at time `now`.
    pub fn mark_connected(&mut self, now_ms: u64)
        requires
            old(self).wf(),
        ensures
            final(self).wf(),
            final(self)@ == (ReconnectView {
                connected_since: Option::Some(now_ms as nat),
                ..old(self)@
            }),
    {
        self.connected_since_ms = Option::Some(now_ms);
    }

    /// Notes that the session went down at time `now`.
    ///
    /// If the session had been continuously up for at least the stability
    /// threshold, the prior failure is treated as unrelated to past
    /// flakiness: the attempt counter and the backoff return to their
    /// initial values. A shorter uptime preserves the accumulated state,
    /// so a persistent failure keeps escalating its delay.
    pub fn mark_disconnected(&mut self, now_ms: u64)
        requires
            old(self).wf(),
        ensures
            final(self).wf(),
            final(self)@ == spec_after_disconnect(old(self)@, now_ms as nat),
    {
        let stable = match self.connected_since_ms {
            Option::None => false,
            Option::Some(up) => now_ms >= up && now_ms - up >= self.config.stability_threshold_ms,
        };
        if stable {
            self.reset();
        }
        self.connected_since_ms = Option::None;
    }

    /// Returns the delay gating the next attempt, in milliseconds.
    pub fn current_delay(&self) -> (r: u64)
        ensures
            r == self@.gate_delay,
    {
        self.backoff.current_delay()
    }

    /// Returns the number of attempts recorded since the last reset.
    pub fn attempts(&self) -> (r: u32)
        ensures
            r == self@.attempts,
    {
        self.attempts
    }
}

/// After an attempt is recorded at time `t`, no further attempt is
/// permitted before the gating delay has elapsed, and as soon as it has
/// elapsed an attempt is permitted again — provided the attempt budget is
/// not exhausted. On a monotonically increasing clock the permission is
/// therefore false up to `t + delay` and true from then on.
pub proof fn lemma_gate_after_attempt(v: ReconnectView, t: nat, now_ms: nat)
    requires
        v.last_attempt == Option::Some(t),
    ensures
        spec_can_attempt(v, now_ms) <==> (v.attempts < v.config.max_attempts && now_ms >= t
            + v.gate_delay),
{
}

/// Permission to attempt never lapses as the clock advances: on a
/// monotonically increasing clock, once `can_attempt` holds it keeps
/// holding until an attempt is recorded.
pub proof fn lemma_can_attempt_monotone(v: ReconnectView, early_ms: nat, late_ms: nat)
    requires
        early_ms <= late_ms,
        spec_can_attempt(v, early_ms),
    ensures
        spec_can_attempt(v, late_ms),
{
}

/// A disconnect after a stable connection resets the attempt counter to
/// zero before any new attempt is counted; after a shorter uptime the
/// accumulated attempt count and the escalated delay survive, so a
/// persistent failure keeps waiting longer.
pub proof fn lemma_stability_reset(v: ReconnectView, now_ms: nat)
    ensures
        (match v.connected_since {
            Option::Some(up) => now_ms >= up + v.config.stability_threshold_ms,
            Option::None => false,
        }) ==> spec_after_disconnect(v, now_ms).attempts == 0 && spec_after_disconnect(
            v,
            now_ms,
        ).gate_delay == 0,
        (match v.connected_since {
            Option::Some(up) => now_ms < up + v.config.stability_threshold_ms,
            Option::None => true,
        }) ==> spec_after_disconnect(v, now_ms).attempts == v.attempts && spec_after_disconnect(
            v,
            now_ms,
        ).gate_delay == v.gate_delay && spec_after_disconnect(v, now_ms).last_attempt
            == v.last_attempt,
{
}

/// A driver that records an attempt only when `can_attempt` permits it
/// keeps the counter within the budget: a permitted attempt leaves the
/// counter no higher than the configured maximum.
pub proof fn lemma_budget_respected(v: ReconnectView, now_ms: nat)
    requires
        spec_can_attempt(v, now_ms),
    ensures
        v.attempts + 1 <= v.config.max_attempts,
{
}

/// An exhausted attempt budget permanently forbids attempts, whatever the
/// clock says, until a stability reset reinitialises the counter.
pub proof fn lemma_budget_exhausted(v: ReconnectView, now_ms: nat)
    requires
        v.attempts >= v.config.max_attempts,
    ensures
        !spec_can_attempt(v, now_ms),
{
}

} // verus!

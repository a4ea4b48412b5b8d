//! Rate-limited action gateway: every remote operation belongs to a
//! category, each category has a minimum interval between invocations, and a
//! transient failure is retried exactly once.
//!
//! Each limiter records its firing times; the spacing law — M consecutive
//! calls in one category span at least (M-1) times the category interval —
//! is proved over that record.

use vstd::prelude::*;

use crate::text::str_eq;

verus! {

/// Minimum interval between two join or leave operations, in milliseconds.
pub const JOIN_CHAT_FREQ_MS: u64 = 300_000;

/// Minimum interval between two leave operations, in milliseconds.
pub const QUIT_CHAT_FREQ_MS: u64 = 300_000;

/// Minimum interval between two alias resolutions, in milliseconds.
pub const RESOLVE_USER_NAME_FREQ_MS: u64 = 60_000;

/// Minimum interval between two credential unpacks, in milliseconds.
pub const UNPACK_CHAT_FREQ_MS: u64 = 500;

/// Minimum interval between two item fetches, in milliseconds.
pub const FIND_MSG_FREQ_MS: u64 = 15;

/// Successive firing times keep at least `d` milliseconds between
/// neighbours.
pub open spec fn well_spaced(fires: Seq<u64>, d: u64) -> bool {
    forall|i: int| 0 <= i < fires.len() - 1 ==> #[trigger] fires[i] + d <= fires[i + 1]
}

/// Across M consecutive firings of one limiter, total elapsed time is at
/// least (M - 1) times its interval.
pub proof fn lemma_gateway_spacing(fires: Seq<u64>, d: u64)
    requires
        well_spaced(fires, d),
        fires.len() >= 1,
    ensures
        fires.last() >= fires.first() + (fires.len() - 1) * d,
    decreases fires.len(),
{
    if fires.len() > 1 {
        let init = fires.drop_last();
        assert(well_spaced(init, d)) by {
            assert(forall|i: int| 0 <= i < init.len() ==> init[i] == #[trigger] fires[i]);
        }
        lemma_gateway_spacing(init, d);
        assert(init.last() >= init.first() + (init.len() - 1) * d);
        assert(fires[fires.len() - 2] + d <= fires[fires.len() - 1]);
        assert(init.last() == fires[fires.len() - 2]);
        assert(init.first() == fires.first());
        assert(fires.last() == fires[fires.len() - 1]);
        assert(fires.last() >= fires.first() + (init.len() - 1) * d + d);
        assert((fires.len() - 1) * d == (init.len() - 1) * d + d) by (nonlinear_arith)
            requires
                init.len() == fires.len() - 1,
                fires.len() >= 2,
        ;
    } else {
        assert((fires.len() - 1) * d == 0) by (nonlinear_arith)
            requires
                fires.len() == 1,
        ;
    }
}

/// One per-category minimum-interval limiter. The ghost `fires` field
/// records every firing time; well-spacing of that record is its invariant.
pub struct Interval {
    pub period_ms: u64,
    pub last_fire: Option<u64>,
    pub fires: Ghost<Seq<u64>>,
}

impl Interval {
    pub open spec fn wf(&self) -> bool {
        &&& well_spaced(self.fires@, self.period_ms)
        &&& match self.last_fire {
            Some(t) => self.fires@.len() > 0 && self.fires@.last() == t,
            None => self.fires@.len() == 0,
        }
    }

    /// A firing at `now` is allowed: either nothing fired yet, or a full
    /// period has passed since the last firing.
    pub open spec fn spec_ready(&self, now: u64) -> bool {
        match self.last_fire {
            None => true,
            Some(t) => t + self.period_ms <= now,
        }
    }

    /// A limiter with a period given in seconds.
    pub fn from_secs(freq: u64) -> (r: Interval)
        requires
            freq <= u64::MAX / 1000,
        ensures
            r.wf(),
            r.period_ms == freq * 1000,
            r.last_fire is None,
            r.fires@.len() == 0,
    {
        Interval { period_ms: freq * 1000, last_fire: None, fires: Ghost(Seq::empty()) }
    }

    /// A limiter with a period given in milliseconds.
    pub fn from_millis(freq: u64) -> (r: Interval)
        ensures
            r.wf(),
            r.period_ms == freq,
            r.last_fire is None,
            r.fires@.len() == 0,
    {
        Interval { period_ms: freq, last_fire: None, fires: Ghost(Seq::empty()) }
    }

    /// Whether a firing at `now` is allowed.
    pub fn ready(&self, now: u64) -> (r: bool)
        ensures
            r == self.spec_ready(now),
    {
        match self.last_fire {
            None => true,
            Some(t) => self.period_ms <= now && t <= now - self.period_ms,
        }
    }

    /// The earliest time at which the next firing is allowed, saturating at
    /// the end of representable time.
    pub fn next_ready(&self) -> (r: u64)
        ensures
            match self.last_fire {
                None => r == 0,
                Some(t) => r == if t + self.period_ms <= u64::MAX {
                    (t + self.period_ms) as u64
                } else {
                    u64::MAX
                },
            },
    {
        match self.last_fire {
            None => 0,
            Some(t) => {
                if t <= u64::MAX - self.period_ms {
                    t + self.period_ms
                } else {
                    u64::MAX
                }
            },
        }
    }

    /// Fire at `now`. The caller may only do so once the period has
    /// elapsed; the firing record extends by exactly this one time.
    pub fn tick(&mut self, now: u64)
        requires
            old(self).wf(),
            old(self).spec_ready(now),
        ensures
            final(self).wf(),
            final(self).period_ms == old(self).period_ms,
            final(self).last_fire == Some(now),
            final(self).fires@ == old(self).fires@.push(now),
    {
        proof {
            let fires = self.fires@.push(now);
            assert(well_spaced(fires, self.period_ms)) by {
                assert(forall|i: int|
                    0 <= i < self.fires@.len() ==> fires[i] == #[trigger] self.fires@[i]);
                if self.fires@.len() > 0 {
                    assert(fires[fires.len() - 2] == self.fires@.last());
                }
            }
        }
        self.last_fire = Some(now);
        proof {
            self.fires@ = self.fires@.push(now);
        }
    }
}

/// The per-category gates of the gateway, with the externally observed
/// default intervals.
pub struct IntervalSet {
    pub join_chat: Interval,
    pub quit_chat: Interval,
    pub unpack_chat: Interval,
    pub resolve_username: Interval,
    pub find_msg: Interval,
}

impl IntervalSet {
    pub open spec fn wf(&self) -> bool {
        &&& self.join_chat.wf() && self.join_chat.period_ms == JOIN_CHAT_FREQ_MS
        &&& self.quit_chat.wf() && self.quit_chat.period_ms == QUIT_CHAT_FREQ_MS
        &&& self.resolve_username.wf() && self.resolve_username.period_ms
            == RESOLVE_USER_NAME_FREQ_MS
        &&& self.unpack_chat.wf() && self.unpack_chat.period_ms == UNPACK_CHAT_FREQ_MS
        &&& self.find_msg.wf() && self.find_msg.period_ms == FIND_MSG_FREQ_MS
    }
}

impl Default for IntervalSet {
    /// All five category gates at their default intervals, none fired yet.
    fn default() -> (r: IntervalSet)
        ensures
            r.wf(),
            r.join_chat.last_fire is None,
            r.quit_chat.last_fire is None,
            r.resolve_username.last_fire is None,
            r.unpack_chat.last_fire is None,
            r.find_msg.last_fire is None,
    {
        IntervalSet {
            join_chat: Interval::from_millis(JOIN_CHAT_FREQ_MS),
            quit_chat: Interval::from_millis(QUIT_CHAT_FREQ_MS),
            resolve_username: Interval::from_millis(RESOLVE_USER_NAME_FREQ_MS),
            unpack_chat: Interval::from_millis(UNPACK_CHAT_FREQ_MS),
            find_msg: Interval::from_millis(FIND_MSG_FREQ_MS),
        }
    }
}

/// A remote failure as the gateway distinguishes it: rate-limited with a
/// cooldown hint, capacity exceeded, or anything else.
#[derive(Debug, Clone, Copy, PartialEq, Eq, Structural)]
pub enum RemoteError {
    RateLimited { cooldown_secs: u32 },
    CapacityExceeded,
    Other,
}

/// How a remote RPC failure is distinguished: code 420 with a cooldown hint
/// is a rate limit; code 400 named `CHANNELS_TOO_MUCH` is the capacity
/// signal; everything else is ordinary.
pub open spec fn spec_classify_rpc_error(code: u32, name: Seq<char>, cooldown: Option<u32>) -> RemoteError {
    if code == 420 && cooldown is Some {
        RemoteError::RateLimited { cooldown_secs: cooldown->0 }
    } else if code == 400 && name == "CHANNELS_TOO_MUCH"@ {
        RemoteError::CapacityExceeded
    } else {
        RemoteError::Other
    }
}

/// Classify a remote RPC failure from its plain code, name and cooldown
/// hint.
pub fn classify_rpc_error(code: u32, name: &str, cooldown: Option<u32>) -> (r: RemoteError)
    ensures
        r == spec_classify_rpc_error(code, name@, cooldown),
{
    if code == 420 {
        if let Some(c) = cooldown {
            return RemoteError::RateLimited { cooldown_secs: c };
        }
    }
    if code == 400 && str_eq(name, "CHANNELS_TOO_MUCH") {
        return RemoteError::CapacityExceeded;
    }
    RemoteError::Other
}

/// What the gateway does after one attempt fails.
#[derive(Debug, Clone, Copy, PartialEq, Eq, Structural)]
pub enum GatewayAction {
    /// Sleep the remote-reported cooldown, then retry once.
    SleepRetry { seconds: u32 },
    /// Evict one occupied slot, then retry the join once.
    EvictRetry,
    /// Propagate the failure to the caller.
    Fail,
}

/// The single-retry policy: a rate limit is slept out and retried exactly
/// once; a capacity signal on a join evicts one slot and retries exactly
/// once; any other failure — and any second failure — propagates.
pub open spec fn spec_retry_decision(err: RemoteError, retried: bool, is_join: bool) -> GatewayAction {
    if retried {
        GatewayAction::Fail
    } else {
        match err {
            RemoteError::RateLimited { cooldown_secs } => GatewayAction::SleepRetry {
                seconds: cooldown_secs,
            },
            RemoteError::CapacityExceeded => if is_join {
                GatewayAction::EvictRetry
            } else {
                GatewayAction::Fail
            },
            RemoteError::Other => GatewayAction::Fail,
        }
    }
}

/// Decide what follows a failed attempt.
pub fn retry_decision(err: RemoteError, retried: bool, is_join: bool) -> (a: GatewayAction)
    ensures
        a == spec_retry_decision(err, retried, is_join),
{
    if retried {
        return GatewayAction::Fail;
    }
    match err {
        RemoteError::RateLimited { cooldown_secs } => GatewayAction::SleepRetry {
            seconds: cooldown_secs,
        },
        RemoteError::CapacityExceeded => {
            if is_join {
                GatewayAction::EvictRetry
            } else {
                GatewayAction::Fail
            }
        },
        RemoteError::Other => GatewayAction::Fail,
    }
}

/// Where one gated invocation stands.
#[derive(Debug, Clone, Copy, PartialEq, Eq, Structural)]
pub enum RetryState {
    /// An attempt may be issued.
    Attempting,
    /// A rate limit was reported; wait out the cooldown, then retry.
    Backoff { remaining_secs: u32 },
    /// The capacity signal was reported; evict one slot, then retry.
    Evicting,
    /// The call returned.
    Succeeded,
    /// The call failed for good.
    Failed { error: RemoteError },
}

/// The retry control of one gateway invocation, kept explicit so the
/// single-retry policy is a checked invariant: `attempts` never passes 2.
pub struct InvokeMachine {
    pub state: RetryState,
    pub retried: bool,
    pub is_join: bool,
    pub attempts: u8,
}

impl InvokeMachine {
    pub open spec fn wf(&self) -> bool {
        &&& self.attempts <= 2
        &&& (self.retried <==> self.attempts == 2)
        &&& (self.state is Backoff || self.state is Evicting ==> !self.retried && self.attempts
            == 1)
        &&& (self.state is Attempting ==> self.attempts >= 1)
    }

    /// A fresh invocation: the first attempt is under way.
    pub fn new(is_join: bool) -> (m: InvokeMachine)
        ensures
            m.wf(),
            m.state == RetryState::Attempting,
            !m.retried,
            m.is_join == is_join,
            m.attempts == 1,
    {
        InvokeMachine { state: RetryState::Attempting, retried: false, is_join, attempts: 1 }
    }

    /// Record that the pending attempt succeeded.
    pub fn on_success(&mut self)
        requires
            old(self).wf(),
            old(self).state == RetryState::Attempting,
        ensures
            final(self).wf(),
            final(self).state == RetryState::Succeeded,
            final(self).attempts == old(self).attempts,
    {
        self.state = RetryState::Succeeded;
    }

    /// Record that the pending attempt failed; the next state follows the
    /// single-retry policy.
    pub fn on_failure(&mut self, err: RemoteError)
        requires
            old(self).wf(),
            old(self).state == RetryState::Attempting,
        ensures
            final(self).wf(),
            final(self).attempts == old(self).attempts,
            final(self).retried == old(self).retried,
            final(self).is_join == old(self).is_join,
            final(self).state == match spec_retry_decision(err, old(self).retried, old(self).is_join) {
                GatewayAction::SleepRetry { seconds } => RetryState::Backoff {
                    remaining_secs: seconds,
                },
                GatewayAction::EvictRetry => RetryState::Evicting,
                GatewayAction::Fail => RetryState::Failed { error: err },
            },
    {
        match retry_decision(err, self.retried, self.is_join) {
            GatewayAction::SleepRetry { seconds } => {
                self.state = RetryState::Backoff { remaining_secs: seconds };
            },
            GatewayAction::EvictRetry => {
                self.state = RetryState::Evicting;
            },
            GatewayAction::Fail => {
                self.state = RetryState::Failed { error: err };
            },
        }
    }

    /// The backoff or eviction is done: issue the one retry. After this the
    /// machine has used both attempts it will ever make.
    pub fn on_retry(&mut self)
        requires
            old(self).wf(),
            old(self).state is Backoff || old(self).state is Evicting,
        ensures
            final(self).wf(),
            final(self).state == RetryState::Attempting,
            final(self).retried,
            final(self).attempts == 2,
    {
        self.retried = true;
        self.attempts = 2;
        self.state = RetryState::Attempting;
    }
}

} // verus!

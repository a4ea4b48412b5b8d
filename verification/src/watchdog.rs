//! Watchdog/resend controller: one instance per standing search keyword.
//!
//! A shared last-activity time is advanced whenever a matching live event
//! arrives; on a check tick with no activity for longer than the timeout,
//! the original stimulus is re-issued through the agent-resend limiter. The
//! model run below carries the resend law: consecutive resends are more
//! than a timeout apart and never closer than the resend category's own
//! minimum interval.

use vstd::prelude::*;

use crate::gateway::Interval;

verus! {

/// How long a search agent may stay silent before a resend, milliseconds.
pub const BOT_RESP_TIMEOUT_MS: u64 = 60_000;

/// Minimum interval between two agent resends, milliseconds.
pub const BOT_RESEND_INTERVAL_MS: u64 = 60_000;

/// One liveness monitor for one keyword.
pub struct Watchdog {
    pub keyword: String,
    pub timeout_ms: u64,
    pub last_update: u64,
}

/// The model state of one watchdog run: the last-activity time and the last
/// limiter firing, if any.
pub struct WdState {
    pub last: u64,
    pub gate: Option<u64>,
}

/// One model event: a check tick, or externally observed activity.
#[derive(PartialEq, Eq, Structural)]
pub enum WdEvent {
    Tick { at: u64 },
    Activity { at: u64 },
}

/// When the event happens.
pub open spec fn wd_time(e: WdEvent) -> u64 {
    match e {
        WdEvent::Tick { at } => at,
        WdEvent::Activity { at } => at,
    }
}

/// The resend limiter allows a firing at `at`.
pub open spec fn wd_gate_ready(gate: Option<u64>, period: u64, at: u64) -> bool {
    match gate {
        None => true,
        Some(g) => g + period <= at,
    }
}

/// One step of the watchdog run: activity advances the shared last-activity
/// time; a tick fires a resend exactly when the silence exceeds the timeout
/// and the limiter allows it, and then both times advance to the firing
/// time.
pub open spec fn wd_step(s: WdState, e: WdEvent, timeout: u64, period: u64) -> (WdState, Option<
    u64,
>) {
    match e {
        WdEvent::Activity { at } => (WdState { last: at, gate: s.gate }, None::<u64>),
        WdEvent::Tick { at } => {
            if at > s.last + timeout && wd_gate_ready(s.gate, period, at) {
                (WdState { last: at, gate: Some(at) }, Some(at))
            } else {
                (s, None::<u64>)
            }
        },
    }
}

/// The resend times of a whole run.
pub open spec fn wd_fires(s: WdState, events: Seq<WdEvent>, timeout: u64, period: u64) -> Seq<u64>
    decreases events.len(),
{
    if events.len() == 0 {
        Seq::empty()
    } else {
        let stepped = wd_step(s, events[0], timeout, period);
        let rest = wd_fires(stepped.0, events.subrange(1, events.len() as int), timeout, period);
        match stepped.1 {
            Some(t) => seq![t] + rest,
            None => rest,
        }
    }
}

/// Event times never decrease along the run.
pub open spec fn wd_monotone(events: Seq<WdEvent>) -> bool {
    forall|i: int, j: int|
        #![trigger wd_time(events[i]), wd_time(events[j])]
        0 <= i < j < events.len() ==> wd_time(events[i]) <= wd_time(events[j])
}

/// Every event of the run happens at or after `t`.
pub open spec fn wd_events_after(events: Seq<WdEvent>, t: u64) -> bool {
    forall|i: int| 0 <= i < events.len() ==> wd_time(#[trigger] events[i]) >= t
}

/// The watchdog resend law. With no activity for longer than the timeout,
/// exactly one resend fires per timeout window: consecutive resend times
/// are more than a timeout apart. And resends never come closer than the
/// resend category's own minimum interval, even when several windows elapse
/// back-to-back.
pub proof fn lemma_watchdog_spacing(
    s: WdState,
    events: Seq<WdEvent>,
    timeout: u64,
    period: u64,
)
    requires
        wd_monotone(events),
        wd_events_after(events, s.last),
    ensures
        ({
            let fires = wd_fires(s, events, timeout, period);
            &&& (fires.len() > 0 ==> fires[0] > s.last + timeout && wd_gate_ready(
                s.gate,
                period,
                fires[0],
            ))
            &&& forall|i: int|
                0 <= i < fires.len() - 1 ==> #[trigger] fires[i + 1] > fires[i] + timeout && fires[i
                    + 1] >= fires[i] + period
        }),
    decreases events.len(),
{
    if events.len() > 0 {
        let e = events[0];
        let stepped = wd_step(s, e, timeout, period);
        let s2 = stepped.0;
        let tail = events.subrange(1, events.len() as int);
        assert(wd_monotone(tail)) by {
            assert(forall|i: int| 0 <= i < tail.len() ==> tail[i] == #[trigger] events[i + 1]);
        }
        let fires = wd_fires(s, events, timeout, period);
        let rest = wd_fires(s2, tail, timeout, period);
        match e {
            WdEvent::Activity { at } => {
                assert(wd_events_after(tail, s2.last)) by {
                    assert(forall|i: int|
                        0 <= i < tail.len() ==> wd_time(#[trigger] tail[i]) == wd_time(
                            events[i + 1],
                        ) && wd_time(events[i + 1]) >= at);
                }
                lemma_watchdog_spacing(s2, tail, timeout, period);
                assert(fires == rest);
                if fires.len() > 0 {
                    assert(fires[0] > s2.last + timeout);
                    assert(s2.last >= s.last);
                    assert(wd_gate_ready(s2.gate, period, fires[0]));
                    assert(s2.gate == s.gate);
                }
            },
            WdEvent::Tick { at } => {
                if at > s.last + timeout && wd_gate_ready(s.gate, period, at) {
                    assert(wd_events_after(tail, s2.last)) by {
                        assert(forall|i: int|
                            0 <= i < tail.len() ==> wd_time(#[trigger] tail[i]) == wd_time(
                                events[i + 1],
                            ) && wd_time(events[i + 1]) >= wd_time(events[0]));
                    }
                    lemma_watchdog_spacing(s2, tail, timeout, period);
                    assert(fires == seq![at] + rest);
                    assert(fires[0] == at);
                    assert forall|i: int|
                        0 <= i < fires.len() - 1 implies #[trigger] fires[i + 1] > fires[i]
                        + timeout && fires[i + 1] >= fires[i] + period by {
                        if i == 0 {
                            assert(fires[1] == rest[0]);
                            assert(rest.len() > 0);
                            assert(rest[0] > s2.last + timeout);
                            assert(s2.last == at);
                            assert(wd_gate_ready(s2.gate, period, rest[0]));
                            assert(s2.gate == Some(at));
                        } else {
                            assert(fires[i] == rest[i - 1]);
                            assert(fires[i + 1] == rest[i]);
                            assert(rest[(i - 1) + 1] > rest[i - 1] + timeout && rest[(i - 1) + 1]
                                >= rest[i - 1] + period);
                        }
                    }
                } else {
                    assert(wd_events_after(tail, s2.last)) by {
                        assert(forall|i: int|
                            0 <= i < tail.len() ==> wd_time(#[trigger] tail[i]) == wd_time(
                                events[i + 1],
                            ) && wd_time(events[i + 1]) >= wd_time(events[0]));
                        assert(wd_time(events[0]) >= s.last);
                    }
                    lemma_watchdog_spacing(s2, tail, timeout, period);
                    assert(fires == rest);
                }
            },
        }
    }
}

impl Watchdog {
    /// A fresh watchdog, counting silence from `now`.
    pub fn new(keyword: String, timeout_ms: u64, now: u64) -> (w: Watchdog)
        ensures
            w.keyword == keyword,
            w.timeout_ms == timeout_ms,
            w.last_update == now,
    {
        Watchdog { keyword, timeout_ms, last_update: now }
    }

    /// The paired consumer observed a matching live event.
    pub fn on_activity(&mut self, now: u64)
        ensures
            final(self).last_update == now,
            final(self).keyword == old(self).keyword,
            final(self).timeout_ms == old(self).timeout_ms,
    {
        self.last_update = now;
    }

    /// One check tick at `now`: when the silence exceeds the timeout and the
    /// resend limiter allows it, the stimulus is resent — the limiter fires
    /// and the silence counter restarts. This is one `wd_step` tick of the
    /// model run.
    pub fn check(&mut self, gate: &mut Interval, now: u64) -> (fired: bool)
        requires
            old(gate).wf(),
        ensures
            final(gate).wf(),
            final(gate).period_ms == old(gate).period_ms,
            final(self).keyword == old(self).keyword,
            final(self).timeout_ms == old(self).timeout_ms,
            ({
                let stepped = wd_step(
                    (WdState { last: old(self).last_update, gate: old(gate).last_fire }),
                    (WdEvent::Tick { at: now }),
                    old(self).timeout_ms,
                    old(gate).period_ms,
                );
                &&& final(self).last_update == stepped.0.last
                &&& final(gate).last_fire == stepped.0.gate
                &&& fired == (stepped.1 is Some)
                &&& fired ==> final(gate).fires@ == old(gate).fires@.push(now)
                &&& !fired ==> final(gate).fires@ == old(gate).fires@
            }),
    {
        let timed_out = now > self.timeout_ms && self.last_update < now - self.timeout_ms;
        if timed_out && gate.ready(now) {
            gate.tick(now);
            self.last_update = now;
            true
        } else {
            false
        }
    }
}

} // verus!

//! Live dispatch fan-out: one ordered stream of live events is distributed
//! to independently filtered consumers.
//!
//! Routing is a pure function of each consumer's own filter, so one
//! consumer's behaviour — including a handler that always errors — cannot
//! affect what another consumer is handed. That isolation is stated and
//! proved below.

use vstd::prelude::*;

use crate::text::{contains_sub, contains_word};

verus! {

/// The kind of one live event.
#[derive(Debug, Clone, Copy, PartialEq, Eq, Structural)]
pub enum UpdateKind {
    NewMessage,
    MessageEdited,
    MessageDeleted,
    CallbackQuery,
    InlineQuery,
    InlineSend,
    Raw,
}

/// A plain view of one live event, as routing sees it.
#[derive(Debug, Clone)]
pub struct EventMeta {
    pub kind: UpdateKind,
    pub chat_id: i64,
    pub outgoing: bool,
    pub sender_is_bot: bool,
    pub text: String,
}

/// One consumer's filter: suppress self-originated events, optionally pin a
/// destination, optionally require a substring in the event text, and
/// optionally skip events sent by bots.
#[derive(Debug, Clone)]
pub struct UpdateFilter {
    pub incoming_only: bool,
    pub chat_id: Option<i64>,
    pub word: Option<String>,
    pub skip_bot_senders: bool,
}

impl UpdateFilter {
    /// The default filter: incoming events only, from anywhere, any text.
    pub fn incoming() -> (f: UpdateFilter)
        ensures
            f.incoming_only,
            f.chat_id is None,
            f.word is None,
            !f.skip_bot_senders,
    {
        UpdateFilter { incoming_only: true, chat_id: None, word: None, skip_bot_senders: false }
    }

    /// The event passes this filter.
    pub open spec fn spec_passes(&self, ev: EventMeta) -> bool {
        &&& (self.incoming_only ==> !ev.outgoing)
        &&& (match self.chat_id {
            Some(id) => ev.chat_id == id,
            None => true,
        })
        &&& (match self.word {
            Some(w) => contains_word(ev.text@, w@),
            None => true,
        })
        &&& (self.skip_bot_senders ==> !ev.sender_is_bot)
    }

    /// Evaluate the filter on one event.
    pub fn passes(&self, ev: &EventMeta) -> (r: bool)
        ensures
            r == self.spec_passes(*ev),
    {
        if self.incoming_only && ev.outgoing {
            return false;
        }
        if let Some(id) = self.chat_id {
            if ev.chat_id != id {
                return false;
            }
        }
        if self.skip_bot_senders && ev.sender_is_bot {
            return false;
        }
        match &self.word {
            Some(w) => contains_sub(ev.text.as_str(), w.as_str()),
            None => true,
        }
    }
}

/// A consumer is handed the event: only new or edited messages reach
/// handlers, and only when the consumer's own filter passes.
pub open spec fn spec_delivers(f: UpdateFilter, ev: EventMeta) -> bool {
    (ev.kind == UpdateKind::NewMessage || ev.kind == UpdateKind::MessageEdited) && f.spec_passes(ev)
}

/// The consumers one event reaches, in registration order.
pub open spec fn spec_route(consumers: Seq<UpdateFilter>, ev: EventMeta) -> Seq<int>
    decreases consumers.len(),
{
    if consumers.len() == 0 {
        Seq::empty()
    } else {
        spec_route(consumers.drop_last(), ev) + if spec_delivers(consumers.last(), ev) {
            seq![consumers.len() - 1]
        } else {
            Seq::empty()
        }
    }
}

/// The events one consumer is handed out of a whole stream, in order.
pub open spec fn spec_delivered_to(f: UpdateFilter, events: Seq<EventMeta>) -> Seq<EventMeta>
    decreases events.len(),
{
    if events.len() == 0 {
        Seq::empty()
    } else {
        spec_delivered_to(f, events.drop_last()) + if spec_delivers(f, events.last()) {
            seq![events.last()]
        } else {
            Seq::empty()
        }
    }
}

/// Routing one event reaches a consumer exactly when that consumer's own
/// filter accepts it: membership in the route depends on nothing else.
pub proof fn lemma_route_iff(consumers: Seq<UpdateFilter>, ev: EventMeta, c: int)
    requires
        0 <= c < consumers.len(),
    ensures
        spec_route(consumers, ev).contains(c) <==> spec_delivers(consumers[c], ev),
    decreases consumers.len(),
{
    let route = spec_route(consumers, ev);
    let init = consumers.drop_last();
    let prefix = spec_route(init, ev);
    if c == consumers.len() - 1 {
        assert(forall|i: int| 0 <= i < prefix.len() ==> #[trigger] prefix[i] < init.len())
            by {
            lemma_route_bounded(init, ev);
        }
        if spec_delivers(consumers[c], ev) {
            assert(route[route.len() - 1] == c);
        } else {
            assert(route =~= prefix);
            if route.contains(c) {
                let i = choose|i: int| 0 <= i < route.len() && route[i] == c;
                assert(prefix[i] < init.len());
            }
        }
    } else {
        lemma_route_iff(init, ev, c);
        assert(consumers[c] == init[c]);
        if spec_delivers(init[c], ev) {
            let i = choose|i: int| 0 <= i < prefix.len() && prefix[i] == c;
            assert(route[i] == c);
        } else {
            if route.contains(c) {
                let i = choose|i: int| 0 <= i < route.len() && route[i] == c;
                if i < prefix.len() {
                    assert(prefix[i] == c);
                } else {
                    assert(route[i] == consumers.len() - 1);
                }
            }
        }
    }
}

/// Every routed index names a registered consumer.
pub proof fn lemma_route_bounded(consumers: Seq<UpdateFilter>, ev: EventMeta)
    ensures
        forall|i: int|
            0 <= i < spec_route(consumers, ev).len() ==> 0 <= #[trigger] spec_route(
                consumers,
                ev,
            )[i] < consumers.len(),
    decreases consumers.len(),
{
    if consumers.len() > 0 {
        let init = consumers.drop_last();
        lemma_route_bounded(init, ev);
        let route = spec_route(consumers, ev);
        let prefix = spec_route(init, ev);
        assert forall|i: int| 0 <= i < route.len() implies 0 <= #[trigger] route[i]
            < consumers.len() by {
            if i < prefix.len() {
                assert(route[i] == prefix[i]);
                assert(0 <= prefix[i] < init.len());
            } else {
                assert(route[i] == consumers.len() - 1);
            }
        }
    }
}

/// Fan-out isolation. What one consumer is handed over a whole stream of
/// events is a function of its own filter alone: replacing any other
/// consumer — however its handler behaves — leaves the deliveries to this
/// one unchanged.
pub proof fn lemma_fanout_isolation(
    consumers: Seq<UpdateFilter>,
    events: Seq<EventMeta>,
    c: int,
    d: int,
    g: UpdateFilter,
)
    requires
        0 <= c < consumers.len(),
        0 <= d < consumers.len(),
        c != d,
    ensures
        spec_delivered_to(consumers.update(d, g)[c], events) == spec_delivered_to(
            consumers[c],
            events,
        ),
        forall|ev: EventMeta|
            spec_route(consumers.update(d, g), ev).contains(c) <==> #[trigger] spec_route(
                consumers,
                ev,
            ).contains(c),
{
    assert(consumers.update(d, g)[c] == consumers[c]);
    assert forall|ev: EventMeta|
        spec_route(consumers.update(d, g), ev).contains(c) <==> #[trigger] spec_route(
            consumers,
            ev,
        ).contains(c) by {
        lemma_route_iff(consumers, ev, c);
        lemma_route_iff(consumers.update(d, g), ev, c);
    }
}

/// The fan-out: the registered consumers' filters, in registration order.
/// Consumers are registered once at startup; there is no runtime removal.
pub struct UpdateApp {
    pub consumers: Vec<UpdateFilter>,
}

impl UpdateApp {
    /// An empty fan-out.
    pub fn new() -> (app: UpdateApp)
        ensures
            app.consumers@.len() == 0,
    {
        UpdateApp { consumers: Vec::new() }
    }

    /// Register one more consumer.
    pub fn add_parser(&mut self, filter: UpdateFilter)
        ensures
            final(self).consumers@ == old(self).consumers@.push(filter),
    {
        self.consumers.push(filter);
    }

    /// The consumers this event reaches, in registration order. A handler
    /// error at any consumer has no way into this computation: delivery to
    /// the rest is decided here, before any handler runs.
    pub fn route(&self, ev: &EventMeta) -> (r: Vec<usize>)
        ensures
            r@.map_values(|u: usize| u as int) == spec_route(self.consumers@, *ev),
    {
        let n = self.consumers.len();
        let mut out: Vec<usize> = Vec::new();
        let mut k: usize = 0;
        while k < n
            invariant
                0 <= k <= n,
                n == self.consumers@.len(),
                out@.map_values(|u: usize| u as int) == spec_route(
                    self.consumers@.subrange(0, k as int),
                    *ev,
                ),
            decreases n - k,
        {
            proof {
                assert(self.consumers@.subrange(0, k + 1).drop_last() =~= self.consumers@.subrange(
                    0,
                    k as int,
                ));
                assert(self.consumers@.subrange(0, k + 1).last() == self.consumers@[k as int]);
            }
            let ev_kind_ok = match ev.kind {
                UpdateKind::NewMessage => true,
                UpdateKind::MessageEdited => true,
                _ => false,
            };
            if ev_kind_ok && self.consumers[k].passes(ev) {
                out.push(k);
            }
            proof {
                let full = out@.map_values(|u: usize| u as int);
                let want = spec_route(self.consumers@.subrange(0, k + 1), *ev);
                assert(full =~= want);
            }
            k += 1;
        }
        proof {
            assert(self.consumers@.subrange(0, n as int) =~= self.consumers@);
        }
        out
    }
}

} // verus!

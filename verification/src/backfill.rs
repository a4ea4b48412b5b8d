//! History backfill: stream past content for one destination backward from
//! now, down to a watermark or up to an item-count ceiling, archiving each
//! item idempotently.
//!
//! The exit condition is explicit: the stream naturally ending is
//! distinguished from hitting the ceiling and from passing the watermark.

use vstd::prelude::*;

verus! {

/// The verdict on one stream element.
#[derive(Debug, Clone, Copy, PartialEq, Eq, Structural)]
pub enum BackfillStep {
    /// The item is in range: archive it and continue.
    Archive,
    /// The stream ended on its own; the destination's history is exhausted.
    StopExhausted,
    /// The configured item-count ceiling was reached.
    StopCapped,
    /// The item is older than the watermark; everything newer is archived.
    StopWatermark,
}

/// One backfill run: a destination, its watermark (epoch seconds), the item
/// ceiling, and how many items have been archived so far.
pub struct History {
    pub chat_id: i64,
    pub limit: usize,
    pub since: i64,
    pub count: usize,
}

impl History {
    /// A fresh run for one destination, nothing archived yet.
    pub fn new(chat_id: i64, limit: usize, since: i64) -> (h: History)
        ensures
            h.chat_id == chat_id,
            h.limit == limit,
            h.since == since,
            h.count == 0,
    {
        History { chat_id, limit, since, count: 0 }
    }

    /// What one step of the run must decide, given the next stream element's
    /// timestamp (or the end of the stream).
    pub open spec fn spec_step(&self, next: Option<i64>) -> BackfillStep {
        match next {
            None => BackfillStep::StopExhausted,
            Some(ts) => if self.count >= self.limit {
                BackfillStep::StopCapped
            } else if ts < self.since {
                BackfillStep::StopWatermark
            } else {
                BackfillStep::Archive
            },
        }
    }

    /// Decide one stream element: archive it when it is newer than the
    /// watermark and the ceiling is not reached; otherwise report why the
    /// run stops. The archived count advances only on an archive, and never
    /// passes the ceiling.
    pub fn step(&mut self, next: Option<i64>) -> (r: BackfillStep)
        requires
            old(self).count <= old(self).limit,
        ensures
            r == old(self).spec_step(next),
            final(self).chat_id == old(self).chat_id,
            final(self).limit == old(self).limit,
            final(self).since == old(self).since,
            final(self).count == if r == BackfillStep::Archive {
                old(self).count + 1
            } else {
                old(self).count as int
            },
            final(self).count <= final(self).limit,
    {
        match next {
            None => BackfillStep::StopExhausted,
            Some(ts) => {
                if self.count >= self.limit {
                    BackfillStep::StopCapped
                } else if ts < self.since {
                    BackfillStep::StopWatermark
                } else {
                    self.count = self.count + 1;
                    BackfillStep::Archive
                }
            },
        }
    }

    /// Whether the run ended before the ceiling: true means the stream (or
    /// the watermark) ran out first.
    pub fn ended_early(&self) -> (r: bool)
        ensures
            r == (self.count < self.limit),
    {
        self.count < self.limit
    }
}

} // verus!

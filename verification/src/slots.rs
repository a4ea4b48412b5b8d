//! Slot eviction cache: the count of occupied subscription slots stays
//! within a cap the remote system enforces but never reveals, using
//! evict-oldest / rejoin-oldest-quit as the policy.
//!
//! The capacity law is proved over a model of the remote side: however many
//! joins are pushed through the evict-once-and-retry-once protocol, the
//! occupied count never passes the cap, and each capacity signal costs
//! exactly one eviction.

use vstd::prelude::*;

use crate::store::{
    chat_matches, chat_precedes, has_chat, with_joined, Database,
};
use crate::types::ChatType;

verus! {

/// The remote side of one join pushed through the protocol: a join succeeds
/// exactly when a slot is free; on the capacity signal one slot is evicted
/// and the join is retried exactly once.
pub open spec fn spec_join_with_evict(occ: nat, cap: nat) -> nat {
    if occ < cap {
        occ + 1
    } else {
        let after = if occ > 0 {
            (occ - 1) as nat
        } else {
            0nat
        };
        if after < cap {
            after + 1
        } else {
            after
        }
    }
}

/// How many evictions one join costs: none when a slot is free, exactly one
/// when the capacity signal fires.
pub open spec fn spec_join_evictions(occ: nat, cap: nat) -> nat {
    if occ < cap {
        0nat
    } else if occ > 0 {
        1nat
    } else {
        0nat
    }
}

/// The occupied count after a whole sequence of join requests.
pub open spec fn spec_join_run(occ: nat, cap: nat, joins: nat) -> nat
    decreases joins,
{
    if joins == 0 {
        occ
    } else {
        spec_join_run(spec_join_with_evict(occ, cap), cap, (joins - 1) as nat)
    }
}

/// One protocol step keeps the occupied count within the cap.
pub proof fn lemma_join_step_bounded(occ: nat, cap: nat)
    requires
        occ <= cap,
    ensures
        spec_join_with_evict(occ, cap) <= cap,
{
}

/// The capacity law: starting within the cap, no sequence of join requests
/// ever drives the number of concurrently occupied slots past the cap, and
/// each capacity signal costs exactly one eviction before the one retry.
pub proof fn lemma_capacity_never_exceeded(occ: nat, cap: nat, joins: nat)
    requires
        occ <= cap,
    ensures
        spec_join_run(occ, cap, joins) <= cap,
        occ >= cap ==> spec_join_evictions(occ, cap) == (if occ > 0 {
            1nat
        } else {
            0nat
        }),
        occ < cap ==> spec_join_evictions(occ, cap) == 0,
    decreases joins,
{
    if joins > 0 {
        lemma_join_step_bounded(occ, cap);
        lemma_capacity_never_exceeded(spec_join_with_evict(occ, cap), cap, (joins - 1) as nat);
    }
}

/// Evict one slot: mark the oldest occupied destination slot-free and hand
/// its identity back so the remote leave can be issued. A cache with no
/// occupied destination is left alone — a no-op success.
pub fn evict_one(db: &mut Database) -> (r: Option<i64>)
    requires
        old(db).wf(),
    ensures
        final(db).wf(),
        final(db).links@ == old(db).links@,
        final(db).messages@ == old(db).messages@,
        final(db).searches@ == old(db).searches@,
        match r {
            Some(id) => exists|i: int|
                {
                    &&& 0 <= i < old(db).chats@.len()
                    &&& (#[trigger] old(db).chats@[i]).joined
                    &&& old(db).chats@[i].chat_id == id
                    &&& forall|j: int|
                        0 <= j < old(db).chats@.len() && (#[trigger] old(db).chats@[j]).joined
                            ==> chat_precedes(old(db).chats@[i], old(db).chats@[j])
                    &&& final(db).chats@ == old(db).chats@.update(
                        i,
                        with_joined(old(db).chats@[i], false),
                    )
                },
            None => final(db).chats@ == old(db).chats@ && forall|j: int|
                0 <= j < old(db).chats@.len() ==> !(#[trigger] old(db).chats@[j]).joined,
        },
{
    match db.find_oldest_chat(Some(true)) {
        Some(i) => {
            let id = db.chats[i].chat_id;
            let marked = db.set_chat_quited(id);
            proof {
                assert(marked is Some) by {
                    assert(old(db).chats@[i as int].chat_id == id);
                    assert(has_chat(old(db).chats@, id));
                }
                let k = marked->0;
                assert(old(db).chats@[k as int].chat_id == old(db).chats@[i as int].chat_id);
                assert(k as int == i as int) by {
                    if k as int != i as int {
                        assert(crate::store::chat_ids_unique(old(db).chats@));
                    }
                }
            }
            Some(id)
        },
        None => {
            proof {
                assert forall|j: int|
                    0 <= j < db.chats@.len() implies !(#[trigger] db.chats@[j]).joined by {
                    assert(!chat_matches(db.chats@[j], Some(true)) ==> !db.chats@[j].joined);
                }
            }
            None
        },
    }
}

/// The periodic rotation sweep over cold destinations: reconcile occupancy,
/// rejoin the oldest-quit channel, backfill it, then advance its watermark.
pub struct Sentence {
}

impl Sentence {
    pub fn new() -> Sentence {
        Sentence {  }
    }

    /// Pick the rotation candidate: the oldest destination not holding a
    /// slot.
    pub fn rotation_candidate(&self, db: &Database) -> (r: Option<usize>)
        ensures
            match r {
                Some(i) => i < db.chats@.len() && !db.chats@[i as int].joined && forall|j: int|
                    0 <= j < db.chats@.len() && !(#[trigger] db.chats@[j]).joined ==> chat_precedes(
                        db.chats@[i as int],
                        db.chats@[j],
                    ),
                None => forall|j: int| 0 <= j < db.chats@.len() ==> (#[trigger] db.chats@[j]).joined,
            },
    {
        let r = db.find_oldest_chat(Some(false));
        proof {
            match r {
                Some(i) => {
                    assert forall|j: int|
                        0 <= j < db.chats@.len() && !(#[trigger] db.chats@[j]).joined
                            implies chat_precedes(db.chats@[i as int], db.chats@[j]) by {
                        assert(chat_matches(db.chats@[j], Some(false)));
                    }
                },
                None => {
                    assert forall|j: int|
                        0 <= j < db.chats@.len() implies (#[trigger] db.chats@[j]).joined by {
                        assert(!chat_matches(db.chats@[j], Some(false)) ==> db.chats@[j].joined);
                    }
                },
            }
        }
        r
    }

    /// Only broadcast channels are rejoined by the sweep; joining other
    /// kinds is left to the remote-driven paths.
    pub fn should_join(&self, c: &crate::types::ChatRecord) -> (r: bool)
        ensures
            r == (c.ty == ChatType::Channel),
    {
        match c.ty {
            ChatType::Channel => true,
            _ => false,
        }
    }
}

/// The occupancy reconcile task: flags follow the live membership list.
pub struct SyncChat {
}

impl SyncChat {
    pub fn new() -> SyncChat {
        SyncChat {  }
    }

    /// One reconcile pass: after it, a destination is marked occupied
    /// exactly when the live membership list carries its identity.
    pub fn run(&self, db: &mut Database, live: &Vec<i64>)
        requires
            old(db).wf(),
        ensures
            final(db).wf(),
            final(db).chats@.len() == old(db).chats@.len(),
            forall|i: int|
                0 <= i < old(db).chats@.len() ==> final(db).chats@[i] == with_joined(
                    #[trigger] old(db).chats@[i],
                    live@.contains(old(db).chats@[i].chat_id),
                ),
            final(db).links@ == old(db).links@,
            final(db).messages@ == old(db).messages@,
            final(db).searches@ == old(db).searches@,
    {
        db.sync_chat_joined(live);
    }
}

} // verus!

//! Crawl pipeline: consume stored references, classify them, and settle
//! each one — resolving, joining, fetching and archiving through the
//! gateway — marking the reference classified exactly once whatever the
//! outcome.
//!
//! The remote calls themselves suspend outside the library; every decision
//! between two calls, and every store transition, is here.

use vstd::prelude::*;

use crate::classify::{ChatMessage, MaybeChannel};
use crate::message::MessageExt;
use crate::store::{
    chat_has_username, spec_put_chat, with_extracted, Database,
};
use crate::types::{ChatRecord, ChatType, LinkRecord, Source};

verus! {

/// Plain attributes of a destination the messaging collaborator resolved,
/// unpacked or returned from an accepted invite.
#[derive(Debug, Clone)]
pub struct ResolvedChat {
    pub chat_id: i64,
    pub ty: ChatType,
    pub usernames: Vec<String>,
    pub name: String,
    pub packed: String,
}

impl ResolvedChat {
    /// The destination row this resolution upserts.
    pub fn to_record(self, joined: bool, source: Source) -> (r: ChatRecord)
        ensures
            r.chat_id == self.chat_id,
            r.ty == self.ty,
            r.usernames == self.usernames,
            r.name == self.name,
            r.packed == self.packed,
            r.joined == joined,
            r.source == source.ty,
            r.source_id == source.id,
            r.last_update == 0,
    {
        ChatRecord::from_chat(
            self.chat_id,
            self.ty,
            self.usernames,
            self.name,
            self.packed,
            joined,
            source,
        )
    }
}

/// One item-fetch work unit: a destination, an item identity, and lineage.
pub struct ChatMessageExt {
    pub chat_id: i64,
    pub msg_id: i32,
    pub source: Source,
}

impl ChatMessageExt {
    pub fn new(chat_id: i64, msg_id: i32, source: Source) -> (r: ChatMessageExt)
        ensures
            r.chat_id == chat_id,
            r.msg_id == msg_id,
            r.source == source,
    {
        ChatMessageExt { chat_id, msg_id, source }
    }
}

/// Some reference row carries this row identity.
pub open spec fn has_link_id(links: Seq<LinkRecord>, link_id: i32) -> bool {
    exists|i: int| 0 <= i < links.len() && (#[trigger] links[i]).id == link_id
}

/// The scan task over the reference table.
pub struct ScanLink {
}

impl ScanLink {
    pub fn new() -> ScanLink {
        ScanLink {  }
    }

    /// The next reference to process: the first not yet classified.
    pub fn select_unparsed(&self, db: &Database) -> (r: Option<usize>)
        ensures
            match r {
                Some(i) => i < db.links@.len() && !db.links@[i as int].parsed && forall|j: int|
                    0 <= j < i ==> (#[trigger] db.links@[j]).parsed,
                None => forall|j: int| 0 <= j < db.links@.len() ==> (#[trigger] db.links@[j]).parsed,
            },
    {
        let n = db.links.len();
        let mut k: usize = 0;
        while k < n
            invariant
                0 <= k <= n,
                n == db.links@.len(),
                forall|j: int| 0 <= j < k ==> (#[trigger] db.links@[j]).parsed,
            decreases n - k,
        {
            if !db.links[k].parsed {
                return Some(k);
            }
            k += 1;
        }
        None
    }

    /// Whether the alias of a chat/item reference is already collected; when
    /// it is, hand back the stored credential so the destination is reused
    /// without spending a resolution slot.
    pub fn parse_chat_msg_known(&self, db: &Database, cm: &ChatMessage) -> (r: Option<(
        usize,
        String,
    )>)
        ensures
            match r {
                Some((i, p)) => i < db.chats@.len() && chat_has_username(
                    db.chats@[i as int],
                    cm.username@,
                ) && p@ == db.chats@[i as int].packed@,
                None => forall|j: int|
                    0 <= j < db.chats@.len() ==> !chat_has_username(
                        #[trigger] db.chats@[j],
                        cm.username@,
                    ),
            },
    {
        match db.find_chat(Some(cm.username.as_str())) {
            Some(i) => {
                let p = db.chats[i].packed.clone();
                Some((i, p))
            },
            None => None,
        }
    }

    /// Settle a chat/item reference once resolution finished (or was given
    /// up): upsert the destination when one came back, and mark the
    /// reference classified either way — it is never looked at again. Hands
    /// back the destination to join, when there is one.
    pub fn parse_chat_msg_resolved(
        &self,
        db: &mut Database,
        link_id: i32,
        resolved: Option<ResolvedChat>,
        source: Source,
    ) -> (r: Option<(usize, i64)>)
        requires
            old(db).wf(),
            has_link_id(old(db).links@, link_id),
        ensures
            final(db).wf(),
            final(db).messages@ == old(db).messages@,
            final(db).searches@ == old(db).searches@,
            match resolved {
                None => {
                    &&& r is None
                    &&& final(db).chats@ == old(db).chats@
                    &&& exists|i: int|
                        0 <= i < old(db).links@.len() && (#[trigger] old(db).links@[i]).id
                            == link_id && final(db).links@ == old(db).links@.update(
                            i,
                            with_extracted(old(db).links@[i], None),
                        )
                },
                Some(rc) => {
                    &&& final(db).chats@ == spec_put_chat(
                        old(db).chats@,
                        (ChatRecord {
                            chat_id: rc.chat_id,
                            ty: rc.ty,
                            usernames: rc.usernames,
                            name: rc.name,
                            packed: rc.packed,
                            source: source.ty,
                            source_id: source.id,
                            joined: false,
                            last_update: 0,
                        }),
                    )
                    &&& r matches Some((ci, id)) && id == rc.chat_id && ci < final(db).chats@.len()
                        && final(db).chats@[ci as int].chat_id == rc.chat_id
                    &&& exists|i: int, p: String|
                        #![trigger with_extracted(old(db).links@[i], Some(p))]
                        0 <= i < old(db).links@.len() && old(db).links@[i].id
                            == link_id && p@ == rc.packed@ && final(db).links@
                            == old(db).links@.update(
                            i,
                            with_extracted(old(db).links@[i], Some(p)),
                        )
                },
            },
    {
        match resolved {
            None => {
                let marked = self.mark_dead(db, link_id);
                None
            },
            Some(rc) => {
                let packed = rc.packed.clone();
                let chat_id = rc.chat_id;
                let ci = db.put_chat(rc.to_record(false, source));
                let marked = db.set_link_extracted(link_id, Some(packed));
                proof {
                    assert(marked is Some);
                }
                Some((ci, chat_id))
            },
        }
    }

    /// Mark a reference classified with no resolved target: a dead
    /// reference, never retried.
    pub fn mark_dead(&self, db: &mut Database, link_id: i32) -> (r: usize)
        requires
            old(db).wf(),
            has_link_id(old(db).links@, link_id),
        ensures
            final(db).wf(),
            final(db).chats@ == old(db).chats@,
            final(db).messages@ == old(db).messages@,
            final(db).searches@ == old(db).searches@,
            exists|i: int|
                0 <= i < old(db).links@.len() && (#[trigger] old(db).links@[i]).id == link_id
                    && r == i && final(db).links@ == old(db).links@.update(
                    i,
                    with_extracted(old(db).links@[i], None),
                ),
    {
        let marked = db.set_link_extracted(link_id, None);
        proof {
            assert(marked is Some);
        }
        match marked {
            Some(i) => i,
            None => 0,
        }
    }

    /// Settle an invite reference once the accept came back: a destination
    /// means it was joined — upsert it occupied and keep its credential on
    /// the reference; no destination leaves a dead reference. Hands back the
    /// joined destination for history backfill.
    pub fn parse_invite(
        &self,
        db: &mut Database,
        link_id: i32,
        accepted: Option<ResolvedChat>,
        source: Source,
    ) -> (r: Option<(usize, i64)>)
        requires
            old(db).wf(),
            has_link_id(old(db).links@, link_id),
        ensures
            final(db).wf(),
            final(db).messages@ == old(db).messages@,
            final(db).searches@ == old(db).searches@,
            match accepted {
                None => {
                    &&& r is None
                    &&& final(db).chats@ == old(db).chats@
                    &&& exists|i: int|
                        0 <= i < old(db).links@.len() && (#[trigger] old(db).links@[i]).id
                            == link_id && final(db).links@ == old(db).links@.update(
                            i,
                            with_extracted(old(db).links@[i], None),
                        )
                },
                Some(rc) => {
                    &&& final(db).chats@ == spec_put_chat(
                        old(db).chats@,
                        (ChatRecord {
                            chat_id: rc.chat_id,
                            ty: rc.ty,
                            usernames: rc.usernames,
                            name: rc.name,
                            packed: rc.packed,
                            source: source.ty,
                            source_id: source.id,
                            joined: true,
                            last_update: 0,
                        }),
                    )
                    &&& r matches Some((ci, id)) && id == rc.chat_id && ci < final(db).chats@.len()
                        && final(db).chats@[ci as int].chat_id == rc.chat_id
                    &&& exists|i: int, p: String|
                        #![trigger with_extracted(old(db).links@[i], Some(p))]
                        0 <= i < old(db).links@.len() && old(db).links@[i].id
                            == link_id && p@ == rc.packed@ && final(db).links@
                            == old(db).links@.update(
                            i,
                            with_extracted(old(db).links@[i], Some(p)),
                        )
                },
            },
    {
        match accepted {
            None => {
                let marked = self.mark_dead(db, link_id);
                None
            },
            Some(rc) => {
                let packed = rc.packed.clone();
                let chat_id = rc.chat_id;
                let ci = db.put_chat(rc.to_record(true, source));
                let marked = db.set_link_extracted(link_id, Some(packed));
                proof {
                    assert(marked is Some);
                }
                Some((ci, chat_id))
            },
        }
    }

    /// Whether a bare-alias reference is already covered by a collected
    /// destination.
    pub fn channel_known(&self, db: &Database, mc: &MaybeChannel) -> (r: bool)
        ensures
            r == exists|j: int|
                0 <= j < db.chats@.len() && chat_has_username(#[trigger] db.chats@[j], mc.username@),
    {
        match db.find_chat(Some(mc.username.as_str())) {
            Some(i) => {
                proof {
                    assert(chat_has_username(db.chats@[i as int], mc.username@));
                }
                true
            },
            None => false,
        }
    }

    /// Settle a bare-alias reference once resolution finished (or it was
    /// already covered, or given up): upsert the destination when one came
    /// back, mark the reference classified either way, and hand back the
    /// destination to join and backfill.
    pub fn parse_channel_resolved(
        &self,
        db: &mut Database,
        link_id: i32,
        resolved: Option<ResolvedChat>,
        source: Source,
    ) -> (r: Option<(usize, i64)>)
        requires
            old(db).wf(),
            has_link_id(old(db).links@, link_id),
        ensures
            final(db).wf(),
            final(db).messages@ == old(db).messages@,
            final(db).searches@ == old(db).searches@,
            match resolved {
                None => {
                    &&& r is None
                    &&& final(db).chats@ == old(db).chats@
                    &&& exists|i: int|
                        0 <= i < old(db).links@.len() && (#[trigger] old(db).links@[i]).id
                            == link_id && final(db).links@ == old(db).links@.update(
                            i,
                            with_extracted(old(db).links@[i], None),
                        )
                },
                Some(rc) => {
                    &&& final(db).chats@ == spec_put_chat(
                        old(db).chats@,
                        (ChatRecord {
                            chat_id: rc.chat_id,
                            ty: rc.ty,
                            usernames: rc.usernames,
                            name: rc.name,
                            packed: rc.packed,
                            source: source.ty,
                            source_id: source.id,
                            joined: false,
                            last_update: 0,
                        }),
                    )
                    &&& r matches Some((ci, id)) && id == rc.chat_id && ci < final(db).chats@.len()
                        && final(db).chats@[ci as int].chat_id == rc.chat_id
                    &&& exists|i: int, p: String|
                        #![trigger with_extracted(old(db).links@[i], Some(p))]
                        0 <= i < old(db).links@.len() && old(db).links@[i].id
                            == link_id && p@ == rc.packed@ && final(db).links@
                            == old(db).links@.update(
                            i,
                            with_extracted(old(db).links@[i], Some(p)),
                        )
                },
            },
    {
        self.parse_chat_msg_resolved(db, link_id, resolved, source)
    }
}

/// The destination-and-item extraction task.
pub struct AddChat {
}

impl AddChat {
    pub fn new() -> AddChat {
        AddChat {  }
    }

    /// Archive the fetched item, when the remote still had it: a present
    /// item becomes exactly one content row under its (destination, item)
    /// key; an absent one — remote history can be pruned — leaves the store
    /// untouched and is only worth a log line.
    pub fn fetch_message(&self, db: &mut Database, work: &ChatMessageExt, found: Option<
        &MessageExt,
    >) -> (r: Option<usize>)
        requires
            old(db).wf(),
            found matches Some(m) ==> m.chat_id == work.chat_id && m.msg_id == work.msg_id,
        ensures
            final(db).wf(),
            final(db).chats@ == old(db).chats@,
            final(db).links@ == old(db).links@,
            final(db).searches@ == old(db).searches@,
            match found {
                None => final(db).messages@ == old(db).messages@ && r is None,
                Some(m) => {
                    &&& r matches Some(i) && i < final(db).messages@.len()
                        && final(db).messages@[i as int].chat_id == work.chat_id
                        && final(db).messages@[i as int].msg_id == work.msg_id
                    &&& crate::message::archived(
                        old(db).messages@,
                        final(db).messages@,
                        *m,
                        work.source,
                    )
                    &&& crate::store::message_rows(final(db).messages@, work.chat_id, work.msg_id)
                        == 1
                },
            },
    {
        match found {
            Some(m) => {
                let i = crate::message::archive_message(db, m, work.source);
                Some(i)
            },
            None => None,
        }
    }
}



} // verus!

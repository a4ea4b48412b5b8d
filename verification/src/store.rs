//! In-memory model of the storage collaborator.
//!
//! The durable store owns all rows; the orchestration relies on exactly the
//! invariants stated here: one destination row per identity, one reference
//! row per raw text, one content row per (destination, item) key, and
//! insert-if-absent semantics for every upsert. Methods return row indices
//! into the public tables.

use vstd::prelude::*;

use crate::text::str_eq;
use crate::types::{ChatRecord, LinkRecord, MessageRecord, SearchRecord};

verus! {

/// Two content rows never share a (destination, item) key.
pub open spec fn msg_keys_unique(msgs: Seq<MessageRecord>) -> bool {
    forall|i: int, j: int|
        #![trigger msgs[i], msgs[j]]
        0 <= i < j < msgs.len() ==> !(msgs[i].chat_id == msgs[j].chat_id && msgs[i].msg_id
            == msgs[j].msg_id)
}

/// Two destination rows never share an identity.
pub open spec fn chat_ids_unique(chats: Seq<ChatRecord>) -> bool {
    forall|i: int, j: int|
        #![trigger chats[i], chats[j]]
        0 <= i < j < chats.len() ==> chats[i].chat_id != chats[j].chat_id
}

/// Two reference rows never share a raw text, nor a row identity.
pub open spec fn links_unique(links: Seq<LinkRecord>) -> bool {
    forall|i: int, j: int|
        #![trigger links[i], links[j]]
        0 <= i < j < links.len() ==> links[i].link@ != links[j].link@ && links[i].id != links[j].id
}

/// Some content row carries the key.
pub open spec fn has_message(msgs: Seq<MessageRecord>, chat_id: i64, msg_id: i32) -> bool {
    exists|i: int| 0 <= i < msgs.len() && #[trigger] msgs[i].chat_id == chat_id && msgs[i].msg_id
        == msg_id
}

/// Some destination row carries the identity.
pub open spec fn has_chat(chats: Seq<ChatRecord>, chat_id: i64) -> bool {
    exists|i: int| 0 <= i < chats.len() && #[trigger] chats[i].chat_id == chat_id
}

/// Some reference row carries the raw text.
pub open spec fn has_link(links: Seq<LinkRecord>, link: Seq<char>) -> bool {
    exists|i: int| 0 <= i < links.len() && #[trigger] links[i].link@ == link
}

/// The idempotent archive step: a row is added only when its key is new.
pub open spec fn spec_put_message(msgs: Seq<MessageRecord>, data: MessageRecord) -> Seq<
    MessageRecord,
> {
    if has_message(msgs, data.chat_id, data.msg_id) {
        msgs
    } else {
        msgs.push(data)
    }
}

/// The idempotent destination upsert: keyed by identity.
pub open spec fn spec_put_chat(chats: Seq<ChatRecord>, data: ChatRecord) -> Seq<ChatRecord> {
    if has_chat(chats, data.chat_id) {
        chats
    } else {
        chats.push(data)
    }
}

/// How many content rows carry the key.
pub open spec fn message_rows(msgs: Seq<MessageRecord>, chat_id: i64, msg_id: i32) -> nat
    decreases msgs.len(),
{
    if msgs.len() == 0 {
        0
    } else {
        message_rows(msgs.drop_last(), chat_id, msg_id) + if msgs.last().chat_id == chat_id
            && msgs.last().msg_id == msg_id {
            1nat
        } else {
            0nat
        }
    }
}

/// With unique keys, a key is carried by exactly one row or none.
pub proof fn lemma_message_rows_unique(msgs: Seq<MessageRecord>, chat_id: i64, msg_id: i32)
    requires
        msg_keys_unique(msgs),
    ensures
        message_rows(msgs, chat_id, msg_id) == if has_message(msgs, chat_id, msg_id) {
            1nat
        } else {
            0nat
        },
    decreases msgs.len(),
{
    if msgs.len() > 0 {
        let init = msgs.drop_last();
        assert(msg_keys_unique(init)) by {
            assert(forall|i: int|
                0 <= i < init.len() ==> init[i] == #[trigger] msgs[i]);
        }
        lemma_message_rows_unique(init, chat_id, msg_id);
        if msgs.last().chat_id == chat_id && msgs.last().msg_id == msg_id {
            assert(!has_message(init, chat_id, msg_id)) by {
                if has_message(init, chat_id, msg_id) {
                    let i = choose|i: int|
                        0 <= i < init.len() && #[trigger] init[i].chat_id == chat_id
                            && init[i].msg_id == msg_id;
                    assert(msgs[i] == init[i]);
                    assert(msgs[msgs.len() - 1] == msgs.last());
                }
            }
        } else {
            if has_message(msgs, chat_id, msg_id) {
                let i = choose|i: int|
                    0 <= i < msgs.len() && #[trigger] msgs[i].chat_id == chat_id && msgs[i].msg_id
                        == msg_id;
                assert(i < init.len() && init[i] == msgs[i]);
                assert(has_message(init, chat_id, msg_id));
            }
        }
    }
}

/// Archiving the same (destination, item) twice leaves the table as one
/// archive left it: the second write is a no-op.
pub proof fn lemma_archive_idempotent(msgs: Seq<MessageRecord>, data: MessageRecord)
    ensures
        spec_put_message(spec_put_message(msgs, data), data) == spec_put_message(msgs, data),
{
    let once = spec_put_message(msgs, data);
    if !has_message(msgs, data.chat_id, data.msg_id) {
        assert(once[once.len() - 1] == data);
        assert(has_message(once, data.chat_id, data.msg_id));
    }
}

/// Archiving a (destination, item) into a well-keyed table leaves exactly
/// one row with that key, whether or not it was present before.
pub proof fn lemma_archive_one_row(msgs: Seq<MessageRecord>, data: MessageRecord)
    requires
        msg_keys_unique(msgs),
    ensures
        message_rows(spec_put_message(msgs, data), data.chat_id, data.msg_id) == 1,
{
    if has_message(msgs, data.chat_id, data.msg_id) {
        lemma_message_rows_unique(msgs, data.chat_id, data.msg_id);
    } else {
        let pushed = msgs.push(data);
        assert(pushed.drop_last() =~= msgs);
        lemma_message_rows_unique(msgs, data.chat_id, data.msg_id);
    }
}

/// The storage model: the four tables and the row-identity counters the
/// store assigns from.
pub struct Database {
    pub chats: Vec<ChatRecord>,
    pub links: Vec<LinkRecord>,
    pub messages: Vec<MessageRecord>,
    pub searches: Vec<SearchRecord>,
    pub next_link_id: i32,
    pub next_search_id: i32,
}

impl Database {
    /// Every invariant the orchestration relies on.
    pub open spec fn wf(&self) -> bool {
        &&& chat_ids_unique(self.chats@)
        &&& links_unique(self.links@)
        &&& msg_keys_unique(self.messages@)
        &&& forall|i: int|
            0 <= i < self.links@.len() ==> (#[trigger] self.links@[i]).id < self.next_link_id
        &&& forall|i: int, j: int|
            #![trigger self.searches@[i], self.searches@[j]]
            0 <= i < j < self.searches@.len() ==> self.searches@[i].id != self.searches@[j].id
        &&& forall|i: int|
            0 <= i < self.searches@.len() ==> (#[trigger] self.searches@[i]).id
                < self.next_search_id
    }

    /// A fresh, empty store.
    pub fn new() -> (db: Database)
        ensures
            db.wf(),
            db.chats@.len() == 0,
            db.links@.len() == 0,
            db.messages@.len() == 0,
            db.searches@.len() == 0,
    {
        Database {
            chats: Vec::new(),
            links: Vec::new(),
            messages: Vec::new(),
            searches: Vec::new(),
            next_link_id: 0,
            next_search_id: 0,
        }
    }

    /// Archive one content row, idempotently: re-archiving an existing
    /// (destination, item) key is a no-op, not an error. Returns the index
    /// of the row carrying the key.
    pub fn put_message(&mut self, data: MessageRecord) -> (i: usize)
        requires
            old(self).wf(),
        ensures
            final(self).wf(),
            final(self).messages@ == spec_put_message(old(self).messages@, data),
            final(self).chats@ == old(self).chats@,
            final(self).links@ == old(self).links@,
            final(self).searches@ == old(self).searches@,
            final(self).next_link_id == old(self).next_link_id,
            final(self).next_search_id == old(self).next_search_id,
            i < final(self).messages@.len(),
            final(self).messages@[i as int].chat_id == data.chat_id,
            final(self).messages@[i as int].msg_id == data.msg_id,
            !has_message(old(self).messages@, data.chat_id, data.msg_id) ==> final(self).messages@[i as int] == data,
            message_rows(final(self).messages@, data.chat_id, data.msg_id) == 1,
    {
        let n = self.messages.len();
        let mut k: usize = 0;
        while k < n
            invariant
                0 <= k <= n,
                n == self.messages@.len(),
                self == old(self),
                old(self).wf(),
                forall|j: int|
                    0 <= j < k ==> !(#[trigger] self.messages@[j].chat_id == data.chat_id
                        && self.messages@[j].msg_id == data.msg_id),
            decreases n - k,
        {
            if self.messages[k].chat_id == data.chat_id && self.messages[k].msg_id == data.msg_id {
                proof {
                    lemma_archive_one_row(self.messages@, data);
                }
                return k;
            }
            k += 1;
        }
        proof {
            assert(!has_message(self.messages@, data.chat_id, data.msg_id));
            lemma_archive_one_row(self.messages@, data);
        }
        self.messages.push(data);
        proof {
            assert(msg_keys_unique(self.messages@)) by {
                let msgs = self.messages@;
                assert(forall|i: int|
                    0 <= i < msgs.len() - 1 ==> msgs[i] == #[trigger] old(self).messages@[i]);
            }
        }
        self.messages.len() - 1
    }
}

/// The same destination row with its slot-occupancy flag replaced.
pub open spec fn with_joined(c: ChatRecord, joined: bool) -> ChatRecord {
    ChatRecord { joined, ..c }
}

/// The same destination row with its last-activity watermark replaced.
pub open spec fn with_last_update(c: ChatRecord, last_update: i64) -> ChatRecord {
    ChatRecord { last_update, ..c }
}

/// The same reference row marked classified, with its resolved credential.
pub open spec fn with_extracted(l: LinkRecord, packed: Option<String>) -> LinkRecord {
    LinkRecord { parsed: true, packed, ..l }
}

/// The same reference row under the store-assigned row identity.
pub open spec fn with_link_id(l: LinkRecord, id: i32) -> LinkRecord {
    LinkRecord { id, ..l }
}

/// A destination row passes the occupancy filter.
pub open spec fn chat_matches(c: ChatRecord, joined: Option<bool>) -> bool {
    match joined {
        Some(b) => c.joined == b,
        None => true,
    }
}

/// `a` is at least as stale as `b`: smaller watermark, ties broken towards
/// the lower identity.
pub open spec fn chat_precedes(a: ChatRecord, b: ChatRecord) -> bool {
    a.last_update < b.last_update || (a.last_update == b.last_update && a.chat_id <= b.chat_id)
}

/// `a` is at least as fresh as `b`, ties broken towards the lower identity.
pub open spec fn chat_follows(a: ChatRecord, b: ChatRecord) -> bool {
    a.last_update > b.last_update || (a.last_update == b.last_update && a.chat_id <= b.chat_id)
}

/// The destination row lists this alias.
pub open spec fn chat_has_username(c: ChatRecord, u: Seq<char>) -> bool {
    exists|k: int| 0 <= k < c.usernames@.len() && (#[trigger] c.usernames@[k])@ == u
}

/// Membership scan for a plain identity list.
fn contains_i64(v: &Vec<i64>, x: i64) -> (r: bool)
    ensures
        r == v@.contains(x),
{
    let n = v.len();
    let mut k: usize = 0;
    while k < n
        invariant
            0 <= k <= n,
            n == v@.len(),
            forall|j: int| 0 <= j < k ==> v@[j] != x,
        decreases n - k,
    {
        if v[k] == x {
            return true;
        }
        k += 1;
    }
    false
}

/// Alias membership scan over one destination row.
fn has_username(c: &ChatRecord, u: &str) -> (r: bool)
    ensures
        r == chat_has_username(*c, u@),
{
    let n = c.usernames.len();
    let mut k: usize = 0;
    while k < n
        invariant
            0 <= k <= n,
            n == c.usernames@.len(),
            forall|j: int| 0 <= j < k ==> (#[trigger] c.usernames@[j])@ != u@,
        decreases n - k,
    {
        if str_eq(c.usernames[k].as_str(), u) {
            return true;
        }
        k += 1;
    }
    false
}

impl Database {
    /// Index of the destination row with this identity, if any.
    fn find_chat_index(&self, chat_id: i64) -> (r: Option<usize>)
        ensures
            match r {
                Some(i) => i < self.chats@.len() && self.chats@[i as int].chat_id == chat_id,
                None => !has_chat(self.chats@, chat_id),
            },
    {
        let n = self.chats.len();
        let mut k: usize = 0;
        while k < n
            invariant
                0 <= k <= n,
                n == self.chats@.len(),
                forall|j: int| 0 <= j < k ==> (#[trigger] self.chats@[j]).chat_id != chat_id,
            decreases n - k,
        {
            if self.chats[k].chat_id == chat_id {
                return Some(k);
            }
            k += 1;
        }
        None
    }

    /// Upsert one destination row, keyed by identity: a row is added only
    /// when the identity is new, so at most one row per identity ever
    /// exists. Returns the index of the row carrying the identity.
    pub fn put_chat(&mut self, data: ChatRecord) -> (i: usize)
        requires
            old(self).wf(),
        ensures
            final(self).wf(),
            final(self).chats@ == spec_put_chat(old(self).chats@, data),
            final(self).links@ == old(self).links@,
            final(self).messages@ == old(self).messages@,
            final(self).searches@ == old(self).searches@,
            final(self).next_link_id == old(self).next_link_id,
            final(self).next_search_id == old(self).next_search_id,
            i < final(self).chats@.len(),
            final(self).chats@[i as int].chat_id == data.chat_id,
            !has_chat(old(self).chats@, data.chat_id) ==> final(self).chats@[i as int] == data,
    {
        let n = self.chats.len();
        let mut k: usize = 0;
        while k < n
            invariant
                0 <= k <= n,
                n == self.chats@.len(),
                self == old(self),
                old(self).wf(),
                forall|j: int| 0 <= j < k ==> (#[trigger] self.chats@[j]).chat_id != data.chat_id,
            decreases n - k,
        {
            if self.chats[k].chat_id == data.chat_id {
                return k;
            }
            k += 1;
        }
        proof {
            assert(!has_chat(self.chats@, data.chat_id));
        }
        self.chats.push(data);
        proof {
            assert(chat_ids_unique(self.chats@)) by {
                let chats = self.chats@;
                assert(forall|i2: int|
                    0 <= i2 < chats.len() - 1 ==> chats[i2] == #[trigger] old(self).chats@[i2]);
            }
        }
        self.chats.len() - 1
    }

    /// Upsert one reference row, keyed by raw text; a new row takes the next
    /// store-assigned identity. Returns the index of the row carrying the
    /// text.
    pub fn put_link(&mut self, data: LinkRecord) -> (i: usize)
        requires
            old(self).wf(),
            old(self).next_link_id < i32::MAX,
        ensures
            final(self).wf(),
            final(self).chats@ == old(self).chats@,
            final(self).messages@ == old(self).messages@,
            final(self).searches@ == old(self).searches@,
            final(self).next_search_id == old(self).next_search_id,
            i < final(self).links@.len(),
            final(self).links@[i as int].link@ == data.link@,
            has_link(old(self).links@, data.link@) ==> final(self).links@ == old(self).links@
                && final(self).next_link_id == old(self).next_link_id,
            !has_link(old(self).links@, data.link@) ==> final(self).links@ == old(
                self,
            ).links@.push(with_link_id(data, old(self).next_link_id)) && final(self).next_link_id
                == old(self).next_link_id + 1 && i == old(self).links@.len(),
    {
        let n = self.links.len();
        let mut k: usize = 0;
        while k < n
            invariant
                0 <= k <= n,
                n == self.links@.len(),
                self == old(self),
                old(self).wf(),
                forall|j: int| 0 <= j < k ==> (#[trigger] self.links@[j]).link@ != data.link@,
            decreases n - k,
        {
            if str_eq(self.links[k].link.as_str(), data.link.as_str()) {
                return k;
            }
            k += 1;
        }
        proof {
            assert(!has_link(self.links@, data.link@));
        }
        let mut stored = data;
        stored.id = self.next_link_id;
        self.next_link_id = self.next_link_id + 1;
        self.links.push(stored);
        proof {
            assert(links_unique(self.links@) && forall|j: int|
                0 <= j < self.links@.len() ==> (#[trigger] self.links@[j]).id
                    < self.next_link_id) by {
                let links = self.links@;
                assert(forall|i2: int|
                    0 <= i2 < links.len() - 1 ==> links[i2] == #[trigger] old(self).links@[i2]);
            }
        }
        self.links.len() - 1
    }

    /// Insert one standing-search row under the next store-assigned
    /// identity.
    pub fn put_search(&mut self, data: SearchRecord) -> (i: usize)
        requires
            old(self).wf(),
            old(self).next_search_id < i32::MAX,
        ensures
            final(self).wf(),
            final(self).chats@ == old(self).chats@,
            final(self).links@ == old(self).links@,
            final(self).messages@ == old(self).messages@,
            final(self).next_link_id == old(self).next_link_id,
            final(self).next_search_id == old(self).next_search_id + 1,
            final(self).searches@ == old(self).searches@.push(
                (SearchRecord {
                    id: old(self).next_search_id,
                    bot: data.bot,
                    start_time: data.start_time,
                    keyword: data.keyword,
                }),
            ),
            i == old(self).searches@.len(),
    {
        let mut stored = data;
        stored.id = self.next_search_id;
        self.next_search_id = self.next_search_id + 1;
        self.searches.push(stored);
        proof {
            let searches = self.searches@;
            assert(forall|i2: int|
                0 <= i2 < searches.len() - 1 ==> searches[i2] == #[trigger] old(
                    self,
                ).searches@[i2]);
        }
        self.searches.len() - 1
    }

    /// Point lookup by alias: the first destination row listing the alias,
    /// or nothing when no row does (or no alias was given).
    pub fn find_chat(&self, username: Option<&str>) -> (r: Option<usize>)
        ensures
            match username {
                None => r is None,
                Some(u) => match r {
                    Some(i) => i < self.chats@.len() && chat_has_username(
                        self.chats@[i as int],
                        u@,
                    ) && forall|j: int|
                        0 <= j < i ==> !chat_has_username(#[trigger] self.chats@[j], u@),
                    None => forall|j: int|
                        0 <= j < self.chats@.len() ==> !chat_has_username(
                            #[trigger] self.chats@[j],
                            u@,
                        ),
                },
            },
    {
        let u = match username {
            Some(u) => u,
            None => {
                return None;
            },
        };
        let n = self.chats.len();
        let mut k: usize = 0;
        while k < n
            invariant
                0 <= k <= n,
                n == self.chats@.len(),
                username == Some(u),
                forall|j: int| 0 <= j < k ==> !chat_has_username(#[trigger] self.chats@[j], u@),
            decreases n - k,
        {
            if has_username(&self.chats[k], u) {
                return Some(k);
            }
            k += 1;
        }
        None
    }

    /// Mark one reference row classified, attaching the resolved credential
    /// when there is one. Nothing changes when no row has the identity.
    pub fn set_link_extracted(&mut self, link_id: i32, packed: Option<String>) -> (r: Option<usize>)
        requires
            old(self).wf(),
        ensures
            final(self).wf(),
            final(self).chats@ == old(self).chats@,
            final(self).messages@ == old(self).messages@,
            final(self).searches@ == old(self).searches@,
            final(self).next_link_id == old(self).next_link_id,
            final(self).next_search_id == old(self).next_search_id,
            match r {
                Some(i) => i < old(self).links@.len() && old(self).links@[i as int].id == link_id
                    && final(self).links@ == old(self).links@.update(
                    i as int,
                    with_extracted(old(self).links@[i as int], packed),
                ),
                None => final(self).links@ == old(self).links@ && forall|j: int|
                    0 <= j < old(self).links@.len() ==> (#[trigger] old(self).links@[j]).id
                        != link_id,
            },
    {
        let n = self.links.len();
        let mut k: usize = 0;
        while k < n
            invariant
                0 <= k <= n,
                n == self.links@.len(),
                self == old(self),
                old(self).wf(),
                forall|j: int| 0 <= j < k ==> (#[trigger] self.links@[j]).id != link_id,
            decreases n - k,
        {
            if self.links[k].id == link_id {
                self.links[k].parsed = true;
                self.links[k].packed = packed;
                proof {
                    assert(final(self).links@[k as int] == with_extracted(
                        old(self).links@[k as int],
                        packed,
                    ));
                    assert(links_unique(self.links@) && forall|j: int|
                        0 <= j < self.links@.len() ==> (#[trigger] self.links@[j]).id
                            < self.next_link_id) by {
                        let links = self.links@;
                        assert(forall|i2: int|
                            0 <= i2 < links.len() ==> (#[trigger] links[i2]).link@ == old(
                                self,
                            ).links@[i2].link@ && links[i2].id == old(self).links@[i2].id);
                    }
                }
                return Some(k);
            }
            k += 1;
        }
        None
    }

    /// The destination row with the smallest last-activity watermark among
    /// those passing the occupancy filter; ties go to the lowest identity.
    pub fn find_oldest_chat(&self, joined: Option<bool>) -> (r: Option<usize>)
        ensures
            match r {
                Some(i) => i < self.chats@.len() && chat_matches(self.chats@[i as int], joined)
                    && forall|j: int|
                    0 <= j < self.chats@.len() && chat_matches(#[trigger] self.chats@[j], joined)
                        ==> chat_precedes(self.chats@[i as int], self.chats@[j]),
                None => forall|j: int|
                    0 <= j < self.chats@.len() ==> !chat_matches(#[trigger] self.chats@[j], joined),
            },
    {
        let n = self.chats.len();
        let mut best: usize = 0;
        let mut found = false;
        let mut k: usize = 0;
        while k < n
            invariant
                0 <= k <= n,
                n == self.chats@.len(),
                found ==> best < k && chat_matches(self.chats@[best as int], joined) && forall|
                    j: int,
                |
                    0 <= j < k && chat_matches(#[trigger] self.chats@[j], joined) ==> chat_precedes(
                        self.chats@[best as int],
                        self.chats@[j],
                    ),
                !found ==> forall|j: int|
                    0 <= j < k ==> !chat_matches(#[trigger] self.chats@[j], joined),
            decreases n - k,
        {
            let matches_filter = match joined {
                Some(b) => self.chats[k].joined == b,
                None => true,
            };
            if matches_filter {
                if !found {
                    best = k;
                    found = true;
                } else {
                    let cand_lu = self.chats[k].last_update;
                    let best_lu = self.chats[best].last_update;
                    if cand_lu < best_lu || (cand_lu == best_lu && self.chats[k].chat_id
                        < self.chats[best].chat_id) {
                        best = k;
                    }
                }
            }
            k += 1;
        }
        if found {
            Some(best)
        } else {
            None
        }
    }

    /// The destination row with the largest last-activity watermark among
    /// those passing the occupancy filter; ties go to the lowest identity.
    pub fn find_latest_chat(&self, joined: Option<bool>) -> (r: Option<usize>)
        ensures
            match r {
                Some(i) => i < self.chats@.len() && chat_matches(self.chats@[i as int], joined)
                    && forall|j: int|
                    0 <= j < self.chats@.len() && chat_matches(#[trigger] self.chats@[j], joined)
                        ==> chat_follows(self.chats@[i as int], self.chats@[j]),
                None => forall|j: int|
                    0 <= j < self.chats@.len() ==> !chat_matches(#[trigger] self.chats@[j], joined),
            },
    {
        let n = self.chats.len();
        let mut best: usize = 0;
        let mut found = false;
        let mut k: usize = 0;
        while k < n
            invariant
                0 <= k <= n,
                n == self.chats@.len(),
                found ==> best < k && chat_matches(self.chats@[best as int], joined) && forall|
                    j: int,
                |
                    0 <= j < k && chat_matches(#[trigger] self.chats@[j], joined) ==> chat_follows(
                        self.chats@[best as int],
                        self.chats@[j],
                    ),
                !found ==> forall|j: int|
                    0 <= j < k ==> !chat_matches(#[trigger] self.chats@[j], joined),
            decreases n - k,
        {
            let matches_filter = match joined {
                Some(b) => self.chats[k].joined == b,
                None => true,
            };
            if matches_filter {
                if !found {
                    best = k;
                    found = true;
                } else {
                    let cand_lu = self.chats[k].last_update;
                    let best_lu = self.chats[best].last_update;
                    if cand_lu > best_lu || (cand_lu == best_lu && self.chats[k].chat_id
                        < self.chats[best].chat_id) {
                        best = k;
                    }
                }
            }
            k += 1;
        }
        if found {
            Some(best)
        } else {
            None
        }
    }

    /// Mark one destination row slot-occupied.
    pub fn set_chat_joined(&mut self, chat_id: i64) -> (r: Option<usize>)
        requires
            old(self).wf(),
        ensures
            final(self).wf(),
            final(self).links@ == old(self).links@,
            final(self).messages@ == old(self).messages@,
            final(self).searches@ == old(self).searches@,
            final(self).next_link_id == old(self).next_link_id,
            final(self).next_search_id == old(self).next_search_id,
            match r {
                Some(i) => i < old(self).chats@.len() && old(self).chats@[i as int].chat_id
                    == chat_id && final(self).chats@ == old(self).chats@.update(
                    i as int,
                    with_joined(old(self).chats@[i as int], true),
                ),
                None => !has_chat(old(self).chats@, chat_id) && final(self).chats@ == old(
                    self,
                ).chats@,
            },
    {
        match self.find_chat_index(chat_id) {
            Some(i) => {
                self.chats[i].joined = true;
                proof {
                    lemma_chat_update_keeps_wf(old(self).chats@, self.chats@, i as int);
                }
                Some(i)
            },
            None => None,
        }
    }

    /// Mark one destination row slot-free.
    pub fn set_chat_quited(&mut self, chat_id: i64) -> (r: Option<usize>)
        requires
            old(self).wf(),
        ensures
            final(self).wf(),
            final(self).links@ == old(self).links@,
            final(self).messages@ == old(self).messages@,
            final(self).searches@ == old(self).searches@,
            final(self).next_link_id == old(self).next_link_id,
            final(self).next_search_id == old(self).next_search_id,
            match r {
                Some(i) => i < old(self).chats@.len() && old(self).chats@[i as int].chat_id
                    == chat_id && final(self).chats@ == old(self).chats@.update(
                    i as int,
                    with_joined(old(self).chats@[i as int], false),
                ),
                None => !has_chat(old(self).chats@, chat_id) && final(self).chats@ == old(
                    self,
                ).chats@,
            },
    {
        match self.find_chat_index(chat_id) {
            Some(i) => {
                self.chats[i].joined = false;
                proof {
                    lemma_chat_update_keeps_wf(old(self).chats@, self.chats@, i as int);
                }
                Some(i)
            },
            None => None,
        }
    }

    /// Advance one destination row's last-activity watermark.
    pub fn set_chat_updated(&mut self, chat_id: i64, last_update: i64) -> (r: Option<usize>)
        requires
            old(self).wf(),
        ensures
            final(self).wf(),
            final(self).links@ == old(self).links@,
            final(self).messages@ == old(self).messages@,
            final(self).searches@ == old(self).searches@,
            final(self).next_link_id == old(self).next_link_id,
            final(self).next_search_id == old(self).next_search_id,
            match r {
                Some(i) => i < old(self).chats@.len() && old(self).chats@[i as int].chat_id
                    == chat_id && final(self).chats@ == old(self).chats@.update(
                    i as int,
                    with_last_update(old(self).chats@[i as int], last_update),
                ),
                None => !has_chat(old(self).chats@, chat_id) && final(self).chats@ == old(
                    self,
                ).chats@,
            },
    {
        match self.find_chat_index(chat_id) {
            Some(i) => {
                self.chats[i].last_update = last_update;
                proof {
                    lemma_chat_update_keeps_wf(old(self).chats@, self.chats@, i as int);
                }
                Some(i)
            },
            None => None,
        }
    }

    /// Full occupancy reconcile: after the sweep, a destination is marked
    /// occupied exactly when the live membership list carries its identity.
    /// The remote list, not local bookkeeping, is authoritative.
    pub fn sync_chat_joined(&mut self, live: &Vec<i64>)
        requires
            old(self).wf(),
        ensures
            final(self).wf(),
            final(self).links@ == old(self).links@,
            final(self).messages@ == old(self).messages@,
            final(self).searches@ == old(self).searches@,
            final(self).next_link_id == old(self).next_link_id,
            final(self).next_search_id == old(self).next_search_id,
            final(self).chats@.len() == old(self).chats@.len(),
            forall|i: int|
                0 <= i < old(self).chats@.len() ==> final(self).chats@[i] == with_joined(
                    #[trigger] old(self).chats@[i],
                    live@.contains(old(self).chats@[i].chat_id),
                ),
    {
        let n = self.chats.len();
        let mut k: usize = 0;
        while k < n
            invariant
                0 <= k <= n,
                n == self.chats@.len(),
                old(self).wf(),
                self.links@ == old(self).links@,
                self.messages@ == old(self).messages@,
                self.searches@ == old(self).searches@,
                self.next_link_id == old(self).next_link_id,
                self.next_search_id == old(self).next_search_id,
                forall|i: int|
                    0 <= i < k ==> self.chats@[i] == with_joined(
                        #[trigger] old(self).chats@[i],
                        live@.contains(old(self).chats@[i].chat_id),
                    ),
                forall|i: int| k <= i < n ==> self.chats@[i] == #[trigger] old(self).chats@[i],
            decreases n - k,
        {
            let b = contains_i64(live, self.chats[k].chat_id);
            self.chats[k].joined = b;
            k += 1;
        }
        proof {
            assert(chat_ids_unique(self.chats@)) by {
                assert(forall|i: int|
                    0 <= i < self.chats@.len() ==> (#[trigger] self.chats@[i]).chat_id == old(
                        self,
                    ).chats@[i].chat_id);
            }
        }
    }
}

/// A pinpoint update that keeps a destination row's identity keeps the
/// table well-keyed.
proof fn lemma_chat_update_keeps_wf(olds: Seq<ChatRecord>, news: Seq<ChatRecord>, i: int)
    requires
        chat_ids_unique(olds),
        news.len() == olds.len(),
        0 <= i < olds.len(),
        news[i].chat_id == olds[i].chat_id,
        forall|j: int| 0 <= j < olds.len() && j != i ==> news[j] == olds[j],
    ensures
        chat_ids_unique(news),
{
    assert(forall|a: int|
        0 <= a < news.len() ==> (#[trigger] news[a]).chat_id == olds[a].chat_id);
}

} // verus!

//! Plain data model of the crawler: lineage tags and the rows owned by the
//! storage collaborator.
//!
//! Remote handles (connection credentials, timestamps) are carried as plain
//! values: a credential is the opaque hex string the messaging collaborator
//! packs it into, and every timestamp is epoch seconds.

use vstd::prelude::*;

verus! {

/// Which kind of upstream entity caused a row to be created.
#[derive(Debug, Clone, Copy, PartialEq, Eq, Structural)]
pub enum SourceType {
    Unsourced,
    Search,
    Link,
    Message,
    Chat,
    Manual,
}

/// Lineage tag recording why a row exists.
#[derive(Debug, Clone, Copy, PartialEq, Eq, Structural)]
pub struct Source {
    pub ty: SourceType,
    pub id: i64,
}

impl Source {
    pub fn from_search(search: &SearchRecord) -> (s: Source)
        ensures
            s == (Source { ty: SourceType::Search, id: search.id as i64 }),
    {
        Source { ty: SourceType::Search, id: search.id as i64 }
    }

    pub fn from_link(link: &LinkRecord) -> (s: Source)
        ensures
            s == (Source { ty: SourceType::Link, id: link.id as i64 }),
    {
        Source { ty: SourceType::Link, id: link.id as i64 }
    }

    pub fn from_message(msg_id: i32) -> (s: Source)
        ensures
            s == (Source { ty: SourceType::Message, id: msg_id as i64 }),
    {
        Source { ty: SourceType::Message, id: msg_id as i64 }
    }

    pub fn from_chat(chat_id: i64) -> (s: Source)
        ensures
            s == (Source { ty: SourceType::Chat, id: chat_id }),
    {
        Source { ty: SourceType::Chat, id: chat_id }
    }

    pub fn from_manual() -> (s: Source)
        ensures
            s.ty == SourceType::Manual,
            s.id == -1,
    {
        Source { ty: SourceType::Manual, id: -1 }
    }
}

/// Kind of a destination endpoint.
#[derive(Debug, Clone, Copy, PartialEq, Eq, Structural)]
pub enum ChatType {
    User,
    Group,
    Channel,
}

/// One destination row: a remote chat/channel/user endpoint.
///
/// `packed` is the opaque reusable connection credential, already in its hex
/// transport form; `last_update` is the last-activity watermark in epoch
/// seconds.
#[derive(Debug, Clone)]
pub struct ChatRecord {
    pub chat_id: i64,
    pub ty: ChatType,
    pub usernames: Vec<String>,
    pub name: String,
    pub packed: String,
    pub source: SourceType,
    pub source_id: i64,
    pub joined: bool,
    pub last_update: i64,
}

impl ChatRecord {
    /// Build a destination row from the plain attributes of a freshly
    /// resolved or joined chat.
    pub fn from_chat(
        chat_id: i64,
        ty: ChatType,
        usernames: Vec<String>,
        name: String,
        packed: String,
        joined: bool,
        source: Source,
    ) -> (r: ChatRecord)
        ensures
            r.chat_id == chat_id,
            r.ty == ty,
            r.usernames == usernames,
            r.name == name,
            r.packed == packed,
            r.joined == joined,
            r.source == source.ty,
            r.source_id == source.id,
            r.last_update == 0,
    {
        ChatRecord {
            chat_id,
            ty,
            usernames,
            name,
            packed,
            source: source.ty,
            source_id: source.id,
            joined,
            last_update: 0,
        }
    }
}

/// One reference row: a raw textual pointer discovered in content.
#[derive(Debug, Clone)]
pub struct LinkRecord {
    pub id: i32,
    pub link: String,
    pub desc: String,
    pub source: SourceType,
    pub source_id: i64,
    pub parsed: bool,
    pub packed: Option<String>,
}

/// One archived content row, keyed by (destination, item).
///
/// `raw` is the opaque serialized payload.
#[derive(Debug, Clone)]
pub struct MessageRecord {
    pub chat_id: i64,
    pub msg_id: i32,
    pub raw: String,
    pub source: SourceType,
    pub source_id: i64,
}

/// One standing-search row: a keyword activated against a search agent.
#[derive(Debug, Clone)]
pub struct SearchRecord {
    pub id: i32,
    pub bot: String,
    pub start_time: i64,
    pub keyword: String,
}

/// A link found inside a message, before it becomes a [`LinkRecord`].
#[derive(Debug, Clone)]
pub struct RelatedLink {
    pub link: String,
    pub desc: String,
}

impl RelatedLink {
    /// A fresh link value carrying the same text and description.
    pub fn duplicate(&self) -> (r: RelatedLink)
        ensures
            r.link@ == self.link@,
            r.desc@ == self.desc@,
    {
        RelatedLink { link: self.link.clone(), desc: self.desc.clone() }
    }

    pub fn new(link: String, desc: String) -> (r: RelatedLink)
        ensures
            r.link == link,
            r.desc == desc,
    {
        RelatedLink { link, desc }
    }

    /// Turn a discovered link into the reference row the store will hold.
    ///
    /// A fresh reference is unparsed and carries no resolved credential; the
    /// store assigns the row identity on insert.
    pub fn to_model(self, source: &Source) -> (r: LinkRecord)
        ensures
            r.link == self.link,
            r.desc == self.desc,
            r.source == source.ty,
            r.source_id == source.id,
            !r.parsed,
            r.packed is None,
            r.id == 0,
    {
        LinkRecord {
            id: 0,
            link: self.link,
            desc: self.desc,
            source: source.ty,
            source_id: source.id,
            parsed: false,
            packed: None,
        }
    }
}

} // verus!

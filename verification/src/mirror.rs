//! Mirror consumers: archive every live event their filters let through.

use vstd::prelude::*;

use crate::fanout::UpdateFilter;
use crate::message::{archived, MessageExt};
use crate::store::Database;
use crate::types::{Source, SourceType};

verus! {

/// The passive whole-account mirror: archives every incoming event not sent
/// by a bot.
pub struct GrayMirror {
}

/// The live incremental mirror: same filter as the gray mirror, fed from
/// the live stream.
#[derive(Default)]
pub struct LiveMirror {
}

/// A consumer that only prints what it is handed; the printing itself
/// belongs to the caller's sink, so nothing settles here beyond its filter.
#[derive(Debug)]
pub struct PrintAll {
}

/// Archive one mirrored message under its own destination's lineage.
pub fn mirror_message_recv(db: &mut Database, msg: &MessageExt) -> (i: usize)
    requires
        old(db).wf(),
    ensures
        final(db).wf(),
        final(db).chats@ == old(db).chats@,
        final(db).links@ == old(db).links@,
        final(db).searches@ == old(db).searches@,
        archived(
            old(db).messages@,
            final(db).messages@,
            *msg,
            (Source { ty: SourceType::Chat, id: msg.chat_id }),
        ),
        crate::store::message_rows(final(db).messages@, msg.chat_id, msg.msg_id) == 1,
{
    let source = Source::from_chat(msg.chat_id);
    crate::message::archive_message(db, msg, source)
}

impl GrayMirror {
    pub fn new() -> GrayMirror {
        GrayMirror {  }
    }

    /// Incoming events only, and nothing a bot sent.
    pub fn filter(&self) -> (f: UpdateFilter)
        ensures
            f.incoming_only,
            f.chat_id is None,
            f.word is None,
            f.skip_bot_senders,
    {
        UpdateFilter { incoming_only: true, chat_id: None, word: None, skip_bot_senders: true }
    }

    /// Archive what passed the filter.
    pub fn message_recv(&self, db: &mut Database, msg: &MessageExt) -> (i: usize)
        requires
            old(db).wf(),
        ensures
            final(db).wf(),
            archived(
                old(db).messages@,
                final(db).messages@,
                *msg,
                (Source { ty: SourceType::Chat, id: msg.chat_id }),
            ),
            final(db).chats@ == old(db).chats@,
            final(db).links@ == old(db).links@,
            final(db).searches@ == old(db).searches@,
    {
        mirror_message_recv(db, msg)
    }
}

impl LiveMirror {
    pub fn new() -> LiveMirror {
        LiveMirror {  }
    }

    /// Incoming events only, and nothing a bot sent.
    pub fn filter(&self) -> (f: UpdateFilter)
        ensures
            f.incoming_only,
            f.chat_id is None,
            f.word is None,
            f.skip_bot_senders,
    {
        UpdateFilter { incoming_only: true, chat_id: None, word: None, skip_bot_senders: true }
    }

    /// Archive what passed the filter; an edited message re-archives to the
    /// same row, a no-op.
    pub fn message_recv(&self, db: &mut Database, msg: &MessageExt) -> (i: usize)
        requires
            old(db).wf(),
        ensures
            final(db).wf(),
            archived(
                old(db).messages@,
                final(db).messages@,
                *msg,
                (Source { ty: SourceType::Chat, id: msg.chat_id }),
            ),
            final(db).chats@ == old(db).chats@,
            final(db).links@ == old(db).links@,
            final(db).searches@ == old(db).searches@,
    {
        mirror_message_recv(db, msg)
    }
}

impl PrintAll {
    pub fn new() -> PrintAll {
        PrintAll {  }
    }

    /// The default consumer filter: every incoming event.
    pub fn filter(&self) -> (f: UpdateFilter)
        ensures
            f.incoming_only,
            f.chat_id is None,
            f.word is None,
            !f.skip_bot_senders,
    {
        UpdateFilter::incoming()
    }
}

} // verus!

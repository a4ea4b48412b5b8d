//! Plain model of one live message: what the orchestration reads from it.
//!
//! Entity offsets and lengths count UTF-16 code units, as the wire format
//! defines them; link descriptions are decoded from the unit slice an entity
//! points at.

use vstd::prelude::*;

use crate::store::{spec_put_message, Database};
use crate::types::{MessageRecord, RelatedLink, Source};

verus! {

/// What decoding a UTF-16 unit sequence yields, when it is valid; what
/// `String::from_utf16` computes.
pub uninterp spec fn decoded_utf16(units: Seq<u16>) -> Option<Seq<char>>;

/// Relies on `String::from_utf16`: the decoding depends on the code units
/// alone, and fails exactly on invalid UTF-16.
#[verifier::external_body]
fn utf16_to_string(units: &Vec<u16>) -> (r: Option<String>)
    ensures
        match r {
            Some(s) => decoded_utf16(units@) == Some(s@),
            None => decoded_utf16(units@) is None,
        },
{
    String::from_utf16(units.as_slice()).ok()
}

/// One text-url entity: a link planted over a span of the message text.
#[derive(Debug, Clone)]
pub struct UrlEntity {
    pub url: String,
    pub offset: i32,
    pub length: i32,
}

/// One interactive callback button.
#[derive(Debug, Clone)]
pub struct CallbackButton {
    pub text: String,
    pub data: Vec<u8>,
}

/// One keyboard button: only callback buttons matter to the orchestration.
#[derive(Debug, Clone)]
pub enum KeyboardButton {
    Callback(CallbackButton),
    Other,
}

/// The entity points at a decodable span of the text.
pub open spec fn entity_valid(words: Seq<u16>, e: UrlEntity) -> bool {
    &&& 0 <= e.offset
    &&& 0 <= e.length
    &&& e.offset + e.length <= words.len()
    &&& decoded_utf16(words.subrange(e.offset as int, e.offset + e.length)) is Some
}

/// The (link, description) pair an entity yields.
pub open spec fn entity_link(words: Seq<u16>, e: UrlEntity) -> (Seq<char>, Seq<char>) {
    (e.url@, decoded_utf16(words.subrange(e.offset as int, e.offset + e.length))->0)
}

/// All links the entity list yields, in order; entities pointing outside
/// the text or at invalid UTF-16 are skipped.
pub open spec fn spec_links(words: Seq<u16>, ents: Seq<UrlEntity>) -> Seq<(Seq<char>, Seq<char>)>
    decreases ents.len(),
{
    if ents.len() == 0 {
        Seq::empty()
    } else {
        spec_links(words, ents.drop_last()) + if entity_valid(words, ents.last()) {
            seq![entity_link(words, ents.last())]
        } else {
            Seq::empty()
        }
    }
}

/// A message yields at most one link per entity.
pub proof fn lemma_spec_links_len(words: Seq<u16>, ents: Seq<UrlEntity>)
    ensures
        spec_links(words, ents).len() <= ents.len(),
    decreases ents.len(),
{
    if ents.len() > 0 {
        lemma_spec_links_len(words, ents.drop_last());
    }
}

/// Positions of the callback buttons, in order.
pub open spec fn spec_callback_positions(buttons: Seq<KeyboardButton>) -> Seq<int>
    decreases buttons.len(),
{
    if buttons.len() == 0 {
        Seq::empty()
    } else {
        spec_callback_positions(buttons.drop_last()) + if buttons.last() is Callback {
            seq![buttons.len() - 1]
        } else {
            Seq::empty()
        }
    }
}

/// A plain view of one live message.
#[derive(Debug, Clone)]
pub struct MessageExt {
    pub chat_id: i64,
    pub msg_id: i32,
    pub outgoing: bool,
    pub sender_is_bot: bool,
    pub text_utf16: Vec<u16>,
    pub entities: Vec<UrlEntity>,
    pub buttons: Vec<KeyboardButton>,
    pub raw: String,
}

impl MessageExt {
    /// Extract every link planted in the message text, with its decoded
    /// description.
    pub fn links(&self) -> (r: Vec<RelatedLink>)
        ensures
            r@.map_values(|l: RelatedLink| (l.link@, l.desc@)) == spec_links(
                self.text_utf16@,
                self.entities@,
            ),
    {
        let n = self.entities.len();
        let mut out: Vec<RelatedLink> = Vec::new();
        let mut k: usize = 0;
        while k < n
            invariant
                0 <= k <= n,
                n == self.entities@.len(),
                out@.map_values(|l: RelatedLink| (l.link@, l.desc@)) == spec_links(
                    self.text_utf16@,
                    self.entities@.subrange(0, k as int),
                ),
            decreases n - k,
        {
            let ghost pre = self.entities@.subrange(0, k as int);
            let e = &self.entities[k];
            proof {
                assert(self.entities@.subrange(0, k + 1).drop_last() =~= pre);
                assert(self.entities@.subrange(0, k + 1).last() == self.entities@[k as int]);
            }
            if e.offset >= 0 && e.length >= 0 {
                let off = e.offset as usize;
                let len = e.length as usize;
                let total = self.text_utf16.len();
                if off <= total && len <= total - off {
                    let mut units: Vec<u16> = Vec::new();
                    let mut t: usize = 0;
                    while t < len
                        invariant
                            0 <= t <= len,
                            off + len <= self.text_utf16@.len(),
                            self.text_utf16@.len() <= usize::MAX,
                            units@ == self.text_utf16@.subrange(off as int, off + t),
                        decreases len - t,
                    {
                        proof {
                            assert(self.text_utf16@.subrange(off as int, off + t + 1)
                                =~= self.text_utf16@.subrange(off as int, off + t).push(
                                self.text_utf16@[off + t],
                            ));
                        }
                        units.push(self.text_utf16[off + t]);
                        t += 1;
                    }
                    match utf16_to_string(&units) {
                        Some(desc) => {
                            out.push(RelatedLink::new(e.url.clone(), desc));
                        },
                        None => {},
                    }
                }
            }
            proof {
                let full = out@.map_values(|l: RelatedLink| (l.link@, l.desc@));
                let want = spec_links(self.text_utf16@, self.entities@.subrange(0, k + 1));
                assert(full =~= want);
            }
            k += 1;
        }
        proof {
            assert(self.entities@.subrange(0, n as int) =~= self.entities@);
        }
        out
    }

    /// Positions of the callback buttons among the message's buttons, in
    /// order.
    pub fn callback_positions(&self) -> (r: Vec<usize>)
        ensures
            r@.map_values(|u: usize| u as int) == spec_callback_positions(self.buttons@),
    {
        let n = self.buttons.len();
        let mut out: Vec<usize> = Vec::new();
        let mut k: usize = 0;
        while k < n
            invariant
                0 <= k <= n,
                n == self.buttons@.len(),
                out@.map_values(|u: usize| u as int) == spec_callback_positions(
                    self.buttons@.subrange(0, k as int),
                ),
            decreases n - k,
        {
            proof {
                assert(self.buttons@.subrange(0, k + 1).drop_last() =~= self.buttons@.subrange(
                    0,
                    k as int,
                ));
                assert(self.buttons@.subrange(0, k + 1).last() == self.buttons@[k as int]);
            }
            let is_callback = match &self.buttons[k] {
                KeyboardButton::Callback(_) => true,
                KeyboardButton::Other => false,
            };
            if is_callback {
                out.push(k);
            }
            proof {
                let full = out@.map_values(|u: usize| u as int);
                let want = spec_callback_positions(self.buttons@.subrange(0, k + 1));
                assert(full =~= want);
            }
            k += 1;
        }
        proof {
            assert(self.buttons@.subrange(0, n as int) =~= self.buttons@);
        }
        out
    }
}

impl MessageRecord {
    /// The content row one live message archives to.
    pub fn from_inner_msg(msg: &MessageExt, source: Source) -> (r: MessageRecord)
        ensures
            r.chat_id == msg.chat_id,
            r.msg_id == msg.msg_id,
            r.raw@ == msg.raw@,
            r.source == source.ty,
            r.source_id == source.id,
    {
        MessageRecord {
            chat_id: msg.chat_id,
            msg_id: msg.msg_id,
            raw: msg.raw.clone(),
            source: source.ty,
            source_id: source.id,
        }
    }
}

/// How the content table changes when one message is archived: nothing when
/// its key is already present, exactly one new row carrying the message's
/// key, payload and lineage otherwise.
pub open spec fn archived(
    pre: Seq<MessageRecord>,
    post: Seq<MessageRecord>,
    msg: MessageExt,
    source: Source,
) -> bool {
    if crate::store::has_message(pre, msg.chat_id, msg.msg_id) {
        post == pre
    } else {
        &&& post.len() == pre.len() + 1
        &&& post.drop_last() == pre
        &&& post.last().chat_id == msg.chat_id
        &&& post.last().msg_id == msg.msg_id
        &&& post.last().raw@ == msg.raw@
        &&& post.last().source == source.ty
        &&& post.last().source_id == source.id
    }
}

/// Archive one live message: the store gains at most one row, keyed by the
/// message's (destination, item) pair. Returns the index of the row.
pub fn archive_message(db: &mut Database, msg: &MessageExt, source: Source) -> (i: usize)
    requires
        old(db).wf(),
    ensures
        final(db).wf(),
        final(db).links@ == old(db).links@,
        final(db).chats@ == old(db).chats@,
        final(db).searches@ == old(db).searches@,
        final(db).next_link_id == old(db).next_link_id,
        final(db).next_search_id == old(db).next_search_id,
        archived(old(db).messages@, final(db).messages@, *msg, source),
        i < final(db).messages@.len(),
        final(db).messages@[i as int].chat_id == msg.chat_id,
        final(db).messages@[i as int].msg_id == msg.msg_id,
        crate::store::message_rows(final(db).messages@, msg.chat_id, msg.msg_id) == 1,
{
    let rec = MessageRecord::from_inner_msg(msg, source);
    let ghost grec = rec;
    let i = db.put_message(rec);
    proof {
        assert(final(db).messages@ == spec_put_message(old(db).messages@, grec));
        if !crate::store::has_message(old(db).messages@, msg.chat_id, msg.msg_id) {
            assert(final(db).messages@.drop_last() =~= old(db).messages@);
        }
    }
    i
}

} // verus!

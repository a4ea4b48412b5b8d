//! Standing keyword searches against a search agent: the engine handle, the
//! per-keyword scraper consumer, and the activation that pairs each keyword
//! with a watchdog.

use vstd::prelude::*;

use crate::fanout::UpdateFilter;
use crate::message::{KeyboardButton, MessageExt};
use crate::store::{has_link, Database};
use crate::text::{contains_sub, contains_word};
use crate::types::{RelatedLink, SearchRecord, Source, SourceType};
use crate::watchdog::{Watchdog, BOT_RESP_TIMEOUT_MS};

verus! {

/// A search agent the crawler talks to: its alias, identity and credential.
#[derive(Debug, Clone)]
pub struct GenericEngine {
    pub name: String,
    pub chat_id: i64,
    pub packed: String,
}

impl GenericEngine {
    /// The engine handle once its alias resolved; nothing when it did not.
    pub fn from_resolved(username: String, resolved: Option<crate::crawl::ResolvedChat>) -> (r:
        Option<GenericEngine>)
        ensures
            match resolved {
                Some(rc) => r matches Some(e) && e.name == username && e.chat_id == rc.chat_id
                    && e.packed@ == rc.packed@,
                None => r is None,
            },
    {
        match resolved {
            Some(rc) => Some(GenericEngine { name: username, chat_id: rc.chat_id, packed: rc.packed }),
            None => None,
        }
    }
}

/// A button caption that pages a search agent's results forward.
pub open spec fn is_next_page_text(t: Seq<char>) -> bool {
    contains_word(t, "下一页"@) || contains_word(t, "➡️"@)
}

/// Positions of the callback buttons that page results forward, in order.
pub open spec fn spec_next_page_positions(buttons: Seq<KeyboardButton>) -> Seq<int>
    decreases buttons.len(),
{
    if buttons.len() == 0 {
        Seq::empty()
    } else {
        spec_next_page_positions(buttons.drop_last()) + match buttons.last() {
            KeyboardButton::Callback(b) => if is_next_page_text(b.text@) {
                seq![buttons.len() - 1]
            } else {
                Seq::empty()
            },
            KeyboardButton::Other => Seq::empty(),
        }
    }
}

/// The callback buttons of a message that page results forward.
pub fn next_page_buttons(msg: &MessageExt) -> (r: Vec<usize>)
    ensures
        r@.map_values(|u: usize| u as int) == spec_next_page_positions(msg.buttons@),
{
    let n = msg.buttons.len();
    let mut out: Vec<usize> = Vec::new();
    let mut k: usize = 0;
    while k < n
        invariant
            0 <= k <= n,
            n == msg.buttons@.len(),
            out@.map_values(|u: usize| u as int) == spec_next_page_positions(
                msg.buttons@.subrange(0, k as int),
            ),
        decreases n - k,
    {
        proof {
            assert(msg.buttons@.subrange(0, k + 1).drop_last() =~= msg.buttons@.subrange(
                0,
                k as int,
            ));
            assert(msg.buttons@.subrange(0, k + 1).last() == msg.buttons@[k as int]);
        }
        let hit = match &msg.buttons[k] {
            KeyboardButton::Callback(b) => {
                contains_sub(b.text.as_str(), "下一页") || contains_sub(b.text.as_str(), "➡️")
            },
            KeyboardButton::Other => false,
        };
        if hit {
            out.push(k);
        }
        proof {
            let full = out@.map_values(|u: usize| u as int);
            let want = spec_next_page_positions(msg.buttons@.subrange(0, k + 1));
            assert(full =~= want);
        }
        k += 1;
    }
    proof {
        assert(msg.buttons@.subrange(0, n as int) =~= msg.buttons@);
    }
    out
}

/// The per-keyword consumer scraping one search agent's replies.
#[derive(Debug, Clone)]
pub struct Scraper {
    pub keyword: String,
    pub source: Source,
    pub engine_name: String,
    pub engine_chat_id: i64,
}

impl Scraper {
    pub fn new(engine: &GenericEngine, keyword: String, source: Source) -> (s: Scraper)
        ensures
            s.keyword == keyword,
            s.source == source,
            s.engine_name@ == engine.name@,
            s.engine_chat_id == engine.chat_id,
    {
        Scraper {
            keyword,
            source,
            engine_name: engine.name.clone(),
            engine_chat_id: engine.chat_id,
        }
    }

    /// The scraper's fan-out filter: incoming replies from its own agent
    /// that mention its keyword.
    pub fn filter(&self) -> (f: UpdateFilter)
        ensures
            f.incoming_only,
            f.chat_id == Some(self.engine_chat_id),
            f.word matches Some(w) && w@ == self.keyword@,
            !f.skip_bot_senders,
    {
        UpdateFilter {
            incoming_only: true,
            chat_id: Some(self.engine_chat_id),
            word: Some(self.keyword.clone()),
            skip_bot_senders: false,
        }
    }

    /// Handle one agent reply: archive it, store every link it carries as an
    /// unclassified reference, refresh the paired watchdog, and hand back
    /// the buttons that page the results forward.
    ///
    /// Reference rows only ever accumulate here: every row present before is
    /// untouched, every discovered link ends up present, and every appended
    /// row is an unclassified reference from this message's lineage.
    pub fn message_recv(
        &self,
        db: &mut Database,
        wd: &mut Watchdog,
        msg: &MessageExt,
        now: u64,
    ) -> (next_page: Vec<usize>)
        requires
            old(db).wf(),
            old(db).next_link_id + msg.entities@.len() <= i32::MAX,
        ensures
            final(db).wf(),
            final(db).chats@ == old(db).chats@,
            final(db).searches@ == old(db).searches@,
            crate::message::archived(
                old(db).messages@,
                final(db).messages@,
                *msg,
                self.source,
            ),
            old(db).links@.len() <= final(db).links@.len(),
            forall|j: int|
                0 <= j < old(db).links@.len() ==> final(db).links@[j] == #[trigger] old(
                    db,
                ).links@[j],
            forall|p: (Seq<char>, Seq<char>)|
                crate::message::spec_links(msg.text_utf16@, msg.entities@).contains(p)
                    ==> has_link(final(db).links@, p.0),
            forall|j: int|
                old(db).links@.len() <= j < final(db).links@.len() ==> {
                    &&& (#[trigger] final(db).links@[j]).source == SourceType::Message
                    &&& final(db).links@[j].source_id == msg.msg_id as i64
                    &&& !final(db).links@[j].parsed
                    &&& final(db).links@[j].packed is None
                },
            final(wd).last_update == now,
            final(wd).keyword == old(wd).keyword,
            final(wd).timeout_ms == old(wd).timeout_ms,
            next_page@.map_values(|u: usize| u as int) == spec_next_page_positions(msg.buttons@),
    {
        let src = Source::from_message(msg.msg_id);
        let _row = crate::message::archive_message(db, msg, self.source);
        let found = msg.links();
        proof {
            crate::message::lemma_spec_links_len(msg.text_utf16@, msg.entities@);
            assert(found@.len() == found@.map_values(|l: RelatedLink| (l.link@, l.desc@)).len());
        }
        let ghost base = db.links@;
        let ghost msgs_done = db.messages@;
        let n = found.len();
        let mut k: usize = 0;
        while k < n
            invariant
                0 <= k <= n,
                n == found@.len(),
                db.wf(),
                src.ty == SourceType::Message,
                src.id == msg.msg_id as i64,
                db.chats@ == old(db).chats@,
                db.searches@ == old(db).searches@,
                db.messages@ == msgs_done,
                db.next_link_id + (n - k) <= i32::MAX,
                base.len() <= db.links@.len(),
                base == old(db).links@,
                forall|j: int| 0 <= j < base.len() ==> db.links@[j] == #[trigger] base[j],
                forall|t: int| 0 <= t < k ==> has_link(db.links@, (#[trigger] found@[t]).link@),
                forall|j: int|
                    base.len() <= j < db.links@.len() ==> {
                        &&& (#[trigger] db.links@[j]).source == SourceType::Message
                        &&& db.links@[j].source_id == msg.msg_id as i64
                        &&& !db.links@[j].parsed
                        &&& db.links@[j].packed is None
                    },
            decreases n - k,
        {
            let ghost before = db.links@;
            let ghost prev_next = db.next_link_id;
            let rec = found[k].duplicate().to_model(&src);
            let ghost grec = rec;
            let _ = db.put_link(rec);
            proof {
                if !has_link(before, grec.link@) {
                    assert(db.links@ == before.push(crate::store::with_link_id(grec, prev_next)));
                    assert(db.links@[db.links@.len() - 1] == crate::store::with_link_id(
                        grec,
                        prev_next,
                    ));
                }
                assert forall|t: int| 0 <= t <= k implies has_link(
                    db.links@,
                    (#[trigger] found@[t]).link@,
                ) by {
                    if t < k {
                        assert(has_link(before, found@[t].link@));
                        let w = choose|i: int|
                            0 <= i < before.len() && (#[trigger] before[i]).link@
                                == found@[t].link@;
                        assert(db.links@[w].link@ == found@[t].link@);
                    } else {
                        if has_link(before, grec.link@) {
                            let w = choose|i: int|
                                0 <= i < before.len() && (#[trigger] before[i]).link@
                                    == grec.link@;
                            assert(db.links@[w].link@ == grec.link@);
                        } else {
                            assert(db.links@[db.links@.len() - 1].link@ == grec.link@);
                        }
                    }
                }
            }
            k += 1;
        }
        proof {
            let pairs = found@.map_values(|l: RelatedLink| (l.link@, l.desc@));
            assert forall|p: (Seq<char>, Seq<char>)|
                crate::message::spec_links(msg.text_utf16@, msg.entities@).contains(p)
                    implies has_link(db.links@, p.0) by {
                let t = choose|t: int| 0 <= t < pairs.len() && pairs[t] == p;
                assert(found@[t].link@ == p.0);
                assert(has_link(db.links@, found@[t].link@));
            }
        }
        wd.on_activity(now);
        next_page_buttons(msg)
    }
}

/// One keyword-search application: an engine and the keywords to activate.
#[derive(Debug, Clone)]
pub struct SearchLink {
    pub engine: GenericEngine,
    pub keywords: Vec<String>,
}

impl SearchLink {
    pub fn new(engine: GenericEngine, keywords: Vec<String>) -> (s: SearchLink)
        ensures
            s.engine == engine,
            s.keywords == keywords,
    {
        SearchLink { engine, keywords }
    }

    /// Activate one keyword: record the standing search, and pair a scraper
    /// with the watchdog that will keep it alive. The search row is created
    /// once per activation and immutable thereafter.
    pub fn activate_keyword(&self, db: &mut Database, k: usize, start_time: i64, now: u64) -> (r: (
        Scraper,
        Watchdog,
    ))
        requires
            old(db).wf(),
            k < self.keywords@.len(),
            old(db).next_search_id < i32::MAX,
        ensures
            final(db).wf(),
            final(db).chats@ == old(db).chats@,
            final(db).links@ == old(db).links@,
            final(db).messages@ == old(db).messages@,
            final(db).searches@.len() == old(db).searches@.len() + 1,
            final(db).searches@.last().id == old(db).next_search_id,
            final(db).searches@.last().bot@ == self.engine.name@,
            final(db).searches@.last().start_time == start_time,
            final(db).searches@.last().keyword@ == self.keywords@[k as int]@,
            forall|j: int|
                0 <= j < old(db).searches@.len() ==> final(db).searches@[j] == #[trigger] old(
                    db,
                ).searches@[j],
            ({
                let (scraper, wd) = r;
                &&& scraper.keyword@ == self.keywords@[k as int]@
                &&& scraper.source == (Source {
                    ty: SourceType::Search,
                    id: old(db).next_search_id as i64,
                })
                &&& scraper.engine_chat_id == self.engine.chat_id
                &&& wd.keyword@ == self.keywords@[k as int]@
                &&& wd.timeout_ms == BOT_RESP_TIMEOUT_MS
                &&& wd.last_update == now
            }),
    {
        let keyword = self.keywords[k].clone();
        let rec = SearchRecord {
            id: 0,
            bot: self.engine.name.clone(),
            start_time,
            keyword: keyword.clone(),
        };
        let ghost next = db.next_search_id;
        let i = db.put_search(rec);
        let row_id = db.searches[i].id;
        let source = Source { ty: SourceType::Search, id: row_id as i64 };
        let scraper = Scraper::new(&self.engine, keyword.clone(), source);
        let wd = Watchdog::new(keyword, BOT_RESP_TIMEOUT_MS, now);
        proof {
            assert(db.searches@[i as int] == db.searches@.last());
        }
        (scraper, wd)
    }
}

} // verus!

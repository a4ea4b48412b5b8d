use gray_mirror::backfill::{BackfillStep, History};
use gray_mirror::error::PrintError;
use gray_mirror::classify::LinkParse;
use gray_mirror::crawl::{AddChat, ChatMessageExt, ResolvedChat, ScanLink};
use gray_mirror::message::{CallbackButton, KeyboardButton, MessageExt, UrlEntity};
use gray_mirror::search::{next_page_buttons, GenericEngine, Scraper, SearchLink};
use gray_mirror::slots::{evict_one, Sentence, SyncChat};
use gray_mirror::store::Database;
use gray_mirror::supervisor::{ExitDirective, Supervisor};
use gray_mirror::types::{ChatRecord, ChatType, LinkRecord, Source, SourceType};
use gray_mirror::watchdog::Watchdog;

fn chat(chat_id: i64, joined: bool, last_update: i64) -> ChatRecord {
    ChatRecord {
        chat_id,
        ty: ChatType::Channel,
        usernames: vec![format!("user{}", chat_id)],
        name: format!("chat {}", chat_id),
        packed: format!("cafe{:02x}", chat_id),
        source: SourceType::Manual,
        source_id: -1,
        joined,
        last_update,
    }
}

fn link_row(text: &str) -> LinkRecord {
    LinkRecord {
        id: 0,
        link: String::from(text),
        desc: String::from("found somewhere"),
        source: SourceType::Manual,
        source_id: -1,
        parsed: false,
        packed: None,
    }
}

fn resolved(chat_id: i64) -> ResolvedChat {
    ResolvedChat {
        chat_id,
        ty: ChatType::Channel,
        usernames: vec![String::from("examplechan")],
        name: String::from("Example Channel"),
        packed: String::from("deadbeef"),
    }
}

fn plain_message(chat_id: i64, msg_id: i32, text: &str) -> MessageExt {
    MessageExt {
        chat_id,
        msg_id,
        outgoing: false,
        sender_is_bot: false,
        text_utf16: text.encode_utf16().collect(),
        entities: Vec::new(),
        buttons: Vec::new(),
        raw: format!("{{\"id\":{}}}", msg_id),
    }
}

#[test]
fn chat_message_reference_end_to_end() {
    let mut db = Database::new();
    let scan = ScanLink::new();
    db.put_link(link_row("https://t.me/examplechan/42"));

    let li = scan.select_unparsed(&db).expect("one unclassified reference");
    let parsed = LinkParse::from_model(&db.links[li]).expect("classifies");
    let cm = match parsed {
        LinkParse::ChatMessage(cm) => cm,
        other => panic!("expected a chat message, got {:?}", other),
    };
    assert_eq!(cm.username, "examplechan");
    assert_eq!(cm.msg_id, 42);

    // the alias is unknown, so the pipeline resolves it
    assert!(scan.parse_chat_msg_known(&db, &cm).is_none());
    let link_id = db.links[li].id;
    let (ci, join_id) = scan
        .parse_chat_msg_resolved(&mut db, link_id, Some(resolved(7)), cm.source)
        .expect("destination to join");
    assert_eq!(join_id, 7);
    assert_eq!(db.chats[ci].chat_id, 7);
    assert!(db.links[li].parsed);
    assert_eq!(db.links[li].packed.as_deref(), Some("deadbeef"));

    // the scan never revisits it
    assert!(scan.select_unparsed(&db).is_none());

    // join succeeded remotely; fetch the item and archive it
    db.set_chat_joined(7);
    let add = AddChat::new();
    let work = ChatMessageExt::new(7, 42, cm.source);
    let found = plain_message(7, 42, "the referenced item");
    let row = add.fetch_message(&mut db, &work, Some(&found));
    assert!(row.is_some());
    assert_eq!(db.messages.len(), 1);

    // fetching the same item again creates no second row
    let again = add.fetch_message(&mut db, &work, Some(&found));
    assert!(again.is_some());
    assert_eq!(db.messages.len(), 1);
}

#[test]
fn absent_item_leaves_no_row() {
    let mut db = Database::new();
    let add = AddChat::new();
    let work = ChatMessageExt::new(7, 42, Source::from_manual());
    let r = add.fetch_message(&mut db, &work, None);
    assert!(r.is_none());
    assert_eq!(db.messages.len(), 0);
}

#[test]
fn known_alias_reuses_credential() {
    let mut db = Database::new();
    let scan = ScanLink::new();
    db.put_chat(chat(7, true, 5));
    db.put_link(link_row("https://t.me/user7/42"));
    let parsed = LinkParse::from_model(&db.links[0]).unwrap();
    let cm = match parsed {
        LinkParse::ChatMessage(cm) => cm,
        other => panic!("unexpected {:?}", other),
    };
    let (ci, packed) = scan.parse_chat_msg_known(&db, &cm).expect("alias already collected");
    assert_eq!(db.chats[ci].chat_id, 7);
    assert_eq!(packed, "cafe07");
}

#[test]
fn dead_reference_is_marked_once_and_for_all() {
    let mut db = Database::new();
    let scan = ScanLink::new();
    db.put_link(link_row("https://t.me/ghostchan/42"));
    let link_id = db.links[0].id;
    // resolution failed: the reference dies but is still classified
    let r = scan.parse_chat_msg_resolved(&mut db, link_id, None, Source::from_manual());
    assert!(r.is_none());
    assert!(db.links[0].parsed);
    assert!(db.links[0].packed.is_none());
    assert_eq!(db.chats.len(), 0);
    assert!(scan.select_unparsed(&db).is_none());
}

#[test]
fn invite_reference_joins_and_backfills() {
    let mut db = Database::new();
    let scan = ScanLink::new();
    db.put_link(link_row("https://t.me/+AbCdEf"));
    let link_id = db.links[0].id;
    let (ci, id) = scan
        .parse_invite(&mut db, link_id, Some(resolved(9)), Source::from_manual())
        .expect("joined destination");
    assert_eq!(id, 9);
    assert!(db.chats[ci].joined);
    assert!(db.links[0].parsed);
}

#[test]
fn channel_reference_skipped_when_known() {
    let mut db = Database::new();
    let scan = ScanLink::new();
    db.put_chat(chat(7, false, 5));
    db.put_link(link_row("https://t.me/user7"));
    let parsed = LinkParse::from_model(&db.links[0]).unwrap();
    let mc = match parsed {
        LinkParse::MaybeChannel(mc) => mc,
        other => panic!("unexpected {:?}", other),
    };
    assert!(scan.channel_known(&db, &mc));
    let link_id = db.links[0].id;
    scan.mark_dead(&mut db, link_id);
    assert!(db.links[0].parsed);
}

#[test]
fn channel_reference_resolved_when_new() {
    let mut db = Database::new();
    let scan = ScanLink::new();
    db.put_link(link_row("https://t.me/examplechan"));
    let link_id = db.links[0].id;
    let (_, id) = scan
        .parse_channel_resolved(&mut db, link_id, Some(resolved(11)), Source::from_manual())
        .expect("destination to join");
    assert_eq!(id, 11);
    assert!(!db.chats[0].joined);
    assert!(db.links[0].parsed);
}

#[test]
fn backfill_stops_at_ceiling() {
    let mut h = History::new(7, 2, 100);
    assert_eq!(h.step(Some(150)), BackfillStep::Archive);
    assert_eq!(h.step(Some(140)), BackfillStep::Archive);
    assert_eq!(h.step(Some(130)), BackfillStep::StopCapped);
    assert_eq!(h.count, 2);
    assert!(!h.ended_early());
}

#[test]
fn backfill_stops_at_watermark_or_end() {
    let mut h = History::new(7, 10, 100);
    assert_eq!(h.step(Some(150)), BackfillStep::Archive);
    assert_eq!(h.step(Some(99)), BackfillStep::StopWatermark);
    assert_eq!(h.count, 1);
    assert!(h.ended_early());

    let mut h2 = History::new(7, 10, 100);
    assert_eq!(h2.step(None), BackfillStep::StopExhausted);
    assert!(h2.ended_early());
}

#[test]
fn eviction_frees_the_oldest_occupied_slot() {
    let mut db = Database::new();
    db.put_chat(chat(5, true, 100));
    db.put_chat(chat(3, true, 50));
    db.put_chat(chat(1, false, 10));
    assert_eq!(evict_one(&mut db), Some(3));
    assert!(!db.chats[1].joined);
    assert_eq!(evict_one(&mut db), Some(5));
    assert_eq!(evict_one(&mut db), None);
    assert_eq!(db.chats.len(), 3);
}

#[test]
fn rotation_picks_oldest_quit_channel() {
    let mut db = Database::new();
    db.put_chat(chat(5, false, 100));
    db.put_chat(chat(3, false, 50));
    db.put_chat(chat(1, true, 10));
    let s = Sentence::new();
    let i = s.rotation_candidate(&db).unwrap();
    assert_eq!(db.chats[i].chat_id, 3);
    assert!(s.should_join(&db.chats[i]));
    let mut user_chat = chat(9, false, 1);
    user_chat.ty = ChatType::User;
    assert!(!s.should_join(&user_chat));
}

#[test]
fn sync_task_reconciles_occupancy() {
    let mut db = Database::new();
    db.put_chat(chat(1, true, 10));
    db.put_chat(chat(2, false, 20));
    let sync = SyncChat::new();
    sync.run(&mut db, &vec![2i64]);
    assert!(!db.chats[0].joined);
    assert!(db.chats[1].joined);
}

#[test]
fn scraper_archives_and_collects_links() {
    let mut db = Database::new();
    let engine = GenericEngine {
        name: String::from("agent"),
        chat_id: 77,
        packed: String::from("beef"),
    };
    let scraper = Scraper::new(&engine, String::from("keyword"), Source::from_manual());
    let mut wd = Watchdog::new(String::from("keyword"), 60_000, 0);

    let text = "result: check this out";
    let mut msg = plain_message(77, 5, text);
    msg.entities = vec![
        UrlEntity { url: String::from("https://t.me/found/1"), offset: 8, length: 5 },
        // out of range: skipped
        UrlEntity { url: String::from("https://t.me/bogus"), offset: 1000, length: 5 },
    ];
    msg.buttons = vec![
        KeyboardButton::Other,
        KeyboardButton::Callback(CallbackButton {
            text: String::from("下一页"),
            data: vec![1, 2],
        }),
        KeyboardButton::Callback(CallbackButton { text: String::from("close"), data: vec![] }),
    ];

    let next = scraper.message_recv(&mut db, &mut wd, &msg, 1234);
    assert_eq!(db.messages.len(), 1);
    assert_eq!(db.links.len(), 1);
    assert_eq!(db.links[0].link, "https://t.me/found/1");
    assert_eq!(db.links[0].desc, "check");
    assert_eq!(db.links[0].source, SourceType::Message);
    assert_eq!(db.links[0].source_id, 5);
    assert!(!db.links[0].parsed);
    assert_eq!(wd.last_update, 1234);
    assert_eq!(next, vec![1]);
}

#[test]
fn link_extraction_decodes_utf16_spans() {
    let text = "看 园区 招聘";
    let mut msg = plain_message(1, 2, text);
    let units: Vec<u16> = text.encode_utf16().collect();
    assert_eq!(units.len(), 7);
    msg.entities = vec![UrlEntity {
        url: String::from("https://t.me/parkchan"),
        offset: 2,
        length: 2,
    }];
    let links = msg.links();
    assert_eq!(links.len(), 1);
    assert_eq!(links[0].desc, "园区");
    assert_eq!(links[0].link, "https://t.me/parkchan");
}

#[test]
fn invalid_utf16_span_is_skipped() {
    let mut msg = plain_message(1, 2, "abcd");
    // plant an unpaired surrogate in the raw units
    msg.text_utf16 = vec![0x61, 0xD800, 0x62, 0x63];
    msg.entities = vec![UrlEntity { url: String::from("https://t.me/x"), offset: 1, length: 1 }];
    assert!(msg.links().is_empty());
}

#[test]
fn callback_positions_in_order() {
    let mut msg = plain_message(1, 2, "menu");
    msg.buttons = vec![
        KeyboardButton::Callback(CallbackButton { text: String::from("a"), data: vec![] }),
        KeyboardButton::Other,
        KeyboardButton::Callback(CallbackButton { text: String::from("➡️"), data: vec![] }),
    ];
    assert_eq!(msg.callback_positions(), vec![0, 2]);
    assert_eq!(next_page_buttons(&msg), vec![2]);
}

#[test]
fn search_activation_records_the_standing_query() {
    let mut db = Database::new();
    let engine = GenericEngine {
        name: String::from("agent"),
        chat_id: 77,
        packed: String::from("beef"),
    };
    let search = SearchLink::new(engine, vec![String::from("alpha"), String::from("beta")]);
    let (scraper, wd) = search.activate_keyword(&mut db, 1, 1_700_000_000, 42);
    assert_eq!(db.searches.len(), 1);
    assert_eq!(db.searches[0].id, 0);
    assert_eq!(db.searches[0].bot, "agent");
    assert_eq!(db.searches[0].keyword, "beta");
    assert_eq!(scraper.keyword, "beta");
    assert_eq!(scraper.source.ty, SourceType::Search);
    assert_eq!(scraper.source.id, 0);
    assert_eq!(scraper.engine_chat_id, 77);
    assert_eq!(wd.keyword, "beta");
    assert_eq!(wd.last_update, 42);
}

#[test]
fn engine_resolution() {
    assert!(GenericEngine::from_resolved(String::from("agent"), None).is_none());
    let e = GenericEngine::from_resolved(String::from("agent"), Some(resolved(77))).unwrap();
    assert_eq!(e.name, "agent");
    assert_eq!(e.chat_id, 77);
    assert_eq!(e.packed, "deadbeef");
}

#[test]
fn supervisor_restarts_only_the_listener() {
    let mut sup = Supervisor::new();
    let listener = sup.add_runable(String::from("live event listener"), true);
    let crawl = sup.add_runable(String::from("reference scan"), false);
    assert!(!sup.all_done());

    assert_eq!(sup.on_task_exit(crawl), ExitDirective::Forget);
    assert_eq!(sup.restart_count, 0);
    assert!(!sup.all_done());

    assert_eq!(sup.on_task_exit(listener), ExitDirective::Restart);
    assert_eq!(sup.on_task_exit(listener), ExitDirective::Restart);
    assert_eq!(sup.restart_count, 2);
    assert!(!sup.all_done());
}

#[test]
fn outcome_helpers_keep_only_the_value() {
    let ok: Result<i32, String> = Ok(5);
    let err: Result<i32, String> = Err(String::from("boom"));
    assert_eq!(ok.ok_or_warn(), Some(5));
    assert_eq!(err.clone().ok_or_warn(), None);
    assert_eq!(err.ok_or_log(), None);
    let consumed: Result<i32, String> = Err(String::from("gone"));
    consumed.into_log();
}

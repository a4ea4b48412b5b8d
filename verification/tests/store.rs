use gray_mirror::store::Database;
use gray_mirror::types::{
    ChatRecord, ChatType, LinkRecord, MessageRecord, SearchRecord, Source, SourceType,
};

fn chat(chat_id: i64, joined: bool, last_update: i64) -> ChatRecord {
    ChatRecord {
        chat_id,
        ty: ChatType::Channel,
        usernames: vec![format!("user{}", chat_id)],
        name: format!("chat {}", chat_id),
        packed: format!("cafe{:02x}", chat_id),
        source: SourceType::Manual,
        source_id: -1,
        joined,
        last_update,
    }
}

fn msg(chat_id: i64, msg_id: i32) -> MessageRecord {
    MessageRecord {
        chat_id,
        msg_id,
        raw: String::from("{\"payload\":1}"),
        source: SourceType::Chat,
        source_id: chat_id,
    }
}

fn link(text: &str) -> LinkRecord {
    LinkRecord {
        id: 0,
        link: String::from(text),
        desc: String::from("a link"),
        source: SourceType::Manual,
        source_id: -1,
        parsed: false,
        packed: None,
    }
}

#[test]
fn archive_same_item_twice_keeps_one_row() {
    let mut db = Database::new();
    let i = db.put_message(msg(7, 42));
    assert_eq!(i, 0);
    assert_eq!(db.messages.len(), 1);
    let j = db.put_message(msg(7, 42));
    assert_eq!(j, 0);
    assert_eq!(db.messages.len(), 1);
    let k = db.put_message(msg(7, 43));
    assert_eq!(k, 1);
    assert_eq!(db.messages.len(), 2);
}

#[test]
fn rearchive_keeps_first_payload() {
    let mut db = Database::new();
    db.put_message(msg(7, 42));
    let mut second = msg(7, 42);
    second.raw = String::from("other payload");
    let i = db.put_message(second);
    assert_eq!(db.messages.len(), 1);
    assert_eq!(db.messages[i].raw, "{\"payload\":1}");
}

#[test]
fn put_chat_is_keyed_by_identity() {
    let mut db = Database::new();
    db.put_chat(chat(1, false, 10));
    db.put_chat(chat(2, false, 20));
    let i = db.put_chat(chat(1, true, 99));
    assert_eq!(db.chats.len(), 2);
    // the existing row wins: an upsert of a known identity is a no-op
    assert_eq!(db.chats[i].last_update, 10);
    assert!(!db.chats[i].joined);
}

#[test]
fn put_link_assigns_row_identities() {
    let mut db = Database::new();
    let a = db.put_link(link("https://t.me/a"));
    let b = db.put_link(link("https://t.me/b"));
    assert_eq!(db.links[a].id, 0);
    assert_eq!(db.links[b].id, 1);
    let again = db.put_link(link("https://t.me/a"));
    assert_eq!(db.links.len(), 2);
    assert_eq!(again, a);
    assert_eq!(db.next_link_id, 2);
}

#[test]
fn find_chat_by_alias() {
    let mut db = Database::new();
    db.put_chat(chat(1, false, 10));
    db.put_chat(chat(2, false, 20));
    assert_eq!(db.find_chat(Some("user2")), Some(1));
    assert_eq!(db.find_chat(Some("nobody")), None);
    assert_eq!(db.find_chat(None), None);
}

#[test]
fn oldest_chat_prefers_smallest_watermark_then_lowest_identity() {
    let mut db = Database::new();
    db.put_chat(chat(5, true, 100));
    db.put_chat(chat(3, true, 50));
    db.put_chat(chat(9, true, 50));
    db.put_chat(chat(1, false, 10));
    let i = db.find_oldest_chat(Some(true)).unwrap();
    assert_eq!(db.chats[i].chat_id, 3);
    let j = db.find_oldest_chat(None).unwrap();
    assert_eq!(db.chats[j].chat_id, 1);
    assert_eq!(db.find_oldest_chat(Some(false)).map(|k| db.chats[k].chat_id), Some(1));
}

#[test]
fn latest_chat_prefers_largest_watermark() {
    let mut db = Database::new();
    db.put_chat(chat(5, true, 100));
    db.put_chat(chat(3, true, 200));
    assert_eq!(db.find_latest_chat(Some(true)).map(|k| db.chats[k].chat_id), Some(3));
    assert_eq!(db.find_latest_chat(Some(false)), None);
}

#[test]
fn set_link_extracted_marks_exactly_one_row() {
    let mut db = Database::new();
    let a = db.put_link(link("https://t.me/a"));
    let b = db.put_link(link("https://t.me/b"));
    let id = db.links[a].id;
    let r = db.set_link_extracted(id, Some(String::from("beef")));
    assert_eq!(r, Some(a));
    assert!(db.links[a].parsed);
    assert_eq!(db.links[a].packed.as_deref(), Some("beef"));
    assert!(!db.links[b].parsed);
    assert_eq!(db.set_link_extracted(12345, None), None);
}

#[test]
fn chat_flags_and_watermark_updates() {
    let mut db = Database::new();
    db.put_chat(chat(1, false, 10));
    assert!(db.set_chat_joined(1).is_some());
    assert!(db.chats[0].joined);
    assert!(db.set_chat_quited(1).is_some());
    assert!(!db.chats[0].joined);
    assert!(db.set_chat_updated(1, 777).is_some());
    assert_eq!(db.chats[0].last_update, 777);
    assert_eq!(db.set_chat_joined(2), None);
}

#[test]
fn sync_chat_joined_follows_live_membership() {
    let mut db = Database::new();
    db.put_chat(chat(1, true, 10));
    db.put_chat(chat(2, false, 20));
    db.put_chat(chat(3, true, 30));
    let live = vec![2i64, 3];
    db.sync_chat_joined(&live);
    assert!(!db.chats[0].joined);
    assert!(db.chats[1].joined);
    assert!(db.chats[2].joined);
}

#[test]
fn put_search_assigns_identities() {
    let mut db = Database::new();
    let rec = SearchRecord {
        id: 0,
        bot: String::from("agent"),
        start_time: 1700000000,
        keyword: String::from("keyword"),
    };
    let i = db.put_search(rec.clone());
    let j = db.put_search(rec);
    assert_eq!(db.searches[i].id, 0);
    assert_eq!(db.searches[j].id, 1);
    assert_eq!(db.searches.len(), 2);
}

#[test]
fn source_constructors() {
    let s = Source::from_chat(9);
    assert_eq!(s.ty, SourceType::Chat);
    assert_eq!(s.id, 9);
    let m = Source::from_message(5);
    assert_eq!(m.ty, SourceType::Message);
    assert_eq!(m.id, 5);
    let man = Source::from_manual();
    assert_eq!(man.ty, SourceType::Manual);
    assert_eq!(man.id, -1);
}

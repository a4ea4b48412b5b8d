use gray_mirror::fanout::{EventMeta, UpdateApp, UpdateFilter, UpdateKind};
use gray_mirror::mirror::{GrayMirror, LiveMirror, PrintAll};

fn event(kind: UpdateKind, chat_id: i64, outgoing: bool, text: &str) -> EventMeta {
    EventMeta {
        kind,
        chat_id,
        outgoing,
        sender_is_bot: false,
        text: String::from(text),
    }
}

#[test]
fn filter_suppresses_outgoing() {
    let f = UpdateFilter::incoming();
    assert!(f.passes(&event(UpdateKind::NewMessage, 1, false, "hi")));
    assert!(!f.passes(&event(UpdateKind::NewMessage, 1, true, "hi")));
}

#[test]
fn filter_pins_destination_and_word() {
    let f = UpdateFilter {
        incoming_only: true,
        chat_id: Some(7),
        word: Some(String::from("keyword")),
        skip_bot_senders: false,
    };
    assert!(f.passes(&event(UpdateKind::NewMessage, 7, false, "a keyword reply")));
    assert!(!f.passes(&event(UpdateKind::NewMessage, 8, false, "a keyword reply")));
    assert!(!f.passes(&event(UpdateKind::NewMessage, 7, false, "unrelated")));
}

#[test]
fn filter_skips_bot_senders() {
    let f = GrayMirror::new().filter();
    let mut ev = event(UpdateKind::NewMessage, 1, false, "hi");
    assert!(f.passes(&ev));
    ev.sender_is_bot = true;
    assert!(!f.passes(&ev));
}

#[test]
fn route_only_message_kinds() {
    let mut app = UpdateApp::new();
    app.add_parser(UpdateFilter::incoming());
    for kind in [
        UpdateKind::MessageDeleted,
        UpdateKind::CallbackQuery,
        UpdateKind::InlineQuery,
        UpdateKind::InlineSend,
        UpdateKind::Raw,
    ] {
        assert!(app.route(&event(kind, 1, false, "x")).is_empty());
    }
    assert_eq!(app.route(&event(UpdateKind::NewMessage, 1, false, "x")), vec![0]);
    assert_eq!(app.route(&event(UpdateKind::MessageEdited, 1, false, "x")), vec![0]);
}

#[test]
fn erroring_consumer_does_not_block_the_next() {
    // consumer 0's handler always errors; consumer 1 is well behaved
    let mut app = UpdateApp::new();
    app.add_parser(UpdateFilter::incoming());
    app.add_parser(UpdateFilter::incoming());

    let events = [
        event(UpdateKind::NewMessage, 1, false, "first"),
        event(UpdateKind::NewMessage, 2, false, "second"),
    ];
    let mut delivered_to_second = Vec::new();
    let mut failures = 0;
    for ev in &events {
        for idx in app.route(ev) {
            // run the handlers: 0 errors on everything, 1 records the event
            let result: Result<(), ()> = if idx == 0 { Err(()) } else { Ok(()) };
            match result {
                Err(()) => failures += 1,
                Ok(()) => delivered_to_second.push(ev.text.clone()),
            }
        }
    }
    assert_eq!(failures, 2);
    assert_eq!(delivered_to_second, vec![String::from("first"), String::from("second")]);
}

#[test]
fn mirror_filters_agree() {
    let g = GrayMirror::new().filter();
    let l = LiveMirror::new().filter();
    let ev = event(UpdateKind::NewMessage, 5, false, "hello");
    assert_eq!(g.passes(&ev), l.passes(&ev));
    let p = PrintAll::new().filter();
    assert!(p.passes(&ev));
}

use spidermonkey::children::{relay_io_event, relay_js_message, CLOSE, CONN, RECV, SEND, TIME};
use spidermonkey::messages::{ChildMessage, IoEvent, JsRustMessage};

fn js(level: u32, text: &str) -> JsRustMessage {
    JsRustMessage { level, tag: 7, timeout: 30, message: text.to_string() }
}

fn callback_of(event: IoEvent) -> (u32, u32, String) {
    let relay = relay_io_event(event).expect("relayed");
    assert!(!relay.stop);
    match relay.forward {
        Some(ChildMessage::IoCb { level, tag, timeout, p, buf }) => {
            assert_eq!(timeout, 0);
            assert_eq!(p, 0);
            (level, tag, buf)
        }
        other => panic!("unexpected {:?}", other),
    }
}

#[test]
fn script_exit_level_stops_the_relay() {
    let r = relay_js_message(js(9, "bye"));
    assert!(r.stop);
    assert!(matches!(r.forward, Some(ChildMessage::ExitProc)));
}

#[test]
fn other_script_messages_are_forwarded_unchanged() {
    for level in [0u32, 1, 4, 6, 8, 10] {
        let r = relay_js_message(js(level, "payload"));
        assert!(!r.stop);
        match r.forward {
            Some(ChildMessage::GotMsg(m)) => {
                assert_eq!(m.level, level);
                assert_eq!(m.tag, 7);
                assert_eq!(m.timeout, 30);
                assert_eq!(m.message, "payload");
            }
            other => panic!("unexpected {:?}", other),
        }
    }
}

#[test]
fn io_events_become_callbacks() {
    assert_eq!(callback_of(IoEvent::Connected { req_id: 3 }), (CONN, 3, "onconnect".to_string()));
    assert_eq!(callback_of(IoEvent::Wrote { req_id: 4 }), (SEND, 4, "onsend".to_string()));
    assert_eq!(callback_of(IoEvent::Timer { req_id: 5 }), (TIME, 5, "ontimer".to_string()));
}

#[test]
fn read_of_minus_one_is_a_close() {
    let ev = IoEvent::Read { req_id: 6, len: -1, data: vec![] };
    assert_eq!(callback_of(ev), (CLOSE, 6, "onclose".to_string()));
}

#[test]
fn read_data_is_passed_as_text() {
    let ev = IoEvent::Read { req_id: 8, len: 5, data: b"h\xc3\xa9llo".to_vec() };
    assert_eq!(callback_of(ev), (RECV, 8, "h\u{e9}llo".to_string()));
}

#[test]
fn read_data_that_is_not_utf8_is_refused() {
    let ev = IoEvent::Read { req_id: 8, len: 2, data: vec![0xff, 0xfe] };
    assert!(relay_io_event(ev).is_none());
}

#[test]
fn whatever_forwards_nothing_and_exit_stops() {
    let r = relay_io_event(IoEvent::Whatever).unwrap();
    assert!(r.forward.is_none());
    assert!(!r.stop);
    let r = relay_io_event(IoEvent::Exit).unwrap();
    assert!(r.stop);
    assert!(matches!(r.forward, Some(ChildMessage::Done)));
}

#[test]
fn script_relay_forwards_in_order_until_exit() {
    let mut forwarded = Vec::new();
    for level in [4u32, 6, 9, 4] {
        let r = relay_js_message(js(level, "m"));
        forwarded.push(match r.forward {
            Some(ChildMessage::GotMsg(m)) => format!("got {}", m.level),
            Some(ChildMessage::ExitProc) => "exitproc".to_string(),
            other => panic!("unexpected {:?}", other),
        });
        if r.stop {
            break;
        }
    }
    assert_eq!(forwarded, vec!["got 4", "got 6", "exitproc"]);
}

use spidermonkey::actor::{prelude_loaded, script_loaded, Actor, ActorAction, ActorError};
use spidermonkey::messages::{ChildMessage, JsRustMessage};

fn got(level: u32, tag: u32, timeout: u32, text: &str) -> ChildMessage {
    ChildMessage::GotMsg(JsRustMessage { level, tag, timeout, message: text.to_string() })
}

fn source_text(a: &ActorAction) -> (String, String) {
    match a {
        ActorAction::Evaluate { source, filename } => {
            (String::from_utf8(source.clone()).unwrap(), filename.clone())
        }
        other => panic!("unexpected {:?}", other),
    }
}

#[test]
fn first_set_msg_loads_prelude_then_script() {
    let mut a = Actor::new(3, "main.js".to_string());
    let acts = a.handle(ChildMessage::SetMsg).unwrap();
    assert_eq!(acts.len(), 4);
    assert!(matches!(acts[0], ActorAction::SetMsgChannel));
    assert!(matches!(&acts[1], ActorAction::LoadPrelude(p) if p == "xmlhttprequest.js"));
    assert!(matches!(&acts[2], ActorAction::LoadPrelude(p) if p == "dom.js"));
    assert!(matches!(&acts[3], ActorAction::SendSelf(ChildMessage::LoadScript(u)) if u == "main.js"));
    // a second set_msg does not load the prelude again
    let acts = a.handle(ChildMessage::SetMsg).unwrap();
    assert_eq!(acts.len(), 1);
}

#[test]
fn http_urls_are_loaded_as_pages() {
    let mut a = Actor::new(1, "http://example.org/".to_string());
    let acts = a.handle(ChildMessage::SetMsg).unwrap();
    assert!(matches!(&acts[3], ActorAction::SendSelf(ChildMessage::LoadUrl(u)) if u == "http://example.org/"));
}

#[test]
fn a_bare_http_is_a_script() {
    let mut a = Actor::new(1, "http".to_string());
    let acts = a.handle(ChildMessage::SetMsg).unwrap();
    assert!(matches!(&acts[3], ActorAction::SendSelf(ChildMessage::LoadScript(u)) if u == "http"));
}

#[test]
fn a_url_not_cuttable_after_four_bytes_fails() {
    let mut a = Actor::new(1, "abc\u{e9}x".to_string());
    let acts = a.handle(ChildMessage::SetMsg).unwrap();
    assert_eq!(acts.len(), 4);
    assert!(matches!(&acts[2], ActorAction::LoadPrelude(p) if p == "dom.js"));
    assert!(matches!(acts[3], ActorAction::Fail(ActorError::UrlNotCuttable)));
}

#[test]
fn load_url_sets_data_and_resumes() {
    let mut a = Actor::new(1, "x.js".to_string());
    let acts = a.handle(ChildMessage::LoadUrl("http://p".to_string())).unwrap();
    assert_eq!(acts.len(), 2);
    assert!(matches!(&acts[0], ActorAction::SetDataProperty(d) if d == "http://p"));
    assert_eq!(
        source_text(&acts[1]),
        (
            "try { _resume(5, _data, 0) } catch (e) { print(e + '\\n' + e.stack) } _data = undefined;"
                .to_string(),
            "io".to_string()
        )
    );
}

#[test]
fn io_callback_resumes_with_level_and_tag() {
    let mut a = Actor::new(1, "x.js".to_string());
    let msg = ChildMessage::IoCb { level: 2, tag: 17, timeout: 0, p: 0, buf: "data".to_string() };
    let acts = a.handle(msg).unwrap();
    assert_eq!(acts.len(), 4);
    assert!(matches!(acts[0], ActorAction::BeginRequest));
    assert!(matches!(&acts[1], ActorAction::SetDataProperty(d) if d == "data"));
    assert_eq!(
        source_text(&acts[2]).0,
        "try { _resume(2, _data, 17); } catch (e) { print(e + '\\n' + e.stack); }; _data = undefined;"
    );
    assert!(matches!(acts[3], ActorAction::EndRequest));
}

#[test]
fn script_requests_by_level() {
    let mut a = Actor::new(3, "x.js".to_string());
    let acts = a.handle(got(0, 9, 0, "example.org:80")).unwrap();
    assert!(matches!(&acts[0], ActorAction::Connect { tag: 9, address } if address == "example.org:80"));
    let acts = a.handle(got(1, 9, 0, "GET /")).unwrap();
    assert!(matches!(&acts[0], ActorAction::Write { tag: 9, data } if data == b"GET /"));
    let acts = a.handle(got(2, 9, 0, "")).unwrap();
    assert!(matches!(acts[0], ActorAction::ReadStart { tag: 9 }));
    let acts = a.handle(got(3, 9, 0, "")).unwrap();
    assert!(matches!(acts[0], ActorAction::CloseConnection { tag: 9 }));
    let acts = a.handle(got(4, 0, 0, "hello")).unwrap();
    assert!(matches!(&acts[0], ActorAction::SendOut(ChildMessage::Stdout(s)) if s == "[Actor 3] hello"));
    let acts = a.handle(got(5, 0, 0, "bad")).unwrap();
    assert!(matches!(&acts[0], ActorAction::SendOut(ChildMessage::Stderr(s)) if s == "[ERROR 3] bad"));
    assert!(a.handle(got(7, 0, 0, "")).unwrap().is_empty());
    let acts = a.handle(got(8, 4, 250, "")).unwrap();
    assert!(matches!(acts[0], ActorAction::TimerStart { timeout: 250, tag: 4 }));
    assert!(a.handle(got(9, 0, 0, "")).unwrap().is_empty());
    let acts = a.handle(got(12, 0, 0, "")).unwrap();
    assert!(matches!(&acts[0], ActorAction::LogError(s) if s == "..."));
}

#[test]
fn spawned_children_get_consecutive_names() {
    let mut a = Actor::new(-2, "x.js".to_string());
    let mut names = Vec::new();
    for _ in 0..3 {
        let acts = a.handle(got(6, 0, 0, "child.js")).unwrap();
        match &acts[0] {
            ActorAction::SendOut(ChildMessage::Spawn(name, src)) => {
                assert_eq!(src, "child.js");
                names.push(name.clone());
            }
            other => panic!("unexpected {:?}", other),
        }
    }
    assert_eq!(names, vec!["-2:0", "-2:1", "-2:2"]);
}

#[test]
fn exitproc_stops_io_and_done_finishes() {
    let mut a = Actor::new(1, "x.js".to_string());
    let acts = a.handle(ChildMessage::ExitProc).unwrap();
    assert!(matches!(acts[0], ActorAction::StopIo));
    assert!(!a.is_done());
    let acts = a.handle(ChildMessage::Done).unwrap();
    assert!(matches!(acts[0], ActorAction::SendOut(ChildMessage::Done)));
    assert!(a.is_done());
}

#[test]
fn supervisor_messages_are_refused() {
    let mut a = Actor::new(1, "x.js".to_string());
    assert!(matches!(a.handle(ChildMessage::Stdout("x".to_string())), Err(ActorError::UnexpectedMessage)));
    assert!(matches!(
        a.handle(ChildMessage::Spawn("a".to_string(), "b".to_string())),
        Err(ActorError::UnexpectedMessage)
    ));
}

#[test]
fn script_file_is_wrapped_and_followed_by_the_idle_check() {
    let acts = script_loaded("s.js".to_string(), Some(b"print(1)".to_vec())).unwrap();
    assert_eq!(acts.len(), 2);
    assert_eq!(
        source_text(&acts[0]),
        (
            "try { print(1) } catch (e) { print(e + '\\n' + e.stack); }".to_string(),
            "s.js".to_string()
        )
    );
    assert_eq!(
        source_text(&acts[1]),
        (
            "if (XMLHttpRequest.requests_outstanding === 0)  jsrust_exit();".to_string(),
            "io".to_string()
        )
    );
}

#[test]
fn missing_script_file_is_logged_and_ends_the_process() {
    let acts = script_loaded("gone.js".to_string(), None).unwrap();
    assert_eq!(acts.len(), 2);
    assert!(matches!(&acts[0], ActorAction::LogError(s) if s == "File not found: gone.js"));
    assert!(matches!(acts[1], ActorAction::ExitNow(0)));
}

#[test]
fn script_file_that_is_not_utf8_fails() {
    assert!(matches!(
        script_loaded("s.js".to_string(), Some(vec![0xc3])),
        Err(ActorError::InvalidUtf8)
    ));
}

#[test]
fn prelude_runs_raw_bytes_or_fails_when_missing() {
    let a = prelude_loaded("dom.js".to_string(), Some(vec![0xff, 0x41])).unwrap();
    assert!(matches!(&a, ActorAction::Evaluate { source, filename } if source == &vec![0xff, 0x41] && filename == "dom.js"));
    assert!(matches!(prelude_loaded("dom.js".to_string(), None), Err(ActorError::MissingPrelude)));
}

#[test]
fn script_file_bytes_reach_the_engine_unchanged() {
    let file = "print('caf\u{e9} \u{1f600}')".as_bytes().to_vec();
    let acts = script_loaded("u.js".to_string(), Some(file.clone())).unwrap();
    match &acts[0] {
        ActorAction::Evaluate { source, .. } => {
            let mut expected = b"try { ".to_vec();
            expected.extend_from_slice(&file);
            expected.extend_from_slice(b" } catch (e) { print(e + '\\n' + e.stack); }");
            assert_eq!(source, &expected);
        }
        other => panic!("unexpected {:?}", other),
    }
}

#[test]
fn loop_ends_on_done_sending_done_once_and_last() {
    let mut a = Actor::new(4, "x.js".to_string());
    let inbox = vec![got(4, 0, 0, "one"), ChildMessage::ExitProc, ChildMessage::Done, got(4, 0, 0, "two")];
    let mut taken = 0;
    let mut out = Vec::new();
    for msg in inbox {
        if a.is_done() {
            break;
        }
        taken += 1;
        for act in a.handle(msg).unwrap() {
            if let ActorAction::SendOut(m) = act {
                out.push(m);
            }
        }
    }
    assert_eq!(taken, 3);
    assert_eq!(out.len(), 2);
    assert!(matches!(&out[0], ChildMessage::Stdout(s) if s == "[Actor 4] one"));
    assert!(matches!(out[1], ChildMessage::Done));
}

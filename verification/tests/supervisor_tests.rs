use spidermonkey::actor::{Actor, ActorAction};
use spidermonkey::messages::{ChildMessage, JsRustMessage};
use spidermonkey::supervisor::{Supervisor, SupervisorAction, ACTOR_MAX_BYTES};

fn args(list: &[&str]) -> Vec<String> {
    list.iter().map(|s| s.to_string()).collect()
}

#[test]
fn no_script_named_runs_test_js() {
    let (sup, launches) = Supervisor::start(&args(&["prog"]));
    assert_eq!(launches.len(), 1);
    assert_eq!(launches[0].id, 1);
    assert_eq!(launches[0].url, "test.js");
    assert!(sup.awaiting_registration());
}

#[test]
fn one_actor_per_named_script_with_ids_from_one() {
    let (_, launches) = Supervisor::start(&args(&["prog", "a.js", "http://b", "c.js"]));
    let got: Vec<(i64, String)> = launches.into_iter().map(|l| (l.id, l.url)).collect();
    assert_eq!(
        got,
        vec![(1, "a.js".to_string()), (2, "http://b".to_string()), (3, "c.js".to_string())]
    );
}

#[test]
fn registration_waits_for_every_actor() {
    let (mut sup, _) = Supervisor::start(&args(&["prog", "a.js", "b.js"]));
    sup.register(2);
    assert!(sup.awaiting_registration());
    sup.register(1);
    assert!(!sup.awaiting_registration());
}

#[test]
fn broadcast_goes_to_registered_ids_in_order() {
    let (mut sup, _) = Supervisor::start(&args(&["prog", "a", "b", "c"]));
    sup.register(3);
    sup.register(1);
    sup.register(2);
    // three actors counted: two exitprocs bring the count to one, the third to zero
    assert!(matches!(sup.handle(ChildMessage::ExitProc), Ok(SupervisorAction::Nothing)));
    assert!(matches!(sup.handle(ChildMessage::ExitProc), Ok(SupervisorAction::Nothing)));
    match sup.handle(ChildMessage::ExitProc) {
        Ok(SupervisorAction::Broadcast(ids)) => assert_eq!(ids, vec![1, 2, 3]),
        other => panic!("unexpected {:?}", other),
    }
    // the count is back at three
    assert!(matches!(sup.handle(ChildMessage::Done), Ok(SupervisorAction::Nothing)));
    assert!(matches!(sup.handle(ChildMessage::Done), Ok(SupervisorAction::Nothing)));
    assert!(matches!(sup.handle(ChildMessage::Done), Ok(SupervisorAction::Finish)));
}

#[test]
fn a_repeated_registration_counts_once() {
    let (mut sup, _) = Supervisor::start(&args(&["prog", "a", "b"]));
    sup.register(1);
    sup.register(1);
    assert!(matches!(sup.handle(ChildMessage::ExitProc), Ok(SupervisorAction::Nothing)));
    match sup.handle(ChildMessage::ExitProc) {
        Ok(SupervisorAction::Broadcast(ids)) => assert_eq!(ids, vec![1]),
        other => panic!("unexpected {:?}", other),
    }
}

#[test]
fn printing_spawning_and_finishing() {
    let (mut sup, _) = Supervisor::start(&args(&["prog", "a.js"]));
    sup.register(1);
    match sup.handle(ChildMessage::Stdout("[Actor 1] hi".to_string())) {
        Ok(SupervisorAction::Print(s)) => assert_eq!(s, "[Actor 1] hi"),
        other => panic!("unexpected {:?}", other),
    }
    match sup.handle(ChildMessage::Stderr("[ERROR 1] oops".to_string())) {
        Ok(SupervisorAction::Print(s)) => assert_eq!(s, "[ERROR 1] oops"),
        other => panic!("unexpected {:?}", other),
    }
    match sup.handle(ChildMessage::Spawn("1:0".to_string(), "child.js".to_string())) {
        Ok(SupervisorAction::Launch { name, id, url }) => {
            assert_eq!(name, "1:0");
            assert_eq!(id, 2);
            assert_eq!(url, "child.js");
        }
        other => panic!("unexpected {:?}", other),
    }
    assert!(matches!(
        sup.handle(ChildMessage::Cast("x".to_string(), "y".to_string())),
        Ok(SupervisorAction::Nothing)
    ));
    assert!(matches!(sup.handle(ChildMessage::Done), Ok(SupervisorAction::Nothing)));
    assert!(matches!(sup.handle(ChildMessage::Done), Ok(SupervisorAction::Finish)));
}

#[test]
fn actor_only_messages_are_refused() {
    let (mut sup, _) = Supervisor::start(&args(&["prog", "a.js"]));
    assert!(sup.handle(ChildMessage::SetMsg).is_err());
    assert!(sup.handle(ChildMessage::LoadUrl("http://x".to_string())).is_err());
    // a refused message changes nothing: one done still finishes
    assert!(matches!(sup.handle(ChildMessage::Done), Ok(SupervisorAction::Finish)));
}

#[test]
fn heap_limit_is_thirty_two_megabytes() {
    assert_eq!(ACTOR_MAX_BYTES, 33554432);
}

#[test]
fn a_spawn_request_launches_one_actor() {
    let (mut sup, _) = Supervisor::start(&args(&["prog", "a.js"]));
    sup.register(1);
    let mut actor = Actor::new(1, "a.js".to_string());
    let msg = ChildMessage::GotMsg(JsRustMessage { level: 6, tag: 0, timeout: 0, message: "kid.js".to_string() });
    let mut acts = actor.handle(msg).unwrap();
    let out = match acts.remove(0) {
        ActorAction::SendOut(m) => m,
        other => panic!("unexpected {:?}", other),
    };
    match sup.handle(out) {
        Ok(SupervisorAction::Launch { name, id, url }) => {
            assert_eq!((name.as_str(), id, url.as_str()), ("1:0", 2, "kid.js"));
        }
        other => panic!("unexpected {:?}", other),
    }
}

use spidermonkey::boot::{global_class, Boot, ACTOR_VERSION};
use spidermonkey::engine::{ClassStubs, EngineCall, EngineReply, JsError, Runtime};
use spidermonkey::options::{METHODJIT, VAROBJFIX};

fn class() -> spidermonkey::engine::Class {
    global_class(0x300, &ClassStubs { property: 1, strict_property: 2, enumerate: 3, resolve: 4, convert: 5, finalize: 6 })
}

#[test]
fn boot_makes_the_calls_in_order() {
    let (mut boot, first) = Boot::start(&Runtime { ptr: 10 }, 4096, class());
    assert!(matches!(first, EngineCall::NewContext { rt: 10, stack_chunk_size: 4096 }));
    let c = boot.advance(EngineReply::Pointer(20)).unwrap().unwrap();
    assert!(matches!(c, EngineCall::SetOptions { cx: 20, options } if options == VAROBJFIX | METHODJIT));
    let c = boot.advance(EngineReply::Word(0)).unwrap().unwrap();
    assert!(matches!(c, EngineCall::SetVersion { cx: 20, version: 185 }));
    assert_eq!(ACTOR_VERSION, 185);
    let c = boot.advance(EngineReply::Word(0)).unwrap().unwrap();
    match c {
        EngineCall::NewCompartmentAndGlobalObject { cx: 20, class, principals: 0 } => {
            assert_eq!(class.name, "global");
            assert_eq!(class.jsclass.flags, 0x300);
        }
        other => panic!("unexpected {:?}", other),
    }
    let c = boot.advance(EngineReply::Pointer(30)).unwrap().unwrap();
    assert!(matches!(c, EngineCall::InitStandardClasses { cx: 20, object: 30 }));
    let c = boot.advance(EngineReply::Flag(true)).unwrap().unwrap();
    assert!(matches!(c, EngineCall::InitRustLibrary { cx: 20, object: 30 }));
    assert!(!boot.is_ready());
    assert!(boot.advance(EngineReply::Flag(true)).unwrap().is_none());
    assert!(boot.is_ready());
    assert_eq!(boot.context().ptr, 20);
    assert_eq!(boot.global().ptr, 30);
}

#[test]
fn null_global_object_fails() {
    let (mut boot, _) = Boot::start(&Runtime { ptr: 10 }, 4096, class());
    boot.advance(EngineReply::Pointer(20)).unwrap();
    boot.advance(EngineReply::Word(0)).unwrap();
    boot.advance(EngineReply::Word(0)).unwrap();
    assert!(matches!(boot.advance(EngineReply::Pointer(0)), Err(JsError::NoGlobalObject)));
}

#[test]
fn failed_initialisations_fail() {
    let (mut boot, _) = Boot::start(&Runtime { ptr: 10 }, 4096, class());
    boot.advance(EngineReply::Pointer(20)).unwrap();
    boot.advance(EngineReply::Word(0)).unwrap();
    boot.advance(EngineReply::Word(0)).unwrap();
    boot.advance(EngineReply::Pointer(30)).unwrap();
    assert!(matches!(boot.advance(EngineReply::Flag(false)), Err(JsError::StandardClassesFailed)));
    let (mut boot, _) = Boot::start(&Runtime { ptr: 10 }, 4096, class());
    boot.advance(EngineReply::Pointer(20)).unwrap();
    boot.advance(EngineReply::Word(0)).unwrap();
    boot.advance(EngineReply::Word(0)).unwrap();
    boot.advance(EngineReply::Pointer(30)).unwrap();
    boot.advance(EngineReply::Flag(true)).unwrap();
    assert!(matches!(boot.advance(EngineReply::Flag(false)), Err(JsError::RustLibraryFailed)));
}

#[test]
fn a_reply_of_the_wrong_kind_is_refused() {
    let (mut boot, _) = Boot::start(&Runtime { ptr: 10 }, 4096, class());
    assert!(matches!(boot.advance(EngineReply::Flag(true)), Err(JsError::MismatchedReply)));
    // the boot still waits for the context
    assert!(matches!(boot.advance(EngineReply::Pointer(20)), Ok(Some(EngineCall::SetOptions { cx: 20, .. }))));
}

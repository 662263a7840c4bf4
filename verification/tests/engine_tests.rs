use spidermonkey::engine::{
    begin_request, destroy_context, end_request, finish_runtime,
    compile_script, compiled_script, encoded_string, execute_script, get_options,
    get_string, get_string_bytes, global_object, init_rust_library, init_standard_classes,
    new_class, new_compartment_and_global_object, new_context, new_runtime, null_principals,
    require_success, script_result, set_error_channel, set_log_channel, set_options, set_version,
    shut_down, string_byte_count, value_to_source, ClassSpec, ClassStubs, Context, EngineCall,
    JsError, JsString, Object, Runtime, Script, RESERVED_SLOTS,
};

fn stubs() -> ClassStubs {
    ClassStubs { property: 11, strict_property: 12, enumerate: 13, resolve: 14, convert: 15, finalize: 16 }
}

#[test]
fn class_gets_stubs_and_null_optional_members() {
    let c = new_class(ClassSpec { name: "global".to_string(), flags: 0x40 }, &stubs());
    assert_eq!(c.name, "global");
    let j = &c.jsclass;
    assert_eq!(j.flags, 0x40);
    assert_eq!((j.add_property, j.del_property, j.get_property), (11, 11, 11));
    assert_eq!(j.set_property, 12);
    assert_eq!((j.enumerate, j.resolve, j.convert, j.finalize), (13, 14, 15, 16));
    assert_eq!(
        [j.reserved0, j.check_access, j.call, j.construct, j.xdr_object, j.has_instance, j.trace, j.reserved1],
        [0; 8]
    );
    assert_eq!(j.reserved, vec![0u64; RESERVED_SLOTS]);
}

#[test]
fn calls_carry_their_handles() {
    let rt = Runtime { ptr: 1 };
    let cx = Context { ptr: 2 };
    let obj = Object { ptr: 3 };
    assert!(matches!(new_runtime(1024), EngineCall::Init { maxbytes: 1024 }));
    assert!(matches!(shut_down(), EngineCall::ShutDown));
    assert!(matches!(new_context(&rt, 8192), EngineCall::NewContext { rt: 1, stack_chunk_size: 8192 }));
    assert!(matches!(get_options(&cx), EngineCall::GetOptions { cx: 2 }));
    assert!(matches!(set_options(&cx, 5), EngineCall::SetOptions { cx: 2, options: 5 }));
    assert!(matches!(set_version(&cx, 185), EngineCall::SetVersion { cx: 2, version: 185 }));
    assert!(matches!(init_standard_classes(&cx, &obj), EngineCall::InitStandardClasses { cx: 2, object: 3 }));
    assert!(matches!(execute_script(&cx, &obj, &Script { ptr: 4 }), EngineCall::ExecuteScript { cx: 2, object: 3, script: 4 }));
    assert!(matches!(value_to_source(&cx, 99), EngineCall::ValueToSource { cx: 2, value: 99 }));
    assert!(matches!(get_string_bytes(&cx, &JsString { ptr: 5 }), EngineCall::GetStringChars { cx: 2, string: 5 }));
    assert!(matches!(set_error_channel(&cx), EngineCall::SetErrorChannel { cx: 2 }));
    assert!(matches!(set_log_channel(&cx, &obj), EngineCall::SetLogChannel { cx: 2, object: 3 }));
    assert!(matches!(init_rust_library(&cx, &obj), EngineCall::InitRustLibrary { cx: 2, object: 3 }));
    assert!(matches!(begin_request(&cx), EngineCall::BeginRequest { cx: 2 }));
    assert!(matches!(end_request(&cx), EngineCall::EndRequest { cx: 2 }));
    assert!(matches!(destroy_context(Context { ptr: 2 }), EngineCall::DestroyContext { cx: 2 }));
    assert!(matches!(finish_runtime(Runtime { ptr: 1 }), EngineCall::Finish { rt: 1 }));
    let class = new_class(ClassSpec { name: "g".to_string(), flags: 0 }, &stubs());
    match new_compartment_and_global_object(&cx, class, &null_principals()) {
        EngineCall::NewCompartmentAndGlobalObject { cx: 2, class, principals: 0 } => assert_eq!(class.name, "g"),
        other => panic!("unexpected {:?}", other),
    }
}

#[test]
fn null_principals_is_null() {
    assert_eq!(null_principals().ptr, 0);
}

#[test]
fn compile_passes_source_name_and_truncated_line() {
    let cx = Context { ptr: 2 };
    let obj = Object { ptr: 3 };
    let lineno: usize = ((1u64 << 32) | 5) as usize;
    match compile_script(&cx, &obj, b"1+1".to_vec(), "io", lineno) {
        EngineCall::CompileScript { cx: 2, object: 3, source, filename, lineno } => {
            assert_eq!(source, b"1+1");
            assert_eq!(filename, "io");
            assert_eq!(lineno, 5);
        }
        other => panic!("unexpected {:?}", other),
    }
}

#[test]
fn null_replies_are_failures() {
    assert!(matches!(global_object(0), Err(JsError::NoGlobalObject)));
    assert_eq!(global_object(77).unwrap().ptr, 77);
    assert!(matches!(compiled_script(0), Err(JsError::CompileFailed)));
    assert_eq!(compiled_script(78).unwrap().ptr, 78);
    assert!(require_success(true, JsError::ErrorChannelFailed).is_ok());
    assert!(matches!(require_success(false, JsError::LogChannelFailed), Err(JsError::LogChannelFailed)));
}

#[test]
fn failed_runs_have_no_value() {
    assert_eq!(script_result(true, 42), Some(42));
    assert_eq!(script_result(false, 42), None);
}

#[test]
fn string_bytes_include_the_terminator() {
    assert_eq!(string_byte_count(0).unwrap(), 2);
    assert_eq!(string_byte_count(3).unwrap(), 8);
    assert!(matches!(string_byte_count(usize::MAX), Err(JsError::StringTooLong)));
    assert!(matches!(string_byte_count(usize::MAX / 2), Err(JsError::StringTooLong)));
    assert_eq!(string_byte_count(usize::MAX / 2 - 1).unwrap(), usize::MAX - 1);
}

#[test]
fn string_conversion_sizes_then_encodes() {
    let cx = Context { ptr: 2 };
    let chars = vec![b'h', 0, b'i', 0, 0, 0];
    let (conv, sizing) = get_string(&cx, chars.clone());
    match sizing {
        EngineCall::EncodeCharacters { cx: 2, chars: c, length: 3, dst: None, dstlen: 0 } => assert_eq!(c, chars),
        other => panic!("unexpected {:?}", other),
    }
    assert!(matches!(conv.encode(false, 3), Err(JsError::EncodeFailed)));
    let (conv, _) = get_string(&cx, chars.clone());
    assert!(matches!(conv.encode(true, usize::MAX), Err(JsError::StringTooLong)));
    let (conv, _) = get_string(&cx, chars.clone());
    match conv.encode(true, 3) {
        Ok(EngineCall::EncodeCharacters { cx: 2, chars: c, length: 3, dst: Some(buf), dstlen: 3 }) => {
            assert_eq!(c, chars);
            assert_eq!(buf, vec![0u8; 4]);
        }
        other => panic!("unexpected {:?}", other),
    }
    assert_eq!(encoded_string(true, b"hi\0\0".to_vec()).unwrap(), b"hi\0\0".to_vec());
    assert!(matches!(encoded_string(false, b"hi\0".to_vec()), Err(JsError::EncodeFailed)));
    // Latin-1 deflation of a non-ASCII character: not UTF-8, handed back as is
    assert_eq!(encoded_string(true, vec![0xe9, 0, 0]).unwrap(), vec![0xe9, 0, 0]);
}

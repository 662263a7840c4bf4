//! The SpiderMonkey engine API as the actors use it. The engine lives outside
//! this library: each binding here states the call to make, as a plain value,
//! and the checks that turn the engine's replies into handles or failures.
//! The program that runs the library performs the calls and hands back the
//! replies.
use vstd::prelude::*;

verus! {

/// A runtime handle (`JSRuntime*`).
#[derive(Debug)]
pub struct Runtime {
    pub ptr: u64,
}

/// A context handle (`JSContext*`).
#[derive(Debug)]
pub struct Context {
    pub ptr: u64,
}

/// An object handle (`JSObject*`).
#[derive(Debug)]
pub struct Object {
    pub ptr: u64,
}

/// A principals handle (`JSPrincipals*`); 0 is the null principals.
#[derive(Debug)]
pub struct Principals {
    pub ptr: u64,
}

/// A compiled script handle (`JSScript*`).
#[derive(Debug)]
pub struct Script {
    pub ptr: u64,
}

/// An engine string handle (`JSString*`).
#[derive(Debug)]
pub struct JsString {
    pub ptr: u64,
}

/// The number of reserved slots at the end of a class record.
pub const RESERVED_SLOTS: usize = 40;

/// What a new class is made from.
#[derive(Debug)]
pub struct ClassSpec {
    pub name: String,
    pub flags: u32,
}

/// The engine's stub operations (function addresses) that a new class gets.
#[derive(Debug)]
pub struct ClassStubs {
    pub property: u64,
    pub strict_property: u64,
    pub enumerate: u64,
    pub resolve: u64,
    pub convert: u64,
    pub finalize: u64,
}

/// The class record (`JSClass`) handed to the engine, its name aside: the
/// mandatory operations and the optional ones, 0 where absent.
#[derive(Debug)]
pub struct JsClass {
    pub flags: u32,
    pub add_property: u64,
    pub del_property: u64,
    pub get_property: u64,
    pub set_property: u64,
    pub enumerate: u64,
    pub resolve: u64,
    pub convert: u64,
    pub finalize: u64,
    pub reserved0: u64,
    pub check_access: u64,
    pub call: u64,
    pub construct: u64,
    pub xdr_object: u64,
    pub has_instance: u64,
    pub trace: u64,
    pub reserved1: u64,
    pub reserved: Vec<u64>,
}

/// A class: its name, which the record's name points into, and its record.
#[derive(Debug)]
pub struct Class {
    pub name: String,
    pub jsclass: JsClass,
}

/// A call on the engine, with its arguments as plain values.
#[derive(Debug)]
pub enum EngineCall {
    /// `JS_Init(maxbytes)`: a new runtime.
    Init { maxbytes: u32 },
    /// `JS_ShutDown()`.
    ShutDown,
    /// `JSRust_NewContext(rt, stack_chunk_size)`: a new context.
    NewContext { rt: u64, stack_chunk_size: usize },
    /// `JS_GetOptions(cx)`.
    GetOptions { cx: u64 },
    /// `JS_SetOptions(cx, options)`.
    SetOptions { cx: u64, options: u32 },
    /// `JS_SetVersion(cx, version)`.
    SetVersion { cx: u64, version: usize },
    /// `JS_NewCompartmentAndGlobalObject(cx, &class.jsclass, principals)`.
    NewCompartmentAndGlobalObject { cx: u64, class: Class, principals: u64 },
    /// `JS_InitStandardClasses(cx, object)`.
    InitStandardClasses { cx: u64, object: u64 },
    /// `JS_CompileScript(cx, object, source, source.len(), filename, lineno)`.
    CompileScript { cx: u64, object: u64, source: Vec<u8>, filename: String, lineno: u32 },
    /// `JS_ExecuteScript(cx, object, script, &rval)` with `rval` 0 at first.
    ExecuteScript { cx: u64, object: u64, script: u64 },
    /// `JS_ValueToSource(cx, value)`.
    ValueToSource { cx: u64, value: u64 },
    /// `JS_GetStringCharsZAndLength(cx, string, &length)`.
    GetStringChars { cx: u64, string: u64 },
    /// `JS_EncodeCharacters(cx, chars, length, dst, &dstlen)`, with `dstlen`
    /// holding `dstlen` on entry: with no `dst` the destination is null and
    /// the call only sizes the result; otherwise the engine writes into `dst`.
    EncodeCharacters { cx: u64, chars: Vec<u8>, length: usize, dst: Option<Vec<u8>>, dstlen: usize },
    /// `JS_BeginRequest(cx)`.
    BeginRequest { cx: u64 },
    /// `JS_EndRequest(cx)`.
    EndRequest { cx: u64 },
    /// `JS_DestroyContext(cx)`.
    DestroyContext { cx: u64 },
    /// `JS_Finish(rt)`.
    Finish { rt: u64 },
    /// `JSRust_SetErrorChannel(cx, channel)`.
    SetErrorChannel { cx: u64 },
    /// `JSRust_SetLogChannel(cx, object, channel)`.
    SetLogChannel { cx: u64, object: u64 },
    /// `JSRust_InitRustLibrary(cx, object)`.
    InitRustLibrary { cx: u64, object: u64 },
}

/// What an engine call answered.
#[derive(Debug)]
pub enum EngineReply {
    /// A handle (`JS_Init`, `JSRust_NewContext`,
    /// `JS_NewCompartmentAndGlobalObject`, `JS_CompileScript`,
    /// `JS_ValueToSource`); 0 is null.
    Pointer(u64),
    /// A number (`JS_GetOptions`, and the previous setting from
    /// `JS_SetOptions` and `JS_SetVersion`).
    Word(u64),
    /// A success flag (`JS_InitStandardClasses` and the `JSRust_` setters).
    Flag(bool),
    /// The outcome of `JS_ExecuteScript`.
    Value { ok: bool, rval: u64 },
    /// The characters of a string and their count, from
    /// `JS_GetStringCharsZAndLength`.
    Chars { chars: u64, length: usize },
    /// The outcome of `JS_EncodeCharacters`: success, the size reported, and
    /// the buffer (empty for a sizing call).
    Encoded { ok: bool, size: usize, buf: Vec<u8> },
    /// No answer (`JS_ShutDown`).
    Unit,
}

/// A failure of an engine call.
#[derive(Debug)]
pub enum JsError {
    /// No global object came back.
    NoGlobalObject,
    /// The standard classes could not be set up.
    StandardClassesFailed,
    /// The script did not compile.
    CompileFailed,
    /// Characters could not be encoded.
    EncodeFailed,
    /// The error channel could not be installed.
    ErrorChannelFailed,
    /// The log channel could not be installed.
    LogChannelFailed,
    /// The library's own script functions could not be installed.
    RustLibraryFailed,
    /// A string's size does not fit in memory.
    StringTooLong,
    /// A reply that does not answer the call made.
    MismatchedReply,
}

/// Creates a runtime that may allocate up to `maxbytes`.
pub fn new_runtime(maxbytes: u32) -> (call: EngineCall)
    ensures
        call == (EngineCall::Init { maxbytes }),
{
    EngineCall::Init { maxbytes }
}

/// Shuts the engine down.
pub fn shut_down() -> (call: EngineCall)
    ensures
        call == EngineCall::ShutDown,
{
    EngineCall::ShutDown
}

/// Creates a context in runtime `rt`.
pub fn new_context(rt: &Runtime, stack_chunk_size: usize) -> (call: EngineCall)
    ensures
        call == (EngineCall::NewContext { rt: rt.ptr, stack_chunk_size }),
{
    EngineCall::NewContext { rt: rt.ptr, stack_chunk_size }
}

/// Reads the context's option bits.
pub fn get_options(cx: &Context) -> (call: EngineCall)
    ensures
        call == (EngineCall::GetOptions { cx: cx.ptr }),
{
    EngineCall::GetOptions { cx: cx.ptr }
}

/// Sets the context's option bits.
pub fn set_options(cx: &Context, options: u32) -> (call: EngineCall)
    ensures
        call == (EngineCall::SetOptions { cx: cx.ptr, options }),
{
    EngineCall::SetOptions { cx: cx.ptr, options }
}

/// Sets the context's language version.
pub fn set_version(cx: &Context, version: usize) -> (call: EngineCall)
    ensures
        call == (EngineCall::SetVersion { cx: cx.ptr, version }),
{
    EngineCall::SetVersion { cx: cx.ptr, version }
}

/// Creates a compartment and its global object of class `class`.
pub fn new_compartment_and_global_object(cx: &Context, class: Class, principals: &Principals) -> (call: EngineCall)
    ensures
        call == (EngineCall::NewCompartmentAndGlobalObject {
            cx: cx.ptr,
            class,
            principals: principals.ptr,
        }),
{
    EngineCall::NewCompartmentAndGlobalObject { cx: cx.ptr, class, principals: principals.ptr }
}

/// The global object that came back, or a failure where it is null.
pub fn global_object(reply: u64) -> (r: Result<Object, JsError>)
    ensures
        reply == 0 ==> r == Err::<Object, JsError>(JsError::NoGlobalObject),
        reply != 0 ==> r == Ok::<Object, JsError>(Object { ptr: reply }),
{
    if reply == 0 {
        Err(JsError::NoGlobalObject)
    } else {
        Ok(Object { ptr: reply })
    }
}

/// The null principals.
pub fn null_principals() -> (p: Principals)
    ensures
        p.ptr == 0,
{
    Principals { ptr: 0 }
}

/// Whether `c` is the class named `name` with flags `flags` that the engine's
/// stubs make: the property stub for adding, deleting and getting
/// properties, the strict one for setting them, the other stubs in their
/// places, every optional operation and reserved slot null.
pub open spec fn is_new_class(c: Class, name: Seq<char>, flags: u32, stubs: ClassStubs) -> bool {
    &&& c.name@ == name
    &&& c.jsclass.flags == flags
    &&& c.jsclass.add_property == stubs.property
    &&& c.jsclass.del_property == stubs.property
    &&& c.jsclass.get_property == stubs.property
    &&& c.jsclass.set_property == stubs.strict_property
    &&& c.jsclass.enumerate == stubs.enumerate
    &&& c.jsclass.resolve == stubs.resolve
    &&& c.jsclass.convert == stubs.convert
    &&& c.jsclass.finalize == stubs.finalize
    &&& c.jsclass.reserved0 == 0
    &&& c.jsclass.check_access == 0
    &&& c.jsclass.call == 0
    &&& c.jsclass.construct == 0
    &&& c.jsclass.xdr_object == 0
    &&& c.jsclass.has_instance == 0
    &&& c.jsclass.trace == 0
    &&& c.jsclass.reserved1 == 0
    &&& c.jsclass.reserved@ == Seq::new(RESERVED_SLOTS as nat, |i: int| 0u64)
}

/// A new class named and flagged as `spec` says, with the engine's stubs.
pub fn new_class(spec: ClassSpec, stubs: &ClassStubs) -> (c: Class)
    ensures
        is_new_class(c, spec.name@, spec.flags, *stubs),
{
    let mut reserved: Vec<u64> = Vec::new();
    let mut i: usize = 0;
    while i < RESERVED_SLOTS
        invariant
            i <= RESERVED_SLOTS,
            reserved@ == Seq::new(i as nat, |j: int| 0u64),
        decreases RESERVED_SLOTS - i,
    {
        reserved.push(0);
        i = i + 1;
        assert(reserved@ =~= Seq::new(i as nat, |j: int| 0u64));
    }
    Class {
        name: spec.name,
        jsclass: JsClass {
            flags: spec.flags,
            add_property: stubs.property,
            del_property: stubs.property,
            get_property: stubs.property,
            set_property: stubs.strict_property,
            enumerate: stubs.enumerate,
            resolve: stubs.resolve,
            convert: stubs.convert,
            finalize: stubs.finalize,
            reserved0: 0,
            check_access: 0,
            call: 0,
            construct: 0,
            xdr_object: 0,
            has_instance: 0,
            trace: 0,
            reserved1: 0,
            reserved,
        },
    }
}

/// Sets up the standard classes on `object`.
pub fn init_standard_classes(cx: &Context, object: &Object) -> (call: EngineCall)
    ensures
        call == (EngineCall::InitStandardClasses { cx: cx.ptr, object: object.ptr }),
{
    EngineCall::InitStandardClasses { cx: cx.ptr, object: object.ptr }
}

/// The outcome of a call that reports success as a flag: success, or the
/// given failure.
pub fn require_success(ok: bool, failure: JsError) -> (r: Result<(), JsError>)
    ensures
        ok ==> r is Ok,
        !ok ==> r == Err::<(), JsError>(failure),
{
    if ok {
        Ok(())
    } else {
        Err(failure)
    }
}

/// Compiles `source` in the scope of `object`, under the file name and line
/// number given; the line number is passed as a C `unsigned`, so only its low
/// 32 bits reach the engine.
pub fn compile_script(cx: &Context, object: &Object, source: Vec<u8>, filename: &str, lineno: usize) -> (call: EngineCall)
    ensures
        call matches EngineCall::CompileScript { cx: c, object: o, source: s, filename: f, lineno: l }
            && c == cx.ptr && o == object.ptr && s@ == source@ && f@ == filename@ && l == lineno as u32,
{
    EngineCall::CompileScript {
        cx: cx.ptr,
        object: object.ptr,
        source,
        filename: String::from_str(filename),
        lineno: lineno as u32,
    }
}

/// The compiled script that came back, or a failure where it is null.
pub fn compiled_script(reply: u64) -> (r: Result<Script, JsError>)
    ensures
        reply == 0 ==> r == Err::<Script, JsError>(JsError::CompileFailed),
        reply != 0 ==> r == Ok::<Script, JsError>(Script { ptr: reply }),
{
    if reply == 0 {
        Err(JsError::CompileFailed)
    } else {
        Ok(Script { ptr: reply })
    }
}

/// Runs a compiled script in the scope of `object`.
pub fn execute_script(cx: &Context, object: &Object, script: &Script) -> (call: EngineCall)
    ensures
        call == (EngineCall::ExecuteScript { cx: cx.ptr, object: object.ptr, script: script.ptr }),
{
    EngineCall::ExecuteScript { cx: cx.ptr, object: object.ptr, script: script.ptr }
}

/// The value a run produced, or none where the run failed.
pub fn script_result(ok: bool, rval: u64) -> (r: Option<u64>)
    ensures
        r == (if ok {
            Some(rval)
        } else {
            None::<u64>
        }),
{
    if ok {
        Some(rval)
    } else {
        None
    }
}

/// Renders a value as source text.
pub fn value_to_source(cx: &Context, value: u64) -> (call: EngineCall)
    ensures
        call == (EngineCall::ValueToSource { cx: cx.ptr, value }),
{
    EngineCall::ValueToSource { cx: cx.ptr, value }
}

/// Asks for the characters of an engine string.
pub fn get_string_bytes(cx: &Context, string: &JsString) -> (call: EngineCall)
    ensures
        call == (EngineCall::GetStringChars { cx: cx.ptr, string: string.ptr }),
{
    EngineCall::GetStringChars { cx: cx.ptr, string: string.ptr }
}

/// How many bytes to copy from a string of `length` two-byte characters:
/// the characters and their terminating zero; a failure where that count
/// does not fit in memory.
pub fn string_byte_count(length: usize) -> (r: Result<usize, JsError>)
    ensures
        (length + 1) * 2 <= usize::MAX ==> r == Ok::<usize, JsError>(((length + 1) * 2) as usize),
        (length + 1) * 2 > usize::MAX ==> r == Err::<usize, JsError>(JsError::StringTooLong),
{
    if length >= usize::MAX / 2 {
        Err(JsError::StringTooLong)
    } else {
        Ok((length + 1) * 2)
    }
}

/// A copy of a byte vector.
fn copy_bytes(v: &Vec<u8>) -> (r: Vec<u8>)
    ensures
        r@ == v@,
{
    let mut r: Vec<u8> = Vec::new();
    let mut i: usize = 0;
    while i < v.len()
        invariant
            i <= v.len(),
            r@ == v@.subrange(0, i as int),
        decreases v.len() - i,
    {
        r.push(v[i]);
        i = i + 1;
    }
    assert(r@ =~= v@);
    r
}

/// A buffer of `n` zero bytes.
fn zeroed(n: usize) -> (r: Vec<u8>)
    ensures
        r@ == Seq::new(n as nat, |i: int| 0u8),
{
    let mut r: Vec<u8> = Vec::new();
    let mut i: usize = 0;
    while i < n
        invariant
            i <= n,
            r@ == Seq::new(i as nat, |j: int| 0u8),
        decreases n - i,
    {
        r.push(0);
        i = i + 1;
        assert(r@ =~= Seq::new(i as nat, |j: int| 0u8));
    }
    r
}

/// A string conversion between its sizing call and its encoding call: the
/// context and the characters (two bytes each) being converted.
pub struct StringConversion {
    cx: u64,
    chars: Vec<u8>,
}

impl View for StringConversion {
    type V = (u64, Seq<u8>);

    closed spec fn view(&self) -> (u64, Seq<u8>) {
        (self.cx, self.chars@)
    }
}

/// Converting a string's characters starts with a call that sizes the
/// encoded result: all of `chars` taken as two-byte characters, a null
/// destination and a size of 0 on entry. The conversion keeps the
/// characters for the encoding call.
pub fn get_string(cx: &Context, chars: Vec<u8>) -> (r: (StringConversion, EngineCall))
    ensures
        r.0@ == (cx.ptr, chars@),
        r.1 matches EngineCall::EncodeCharacters { cx: c, chars: ch, length, dst, dstlen }
            && c == cx.ptr && ch@ == chars@ && length == chars@.len() / 2 && dst is None
            && dstlen == 0,
{
    let length = chars.len() / 2;
    let sent = copy_bytes(&chars);
    (
        StringConversion { cx: cx.ptr, chars },
        EngineCall::EncodeCharacters { cx: cx.ptr, chars: sent, length, dst: None, dstlen: 0 },
    )
}

impl StringConversion {
    /// After the sizing call: the call that encodes the same characters, in
    /// the same context, into a zeroed buffer one byte longer than the size
    /// reported, offering the engine that size; or a failure where the sizing
    /// call failed or that buffer does not fit in memory.
    pub fn encode(self, sized: bool, size: usize) -> (r: Result<EngineCall, JsError>)
        ensures
            !sized ==> r == Err::<EngineCall, JsError>(JsError::EncodeFailed),
            sized && size == usize::MAX ==> r == Err::<EngineCall, JsError>(JsError::StringTooLong),
            sized && size < usize::MAX ==> (r matches Ok(EngineCall::EncodeCharacters { cx: c, chars: ch, length, dst, dstlen })
                && c == self@.0 && ch@ == self@.1 && length == self@.1.len() / 2 && dstlen == size
                && (dst matches Some(buf) && buf@ == Seq::new((size + 1) as nat, |i: int| 0u8))),
    {
        if !sized {
            Err(JsError::EncodeFailed)
        } else if size == usize::MAX {
            Err(JsError::StringTooLong)
        } else {
            let length = self.chars.len() / 2;
            let buf = zeroed(size + 1);
            Ok(EngineCall::EncodeCharacters { cx: self.cx, chars: self.chars, length, dst: Some(buf), dstlen: size })
        }
    }
}

/// After the encoding call: the string's bytes, which are the filled buffer
/// as the engine left it (the encoded characters, then zero bytes, the last
/// one spare), whatever encoding the engine deflated to; or a failure where
/// the call failed.
pub fn encoded_string(ok: bool, buf: Vec<u8>) -> (r: Result<Vec<u8>, JsError>)
    ensures
        !ok ==> r == Err::<Vec<u8>, JsError>(JsError::EncodeFailed),
        ok ==> r == Ok::<Vec<u8>, JsError>(buf),
{
    if !ok {
        Err(JsError::EncodeFailed)
    } else {
        Ok(buf)
    }
}

/// Enters a request on the context.
pub fn begin_request(cx: &Context) -> (call: EngineCall)
    ensures
        call == (EngineCall::BeginRequest { cx: cx.ptr }),
{
    EngineCall::BeginRequest { cx: cx.ptr }
}

/// Leaves the request on the context.
pub fn end_request(cx: &Context) -> (call: EngineCall)
    ensures
        call == (EngineCall::EndRequest { cx: cx.ptr }),
{
    EngineCall::EndRequest { cx: cx.ptr }
}

/// Destroys a context, which is not used afterwards.
pub fn destroy_context(cx: Context) -> (call: EngineCall)
    ensures
        call == (EngineCall::DestroyContext { cx: cx.ptr }),
{
    EngineCall::DestroyContext { cx: cx.ptr }
}

/// Finishes a runtime, which is not used afterwards.
pub fn finish_runtime(rt: Runtime) -> (call: EngineCall)
    ensures
        call == (EngineCall::Finish { rt: rt.ptr }),
{
    EngineCall::Finish { rt: rt.ptr }
}

/// Installs the channel on which the engine reports errors.
pub fn set_error_channel(cx: &Context) -> (call: EngineCall)
    ensures
        call == (EngineCall::SetErrorChannel { cx: cx.ptr }),
{
    EngineCall::SetErrorChannel { cx: cx.ptr }
}

/// Installs the channel on which scripts log through `object`.
pub fn set_log_channel(cx: &Context, object: &Object) -> (call: EngineCall)
    ensures
        call == (EngineCall::SetLogChannel { cx: cx.ptr, object: object.ptr }),
{
    EngineCall::SetLogChannel { cx: cx.ptr, object: object.ptr }
}

/// Installs the library's own script functions on `object`.
pub fn init_rust_library(cx: &Context, object: &Object) -> (call: EngineCall)
    ensures
        call == (EngineCall::InitRustLibrary { cx: cx.ptr, object: object.ptr }),
{
    EngineCall::InitRustLibrary { cx: cx.ptr, object: object.ptr }
}

} // verus!

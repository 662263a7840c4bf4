//! How an actor sets up its engine before its message loop: a context, its
//! options and language version, a global object of class `global`, the
//! standard classes and the library's own script functions, in that order,
//! each step taking the reply to the one before.
use vstd::prelude::*;
use crate::engine::{
    Class, ClassSpec, ClassStubs, Context, EngineCall, EngineReply, JsError, Object, Runtime,
    global_object, init_rust_library, is_new_class, init_standard_classes, new_class,
    new_compartment_and_global_object, new_context, null_principals, require_success, set_options,
    set_version,
};
use crate::options::{METHODJIT, VAROBJFIX};

verus! {

/// The language version actors run (JavaScript 1.8.5).
pub const ACTOR_VERSION: usize = 185;

/// The options actors run with.
pub open spec fn actor_options() -> u32 {
    VAROBJFIX | METHODJIT
}

/// The reply a boot step waits for.
#[derive(Debug)]
pub enum BootStage {
    AwaitContext,
    AwaitOptions,
    AwaitVersion,
    AwaitGlobal,
    AwaitStandardClasses,
    AwaitRustLibrary,
    Ready,
}

/// The abstract state of a boot: the stage, the runtime and heap limit it
/// started from, the context and global object once they came back, and the
/// global class until it is handed to the engine.
pub struct BootState {
    pub stage: BootStage,
    pub rt: u64,
    pub maxbytes: u32,
    pub cx: u64,
    pub global: u64,
    pub class: Option<Class>,
}

/// An actor's engine setup in progress.
pub struct Boot {
    stage: BootStage,
    rt: u64,
    maxbytes: u32,
    cx: u64,
    global: u64,
    class: Option<Class>,
}

impl View for Boot {
    type V = BootState;

    closed spec fn view(&self) -> BootState {
        BootState {
            stage: self.stage,
            rt: self.rt,
            maxbytes: self.maxbytes,
            cx: self.cx,
            global: self.global,
            class: self.class,
        }
    }
}

/// Whether the global class is still held: exactly until the call that
/// creates the global object.
pub open spec fn boot_well_formed(s: BootState) -> bool {
    s.class is Some <==> (s.stage is AwaitContext || s.stage is AwaitOptions
        || s.stage is AwaitVersion)
}

/// One step of the setup: the reply to the call last made, the new state
/// and the next call (none once complete), or the failure.
pub open spec fn boot_step(s: BootState, reply: EngineReply) -> Result<
    (BootState, Option<EngineCall>),
    JsError,
> {
    match (s.stage, reply) {
        (BootStage::AwaitContext, EngineReply::Pointer(p)) => Ok(
            (
                BootState { stage: BootStage::AwaitOptions, cx: p, ..s },
                Some(EngineCall::SetOptions { cx: p, options: actor_options() }),
            ),
        ),
        (BootStage::AwaitOptions, EngineReply::Word(_)) => Ok(
            (
                BootState { stage: BootStage::AwaitVersion, ..s },
                Some(EngineCall::SetVersion { cx: s.cx, version: ACTOR_VERSION }),
            ),
        ),
        (BootStage::AwaitVersion, EngineReply::Word(_)) => Ok(
            (
                BootState { stage: BootStage::AwaitGlobal, class: None, ..s },
                Some(
                    EngineCall::NewCompartmentAndGlobalObject {
                        cx: s.cx,
                        class: s.class.unwrap(),
                        principals: 0,
                    },
                ),
            ),
        ),
        (BootStage::AwaitGlobal, EngineReply::Pointer(p)) => if p == 0 {
            Err(JsError::NoGlobalObject)
        } else {
            Ok(
                (
                    BootState { stage: BootStage::AwaitStandardClasses, global: p, ..s },
                    Some(EngineCall::InitStandardClasses { cx: s.cx, object: p }),
                ),
            )
        },
        (BootStage::AwaitStandardClasses, EngineReply::Flag(ok)) => if !ok {
            Err(JsError::StandardClassesFailed)
        } else {
            Ok(
                (
                    BootState { stage: BootStage::AwaitRustLibrary, ..s },
                    Some(EngineCall::InitRustLibrary { cx: s.cx, object: s.global }),
                ),
            )
        },
        (BootStage::AwaitRustLibrary, EngineReply::Flag(ok)) => if !ok {
            Err(JsError::RustLibraryFailed)
        } else {
            Ok((BootState { stage: BootStage::Ready, ..s }, None))
        },
        _ => Err(JsError::MismatchedReply),
    }
}

/// The class of an actor's global object: named `global`, with the flags the
/// engine gives for global classes and its stubs.
pub fn global_class(flags: u32, stubs: &ClassStubs) -> (c: Class)
    ensures
        is_new_class(c, "global"@, flags, *stubs),
{
    new_class(ClassSpec { name: String::from_str("global"), flags }, stubs)
}

impl Boot {
    /// Starts the setup in runtime `rt` with the given heap limit (also the
    /// context's stack chunk size) and global class: the first call creates
    /// the context.
    pub fn start(rt: &Runtime, maxbytes: u32, class: Class) -> (r: (Boot, EngineCall))
        ensures
            r.0@ == (BootState {
                stage: BootStage::AwaitContext,
                rt: rt.ptr,
                maxbytes,
                cx: 0,
                global: 0,
                class: Some(class),
            }),
            r.1 == (EngineCall::NewContext { rt: rt.ptr, stack_chunk_size: maxbytes as usize }),
    {
        let call = new_context(rt, maxbytes as usize);
        (Boot { stage: BootStage::AwaitContext, rt: rt.ptr, maxbytes, cx: 0, global: 0, class: Some(class) }, call)
    }

    /// Whether the setup is complete.
    pub fn is_ready(&self) -> (r: bool)
        ensures
            r == (self@.stage is Ready),
    {
        match self.stage {
            BootStage::Ready => true,
            _ => false,
        }
    }

    /// The context created.
    pub fn context(&self) -> (c: Context)
        ensures
            c.ptr == self@.cx,
    {
        Context { ptr: self.cx }
    }

    /// The global object created.
    pub fn global(&self) -> (o: Object)
        ensures
            o.ptr == self@.global,
    {
        Object { ptr: self.global }
    }

    /// Takes the reply to the call last made and gives the next call, or
    /// none once the setup is complete. A reply of the wrong kind, a null
    /// global object or a failed initialisation is a failure, and leaves the
    /// setup where it was.
    pub fn advance(&mut self, reply: EngineReply) -> (r: Result<Option<EngineCall>, JsError>)
        requires
            boot_well_formed(old(self)@),
        ensures
            boot_well_formed(final(self)@),
            match boot_step(old(self)@, reply) {
                Ok((t, c)) => final(self)@ == t && r == Ok::<Option<EngineCall>, JsError>(c),
                Err(e) => r == Err::<Option<EngineCall>, JsError>(e) && final(self)@ == old(self)@,
            },
    {
        match (&self.stage, reply) {
            (BootStage::AwaitContext, EngineReply::Pointer(p)) => {
                self.cx = p;
                self.stage = BootStage::AwaitOptions;
                let cx = Context { ptr: p };
                Ok(Some(set_options(&cx, VAROBJFIX | METHODJIT)))
            },
            (BootStage::AwaitOptions, EngineReply::Word(_)) => {
                self.stage = BootStage::AwaitVersion;
                let cx = Context { ptr: self.cx };
                Ok(Some(set_version(&cx, ACTOR_VERSION)))
            },
            (BootStage::AwaitVersion, EngineReply::Word(_)) => {
                let class = self.class.take();
                self.stage = BootStage::AwaitGlobal;
                let cx = Context { ptr: self.cx };
                match class {
                    Some(c) => Ok(Some(new_compartment_and_global_object(&cx, c, &null_principals()))),
                    None => Err(JsError::MismatchedReply),
                }
            },
            (BootStage::AwaitGlobal, EngineReply::Pointer(p)) => {
                let global = global_object(p)?;
                self.global = global.ptr;
                self.stage = BootStage::AwaitStandardClasses;
                let cx = Context { ptr: self.cx };
                Ok(Some(init_standard_classes(&cx, &global)))
            },
            (BootStage::AwaitStandardClasses, EngineReply::Flag(ok)) => {
                require_success(ok, JsError::StandardClassesFailed)?;
                self.stage = BootStage::AwaitRustLibrary;
                let cx = Context { ptr: self.cx };
                let global = Object { ptr: self.global };
                Ok(Some(init_rust_library(&cx, &global)))
            },
            (BootStage::AwaitRustLibrary, EngineReply::Flag(ok)) => {
                require_success(ok, JsError::RustLibraryFailed)?;
                self.stage = BootStage::Ready;
                Ok(None)
            },
            _ => Err(JsError::MismatchedReply),
        }
    }
}

} // verus!

verus! {

/// The state and calls after a run of replies, or the first failure.
pub open spec fn boot_run(s: BootState, replies: Seq<EngineReply>) -> Result<
    (BootState, Seq<Option<EngineCall>>),
    JsError,
>
    decreases replies.len(),
{
    if replies.len() == 0 {
        Ok((s, Seq::empty()))
    } else {
        match boot_step(s, replies[0]) {
            Ok((t, c)) => match boot_run(t, replies.drop_first()) {
                Ok((u, cs)) => Ok((u, seq![c] + cs)),
                Err(e) => Err(e),
            },
            Err(e) => Err(e),
        }
    }
}

/// The setup's order: from its start, successful replies lead it to set the
/// options and the version on the context that came back, create the global
/// object of the given class with null principals, set up the standard
/// classes and then the library's functions on that global object, after
/// which it is ready; the global class is handed to the engine once.
pub proof fn lemma_boot_order(
    rt: u64,
    maxbytes: u32,
    class: Class,
    cx: u64,
    old_options: u64,
    old_version: u64,
    global: u64,
)
    requires
        global != 0,
    ensures
        boot_run(
            BootState {
                stage: BootStage::AwaitContext,
                rt,
                maxbytes,
                cx: 0,
                global: 0,
                class: Some(class),
            },
            seq![
                EngineReply::Pointer(cx),
                EngineReply::Word(old_options),
                EngineReply::Word(old_version),
                EngineReply::Pointer(global),
                EngineReply::Flag(true),
                EngineReply::Flag(true),
            ],
        ) == Ok::<(BootState, Seq<Option<EngineCall>>), JsError>(
            (
                BootState { stage: BootStage::Ready, rt, maxbytes, cx, global, class: None },
                seq![
                    Some(EngineCall::SetOptions { cx, options: actor_options() }),
                    Some(EngineCall::SetVersion { cx, version: ACTOR_VERSION }),
                    Some(EngineCall::NewCompartmentAndGlobalObject { cx, class, principals: 0 }),
                    Some(EngineCall::InitStandardClasses { cx, object: global }),
                    Some(EngineCall::InitRustLibrary { cx, object: global }),
                    None,
                ],
            ),
        ),
{
    let s0 = BootState {
        stage: BootStage::AwaitContext,
        rt,
        maxbytes,
        cx: 0,
        global: 0,
        class: Some(class),
    };
    let rs = seq![
        EngineReply::Pointer(cx),
        EngineReply::Word(old_options),
        EngineReply::Word(old_version),
        EngineReply::Pointer(global),
        EngineReply::Flag(true),
        EngineReply::Flag(true),
    ];
    let s1 = BootState { stage: BootStage::AwaitOptions, cx, ..s0 };
    let s2 = BootState { stage: BootStage::AwaitVersion, ..s1 };
    let s3 = BootState { stage: BootStage::AwaitGlobal, class: None, ..s2 };
    let s4 = BootState { stage: BootStage::AwaitStandardClasses, global, ..s3 };
    let s5 = BootState { stage: BootStage::AwaitRustLibrary, ..s4 };
    let s6 = BootState { stage: BootStage::Ready, ..s5 };
    let r6 = rs.subrange(6, 6);
    let r5 = rs.subrange(5, 6);
    let r4 = rs.subrange(4, 6);
    let r3 = rs.subrange(3, 6);
    let r2 = rs.subrange(2, 6);
    let r1 = rs.subrange(1, 6);
    assert(r5.drop_first() =~= r6);
    assert(r4.drop_first() =~= r5);
    assert(r3.drop_first() =~= r4);
    assert(r2.drop_first() =~= r3);
    assert(r1.drop_first() =~= r2);
    assert(rs.drop_first() =~= r1);
    assert(boot_run(s6, r6) == Ok::<(BootState, Seq<Option<EngineCall>>), JsError>((s6, Seq::empty())));
    let c6: Seq<Option<EngineCall>> = seq![None];
    assert(boot_run(s5, r5) == Ok::<(BootState, Seq<Option<EngineCall>>), JsError>((s6, c6))) by {
        assert(seq![None::<EngineCall>] + Seq::<Option<EngineCall>>::empty() =~= c6);
    }
    let c5 = seq![Some(EngineCall::InitRustLibrary { cx, object: global })] + c6;
    let c4 = seq![Some(EngineCall::InitStandardClasses { cx, object: global })] + c5;
    let c3 = seq![Some(EngineCall::NewCompartmentAndGlobalObject { cx, class, principals: 0 })] + c4;
    let c2 = seq![Some(EngineCall::SetVersion { cx, version: ACTOR_VERSION })] + c3;
    let c1 = seq![Some(EngineCall::SetOptions { cx, options: actor_options() })] + c2;
    assert(boot_run(s4, r4) == Ok::<(BootState, Seq<Option<EngineCall>>), JsError>((s6, c5)));
    assert(boot_run(s3, r3) == Ok::<(BootState, Seq<Option<EngineCall>>), JsError>((s6, c4)));
    assert(boot_run(s2, r2) == Ok::<(BootState, Seq<Option<EngineCall>>), JsError>((s6, c3)));
    assert(boot_run(s1, r1) == Ok::<(BootState, Seq<Option<EngineCall>>), JsError>((s6, c2)));
    assert(boot_run(s0, rs) == Ok::<(BootState, Seq<Option<EngineCall>>), JsError>((s6, c1)));
    assert(c1 =~= seq![
        Some(EngineCall::SetOptions { cx, options: actor_options() }),
        Some(EngineCall::SetVersion { cx, version: ACTOR_VERSION }),
        Some(EngineCall::NewCompartmentAndGlobalObject { cx, class, principals: 0 }),
        Some(EngineCall::InitStandardClasses { cx, object: global }),
        Some(EngineCall::InitRustLibrary { cx, object: global }),
        None,
    ]);
}

} // verus!

verus! {

/// The setup fails where the original stops: a null global object, standard
/// classes or library functions that could not be set up; and a reply that
/// does not answer the call last made is refused.
pub proof fn lemma_boot_failures(s: BootState, w: u64, p: u64)
    ensures
        s.stage is AwaitGlobal ==> boot_step(s, EngineReply::Pointer(0)) == Err::<
            (BootState, Option<EngineCall>),
            JsError,
        >(JsError::NoGlobalObject),
        s.stage is AwaitStandardClasses ==> boot_step(s, EngineReply::Flag(false)) == Err::<
            (BootState, Option<EngineCall>),
            JsError,
        >(JsError::StandardClassesFailed),
        s.stage is AwaitRustLibrary ==> boot_step(s, EngineReply::Flag(false)) == Err::<
            (BootState, Option<EngineCall>),
            JsError,
        >(JsError::RustLibraryFailed),
        (s.stage is AwaitContext || s.stage is AwaitGlobal) ==> boot_step(s, EngineReply::Word(w))
            == Err::<(BootState, Option<EngineCall>), JsError>(JsError::MismatchedReply),
        !(s.stage is AwaitContext || s.stage is AwaitGlobal) ==> boot_step(s, EngineReply::Pointer(p))
            == Err::<(BootState, Option<EngineCall>), JsError>(JsError::MismatchedReply),
        s.stage is Ready ==> boot_step(s, EngineReply::Flag(true)) == Err::<
            (BootState, Option<EngineCall>),
            JsError,
        >(JsError::MismatchedReply),
{
}

} // verus!

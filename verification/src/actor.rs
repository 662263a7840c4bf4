//! An actor: one JavaScript global running one page or script. It answers
//! each message on its port with effects on its engine, its connections and
//! timers, the supervisor and itself.
use vstd::prelude::*;
use vstd::utf8::*;
use crate::decimal::{append_signed, append_digits, digits, signed_decimal};
use crate::messages::{ChildMessage, JsMsg, JsRustMessage, Msg};
use crate::text::{string_bytes, string_from_utf8};

verus! {

/// The code run for a page: it resumes the script's loader with the page's
/// data.
pub open spec fn load_url_code() -> Seq<char> {
    "try { _resume(5, _data, 0) } catch (e) { print(e + '\\n' + e.stack) } _data = undefined;"@
}

/// The code run after a script file: it ends the actor when no request is
/// outstanding.
pub open spec fn checkwait_code() -> Seq<char> {
    "if (XMLHttpRequest.requests_outstanding === 0)  jsrust_exit();"@
}

/// The code run for an I/O callback: it resumes the script with the
/// callback's level and tag.
pub open spec fn resume_code(level: u32, tag: u32) -> Seq<char> {
    "try { _resume("@ + digits(level as nat) + ", _data, "@ + digits(tag as nat)
        + "); } catch (e) { print(e + '\\n' + e.stack); }; _data = undefined;"@
}

/// A script file's text wrapped so that an exception is printed.
pub open spec fn wrapped_script(text: Seq<char>) -> Seq<char> {
    "try { "@ + text + " } catch (e) { print(e + '\\n' + e.stack); }"@
}

/// A line that an actor prints: a prefix, its id, `] ` and the text.
pub open spec fn actor_line(prefix: Seq<char>, myid: i64, text: Seq<char>) -> Seq<char> {
    prefix + signed_decimal(myid as int) + "] "@ + text
}

/// The name a spawned child gets: the parent's id, `:` and the child count.
pub open spec fn child_name(myid: i64, childid: i64) -> Seq<char> {
    signed_decimal(myid as int) + ":"@ + signed_decimal(childid as int)
}

/// The bytes `http`.
pub open spec fn http_bytes() -> Seq<u8> {
    seq![104u8, 116u8, 116u8, 112u8]
}

/// The message an actor sends itself once its prelude is loaded: a page load
/// when the URL's first four bytes are `http` and more follow, a script load
/// otherwise; `None` where the URL is longer than four bytes and its fourth
/// byte ends inside a character, so that those four bytes are no string.
pub open spec fn first_load(url: Seq<char>) -> Option<Msg> {
    let b = encode_utf8(url);
    if b.len() > 4 {
        if !is_char_boundary(b, 4) {
            None
        } else if b.subrange(0, 4) == http_bytes() {
            Some(Msg::LoadUrl(url))
        } else {
            Some(Msg::LoadScript(url))
        }
    } else {
        Some(Msg::LoadScript(url))
    }
}

/// The abstract state of an actor.
pub struct ActorState {
    pub myid: i64,
    pub myurl: Seq<char>,
    pub exit: bool,
    pub setup: i64,
    pub childid: i64,
}

/// What an actor asks of the program that runs it, in order.
#[derive(Debug)]
pub enum ActorAction {
    /// Hand the script's message channel (the one `set_msg` carried) to the
    /// engine.
    SetMsgChannel,
    /// Set the global `_data` to this text.
    SetDataProperty(String),
    /// Enter an engine request.
    BeginRequest,
    /// Leave the engine request.
    EndRequest,
    /// Compile this source under this file name (line 0) and run it.
    Evaluate { source: Vec<u8>, filename: String },
    /// Read this script file and pass the outcome to [`script_loaded`].
    LoadScriptFile(String),
    /// Read this prelude file and pass the outcome to [`prelude_loaded`].
    LoadPrelude(String),
    /// Open connection `tag` to this address.
    Connect { tag: u32, address: String },
    /// Write these bytes on connection `tag`.
    Write { tag: u32, data: Vec<u8> },
    /// Start reading on connection `tag`.
    ReadStart { tag: u32 },
    /// Close connection `tag`.
    CloseConnection { tag: u32 },
    /// Start timer `tag` for this many milliseconds.
    TimerStart { timeout: u32, tag: u32 },
    /// Send this message to the supervisor.
    SendOut(ChildMessage),
    /// Send this message to the actor's own port.
    SendSelf(ChildMessage),
    /// Tell the I/O thread to stop.
    StopIo,
    /// Log this text as an error.
    LogError(String),
    /// End the process now with this status.
    ExitNow(i32),
    /// Stop the actor with this failure.
    Fail(ActorError),
}

/// The view of an [`ActorAction`].
pub enum Effect {
    SetMsgChannel,
    SetDataProperty(Seq<char>),
    BeginRequest,
    EndRequest,
    Evaluate { source: Seq<u8>, filename: Seq<char> },
    LoadScriptFile(Seq<char>),
    LoadPrelude(Seq<char>),
    Connect { tag: u32, address: Seq<char> },
    Write { tag: u32, data: Seq<u8> },
    ReadStart { tag: u32 },
    CloseConnection { tag: u32 },
    TimerStart { timeout: u32, tag: u32 },
    SendOut(Msg),
    SendSelf(Msg),
    StopIo,
    LogError(Seq<char>),
    ExitNow(i32),
    Fail(ActorError),
}

impl View for ActorAction {
    type V = Effect;

    open spec fn view(&self) -> Effect {
        match self {
            ActorAction::SetMsgChannel => Effect::SetMsgChannel,
            ActorAction::SetDataProperty(s) => Effect::SetDataProperty(s@),
            ActorAction::BeginRequest => Effect::BeginRequest,
            ActorAction::EndRequest => Effect::EndRequest,
            ActorAction::Evaluate { source, filename } => Effect::Evaluate {
                source: source@,
                filename: filename@,
            },
            ActorAction::LoadScriptFile(p) => Effect::LoadScriptFile(p@),
            ActorAction::LoadPrelude(p) => Effect::LoadPrelude(p@),
            ActorAction::Connect { tag, address } => Effect::Connect { tag: *tag, address: address@ },
            ActorAction::Write { tag, data } => Effect::Write { tag: *tag, data: data@ },
            ActorAction::ReadStart { tag } => Effect::ReadStart { tag: *tag },
            ActorAction::CloseConnection { tag } => Effect::CloseConnection { tag: *tag },
            ActorAction::TimerStart { timeout, tag } => Effect::TimerStart {
                timeout: *timeout,
                tag: *tag,
            },
            ActorAction::SendOut(m) => Effect::SendOut(m@),
            ActorAction::SendSelf(m) => Effect::SendSelf(m@),
            ActorAction::StopIo => Effect::StopIo,
            ActorAction::LogError(s) => Effect::LogError(s@),
            ActorAction::ExitNow(c) => Effect::ExitNow(*c),
            ActorAction::Fail(e) => Effect::Fail(*e),
        }
    }
}

/// The effects of a list of actions.
pub open spec fn effects(actions: Seq<ActorAction>) -> Seq<Effect> {
    actions.map_values(|a: ActorAction| a@)
}

/// What an actor does with a message from its script, by the message's level.
pub open spec fn script_request(s: ActorState, m: JsMsg) -> (ActorState, Seq<Effect>) {
    if m.level == 0 {
        (s, seq![Effect::Connect { tag: m.tag, address: m.message }])
    } else if m.level == 1 {
        (s, seq![Effect::Write { tag: m.tag, data: encode_utf8(m.message) }])
    } else if m.level == 2 {
        (s, seq![Effect::ReadStart { tag: m.tag }])
    } else if m.level == 3 {
        (s, seq![Effect::CloseConnection { tag: m.tag }])
    } else if m.level == 4 {
        (s, seq![Effect::SendOut(Msg::Stdout(actor_line("[Actor "@, s.myid, m.message)))])
    } else if m.level == 5 {
        (s, seq![Effect::SendOut(Msg::Stderr(actor_line("[ERROR "@, s.myid, m.message)))])
    } else if m.level == 6 {
        (
            ActorState { childid: s.childid.wrapping_add(1), ..s },
            seq![Effect::SendOut(Msg::Spawn(child_name(s.myid, s.childid), m.message))],
        )
    } else if m.level == 7 || m.level == 9 {
        (s, Seq::empty())
    } else if m.level == 8 {
        (s, seq![Effect::TimerStart { timeout: m.timeout, tag: m.tag }])
    } else {
        (s, seq![Effect::LogError("..."@)])
    }
}

/// What an actor does with a message on its port, before it looks at its
/// setup count; `None` for a message meant for the supervisor.
pub open spec fn message_step(s: ActorState, m: Msg) -> Option<(ActorState, Seq<Effect>)> {
    match m {
        Msg::SetMsg => Some(
            (ActorState { setup: s.setup.wrapping_add(1), ..s }, seq![Effect::SetMsgChannel]),
        ),
        Msg::LoadUrl(x) => Some(
            (
                s,
                seq![
                    Effect::SetDataProperty(x),
                    Effect::Evaluate { source: encode_utf8(load_url_code()), filename: "io"@ },
                ],
            ),
        ),
        Msg::LoadScript(p) => Some((s, seq![Effect::LoadScriptFile(p)])),
        Msg::GotMsg(j) => Some(script_request(s, j)),
        Msg::IoCb { level, tag, timeout, p, buf } => Some(
            (
                s,
                seq![
                    Effect::BeginRequest,
                    Effect::SetDataProperty(buf),
                    Effect::Evaluate {
                        source: encode_utf8(resume_code(level, tag)),
                        filename: "io"@,
                    },
                    Effect::EndRequest,
                ],
            ),
        ),
        Msg::ExitProc => Some((s, seq![Effect::StopIo])),
        Msg::Done => Some((ActorState { exit: true, ..s }, seq![Effect::SendOut(Msg::Done)])),
        _ => None,
    }
}

/// The effects that load the prelude and then the actor's page or script,
/// or that fail after the prelude where the URL cannot be cut.
pub open spec fn prelude_effects(next: Option<Msg>) -> Seq<Effect> {
    seq![
        Effect::LoadPrelude("xmlhttprequest.js"@),
        Effect::LoadPrelude("dom.js"@),
        match next {
            Some(m) => Effect::SendSelf(m),
            None => Effect::Fail(ActorError::UrlNotCuttable),
        },
    ]
}

/// One step of an actor on a message: the message's own effects, then, when
/// the setup count has just become 1, the prelude and the first load (and
/// the count becomes 2). `None` for a message meant for the supervisor.
pub open spec fn actor_step(s: ActorState, m: Msg) -> Option<(ActorState, Seq<Effect>)> {
    match message_step(s, m) {
        None => None,
        Some((t, e)) => if t.setup == 1 {
            Some((ActorState { setup: 2, ..t }, e + prelude_effects(first_load(t.myurl))))
        } else {
            Some((t, e))
        },
    }
}

/// Why an actor stops with a failure.
#[derive(Debug, Clone, Copy)]
pub enum ActorError {
    /// A message that only the supervisor takes arrived on the actor's port.
    UnexpectedMessage,
    /// The actor's URL cannot be cut after its fourth byte.
    UrlNotCuttable,
    /// A prelude file could not be read.
    MissingPrelude,
    /// A script file is not UTF-8.
    InvalidUtf8,
}

/// An actor's state.
pub struct Actor {
    myid: i64,
    myurl: String,
    exit: bool,
    setup: i64,
    childid: i64,
}

impl View for Actor {
    type V = ActorState;

    closed spec fn view(&self) -> ActorState {
        ActorState {
            myid: self.myid,
            myurl: self.myurl@,
            exit: self.exit,
            setup: self.setup,
            childid: self.childid,
        }
    }
}

/// Builds `prefix`, the id, `] ` and the text.
fn render_line(prefix: &str, myid: i64, text: &String) -> (r: String)
    ensures
        r@ == actor_line(prefix@, myid, text@),
{
    let mut s = String::from_str(prefix);
    append_signed(&mut s, myid);
    s.append("] ");
    s.append(text.as_str());
    assert(s@ =~= actor_line(prefix@, myid, text@));
    s
}

/// Builds a child's name.
fn render_child_name(myid: i64, childid: i64) -> (r: String)
    ensures
        r@ == child_name(myid, childid),
{
    let mut s = String::new();
    append_signed(&mut s, myid);
    s.append(":");
    append_signed(&mut s, childid);
    assert(s@ =~= child_name(myid, childid));
    s
}

/// Builds the code of an I/O callback.
fn render_resume_code(level: u32, tag: u32) -> (r: String)
    ensures
        r@ == resume_code(level, tag),
{
    let mut s = String::from_str("try { _resume(");
    append_digits(&mut s, level as u64);
    s.append(", _data, ");
    append_digits(&mut s, tag as u64);
    s.append("); } catch (e) { print(e + '\\n' + e.stack); }; _data = undefined;");
    assert(s@ =~= resume_code(level, tag));
    s
}

/// A one-action list.
fn single(a: ActorAction) -> (v: Vec<ActorAction>)
    ensures
        effects(v@) == seq![a@],
{
    let mut v: Vec<ActorAction> = Vec::new();
    v.push(a);
    assert(effects(v@) =~= seq![a@]);
    v
}

/// Decides the first load of an actor's URL.
pub fn first_load_of(url: &String) -> (r: Result<ChildMessage, ActorError>)
    ensures
        match first_load(url@) {
            Some(m) => r matches Ok(x) && x@ == m,
            None => r == Err::<ChildMessage, ActorError>(ActorError::UrlNotCuttable),
        },
{
    let s = url.as_str();
    let b = s.as_bytes();
    if b.len() > 4 {
        if !s.is_char_boundary(4) {
            Err(ActorError::UrlNotCuttable)
        } else if b[0] == 104 && b[1] == 116 && b[2] == 116 && b[3] == 112 {
            assert(b@.subrange(0, 4) =~= http_bytes());
            Ok(ChildMessage::LoadUrl(url.clone()))
        } else {
            assert(b@.subrange(0, 4) != http_bytes()) by {
                if b@.subrange(0, 4) == http_bytes() {
                    assert(b@.subrange(0, 4)[0] == b@[0]);
                    assert(b@.subrange(0, 4)[1] == b@[1]);
                    assert(b@.subrange(0, 4)[2] == b@[2]);
                    assert(b@.subrange(0, 4)[3] == b@[3]);
                }
            }
            Ok(ChildMessage::LoadScript(url.clone()))
        }
    } else {
        Ok(ChildMessage::LoadScript(url.clone()))
    }
}

impl Actor {
    /// A fresh actor with this id on this page or script.
    pub fn new(myid: i64, myurl: String) -> (a: Actor)
        ensures
            a@ == (ActorState { myid, myurl: myurl@, exit: false, setup: 0, childid: 0 }),
    {
        Actor { myid, myurl, exit: false, setup: 0, childid: 0 }
    }

    /// Whether the actor has finished.
    pub fn is_done(&self) -> (r: bool)
        ensures
            r == self@.exit,
    {
        self.exit
    }

    /// The actions for a message from the script.
    fn script_request(&mut self, m: JsRustMessage) -> (v: Vec<ActorAction>)
        ensures
            (final(self)@, effects(v@)) == script_request(old(self)@, m@),
    {
        let level = m.level;
        if level == 0 {
            single(ActorAction::Connect { tag: m.tag, address: m.message })
        } else if level == 1 {
            let data = string_bytes(&m.message);
            single(ActorAction::Write { tag: m.tag, data })
        } else if level == 2 {
            single(ActorAction::ReadStart { tag: m.tag })
        } else if level == 3 {
            single(ActorAction::CloseConnection { tag: m.tag })
        } else if level == 4 {
            let line = render_line("[Actor ", self.myid, &m.message);
            single(ActorAction::SendOut(ChildMessage::Stdout(line)))
        } else if level == 5 {
            let line = render_line("[ERROR ", self.myid, &m.message);
            single(ActorAction::SendOut(ChildMessage::Stderr(line)))
        } else if level == 6 {
            let name = render_child_name(self.myid, self.childid);
            self.childid = self.childid.wrapping_add(1);
            single(ActorAction::SendOut(ChildMessage::Spawn(name, m.message)))
        } else if level == 7 || level == 9 {
            let v: Vec<ActorAction> = Vec::new();
            assert(effects(v@) =~= Seq::empty());
            v
        } else if level == 8 {
            single(ActorAction::TimerStart { timeout: m.timeout, tag: m.tag })
        } else {
            single(ActorAction::LogError(String::from_str("...")))
        }
    }

    /// The actions for a message, before the setup count is looked at.
    fn message_actions(&mut self, msg: ChildMessage) -> (r: Result<Vec<ActorAction>, ActorError>)
        ensures
            match message_step(old(self)@, msg@) {
                Some((s, e)) => r matches Ok(v) && final(self)@ == s && effects(v@) == e,
                None => r == Err::<Vec<ActorAction>, ActorError>(ActorError::UnexpectedMessage) && final(self)@ == old(self)@,
            },
    {
        match msg {
            ChildMessage::SetMsg => {
                self.setup = self.setup.wrapping_add(1);
                Ok(single(ActorAction::SetMsgChannel))
            },
            ChildMessage::LoadUrl(x) => {
                let mut v: Vec<ActorAction> = Vec::new();
                v.push(ActorAction::SetDataProperty(x));
                let code = String::from_str(
                    "try { _resume(5, _data, 0) } catch (e) { print(e + '\\n' + e.stack) } _data = undefined;",
                );
                v.push(
                    ActorAction::Evaluate {
                        source: string_bytes(&code),
                        filename: String::from_str("io"),
                    },
                );
                assert(effects(v@) =~= message_step(old(self)@, msg@).unwrap().1);
                Ok(v)
            },
            ChildMessage::LoadScript(p) => Ok(single(ActorAction::LoadScriptFile(p))),
            ChildMessage::GotMsg(j) => Ok(self.script_request(j)),
            ChildMessage::IoCb { level, tag, timeout, p, buf } => {
                let mut v: Vec<ActorAction> = Vec::new();
                v.push(ActorAction::BeginRequest);
                v.push(ActorAction::SetDataProperty(buf));
                let code = render_resume_code(level, tag);
                v.push(
                    ActorAction::Evaluate {
                        source: string_bytes(&code),
                        filename: String::from_str("io"),
                    },
                );
                v.push(ActorAction::EndRequest);
                assert(effects(v@) =~= message_step(old(self)@, msg@).unwrap().1);
                Ok(v)
            },
            ChildMessage::ExitProc => Ok(single(ActorAction::StopIo)),
            ChildMessage::Done => {
                self.exit = true;
                Ok(single(ActorAction::SendOut(ChildMessage::Done)))
            },
            _ => Err(ActorError::UnexpectedMessage),
        }
    }

    /// Answers one message on the actor's port with the actions to perform,
    /// in order.
    pub fn handle(&mut self, msg: ChildMessage) -> (r: Result<Vec<ActorAction>, ActorError>)
        ensures
            match actor_step(old(self)@, msg@) {
                Some((s, e)) => r matches Ok(v) && final(self)@ == s && effects(v@) == e,
                None => r == Err::<Vec<ActorAction>, ActorError>(ActorError::UnexpectedMessage) && final(self)@ == old(self)@,
            },
    {
        let mut v = self.message_actions(msg)?;
        if self.setup == 1 {
            let next = first_load_of(&self.myurl);
            self.setup = 2;
            let ghost before = v@;
            v.push(ActorAction::LoadPrelude(String::from_str("xmlhttprequest.js")));
            v.push(ActorAction::LoadPrelude(String::from_str("dom.js")));
            match next {
                Ok(m) => v.push(ActorAction::SendSelf(m)),
                Err(e) => v.push(ActorAction::Fail(e)),
            }
            assert(effects(v@) =~= effects(before) + prelude_effects(first_load(self.myurl@)));
        }
        Ok(v)
    }
}

/// What follows the read of a prelude file: its bytes run under its own
/// name; a prelude that cannot be read ends the actor with a failure.
pub fn prelude_loaded(path: String, contents: Option<Vec<u8>>) -> (r: Result<ActorAction, ActorError>)
    ensures
        match contents {
            Some(b) => r matches Ok(a) && a@ == (Effect::Evaluate { source: b@, filename: path@ }),
            None => r == Err::<ActorAction, ActorError>(ActorError::MissingPrelude),
        },
{
    match contents {
        Some(b) => Ok(ActorAction::Evaluate { source: b, filename: path }),
        None => Err(ActorError::MissingPrelude),
    }
}

/// The effects that follow the read of the actor's script file: its text,
/// wrapped to print exceptions, runs under the file's name, then the check
/// that ends an idle actor; a file that cannot be read is logged and ends the
/// process. `None` where the file is not UTF-8.
pub open spec fn script_file_effects(path: Seq<char>, contents: Option<Seq<u8>>) -> Option<
    Seq<Effect>,
> {
    match contents {
        Some(b) => if valid_utf8(b) {
            Some(
                seq![
                    Effect::Evaluate { source: encode_utf8(wrapped_script(decode_utf8(b))), filename: path },
                    Effect::Evaluate { source: encode_utf8(checkwait_code()), filename: "io"@ },
                ],
            )
        } else {
            None
        },
        None => Some(
            seq![Effect::LogError("File not found: "@ + path), Effect::ExitNow(0)],
        ),
    }
}

/// The view of an optional byte vector.
pub open spec fn opt_bytes(v: Option<Vec<u8>>) -> Option<Seq<u8>> {
    match v {
        Some(b) => Some(b@),
        None => None,
    }
}

/// What follows the read of the actor's script file.
pub fn script_loaded(path: String, contents: Option<Vec<u8>>) -> (r: Result<Vec<ActorAction>, ActorError>)
    ensures
        match script_file_effects(path@, opt_bytes(contents)) {
            Some(e) => r matches Ok(v) && effects(v@) == e,
            None => r == Err::<Vec<ActorAction>, ActorError>(ActorError::InvalidUtf8),
        },
{
    match contents {
        Some(b) => {
            match string_from_utf8(b) {
                Some(text) => {
                    let mut code = String::from_str("try { ");
                    code.append(text.as_str());
                    code.append(" } catch (e) { print(e + '\\n' + e.stack); }");
                    assert(code@ =~= wrapped_script(text@));
                    let mut v: Vec<ActorAction> = Vec::new();
                    v.push(ActorAction::Evaluate { source: string_bytes(&code), filename: path });
                    let check = String::from_str(
                        "if (XMLHttpRequest.requests_outstanding === 0)  jsrust_exit();",
                    );
                    v.push(
                        ActorAction::Evaluate {
                            source: string_bytes(&check),
                            filename: String::from_str("io"),
                        },
                    );
                    assert(effects(v@) =~= script_file_effects(path@, opt_bytes(contents)).unwrap());
                    Ok(v)
                },
                None => Err(ActorError::InvalidUtf8),
            }
        },
        None => {
            let mut line = String::from_str("File not found: ");
            line.append(path.as_str());
            let mut v: Vec<ActorAction> = Vec::new();
            v.push(ActorAction::LogError(line));
            v.push(ActorAction::ExitNow(0));
            assert(effects(v@) =~= script_file_effects(path@, opt_bytes(contents)).unwrap());
            Ok(v)
        },
    }
}

} // verus!

verus! {

/// Different (parent, child count) pairs give different child names.
pub proof fn lemma_child_name_injective(a: i64, c: i64, b: i64, d: i64)
    requires
        child_name(a, c) == child_name(b, d),
    ensures
        a == b,
        c == d,
{
    reveal_strlit(":");
    let x = signed_decimal(a as int);
    let y = signed_decimal(b as int);
    let n1 = child_name(a, c);
    let n2 = child_name(b, d);
    crate::decimal::lemma_signed_decimal_shape(a as int);
    crate::decimal::lemma_signed_decimal_shape(b as int);
    crate::decimal::lemma_signed_decimal_shape(c as int);
    crate::decimal::lemma_signed_decimal_shape(d as int);
    assert(n1[x.len() as int] == ':');
    assert(n2[y.len() as int] == ':');
    if x.len() < y.len() {
        assert(n2[x.len() as int] == y[x.len() as int]);
        assert(false);
    }
    if y.len() < x.len() {
        assert(n1[y.len() as int] == x[y.len() as int]);
        assert(false);
    }
    assert(x =~= n1.subrange(0, x.len() as int));
    assert(y =~= n2.subrange(0, y.len() as int));
    crate::decimal::lemma_signed_decimal_injective(a as int, b as int);
    assert(signed_decimal(c as int) =~= n1.subrange(x.len() as int + 1, n1.len() as int));
    assert(signed_decimal(d as int) =~= n2.subrange(y.len() as int + 1, n2.len() as int));
    crate::decimal::lemma_signed_decimal_injective(c as int, d as int);
}

/// The names of the children spawned in a list of effects, in order.
pub open spec fn spawned_names(e: Seq<Effect>) -> Seq<Seq<char>>
    decreases e.len(),
{
    if e.len() == 0 {
        Seq::empty()
    } else {
        match e[0] {
            Effect::SendOut(Msg::Spawn(name, _)) => seq![name] + spawned_names(e.drop_first()),
            _ => spawned_names(e.drop_first()),
        }
    }
}

/// The effects of each step of an actor's run over a list of messages, up to
/// the first failing step.
pub open spec fn actor_run_effects(s: ActorState, ms: Seq<Msg>) -> Seq<Effect>
    decreases ms.len(),
{
    if ms.len() == 0 {
        Seq::empty()
    } else {
        match actor_step(s, ms[0]) {
            Some((t, e)) => e + actor_run_effects(t, ms.drop_first()),
            None => Seq::empty(),
        }
    }
}

/// Whether a list of effects loads the prelude.
pub open spec fn loads_prelude(e: Seq<Effect>) -> bool {
    exists|i: int| 0 <= i < e.len() && #[trigger] e[i] is LoadPrelude
}

/// The number of steps of an actor's run that load the prelude.
pub open spec fn prelude_loads(s: ActorState, ms: Seq<Msg>) -> nat
    decreases ms.len(),
{
    if ms.len() == 0 {
        0
    } else {
        match actor_step(s, ms[0]) {
            Some((t, e)) => (if loads_prelude(e) { 1nat } else { 0nat }) + prelude_loads(
                t,
                ms.drop_first(),
            ),
            None => 0,
        }
    }
}

proof fn lemma_spawned_names_concat(a: Seq<Effect>, b: Seq<Effect>)
    ensures
        spawned_names(a + b) == spawned_names(a) + spawned_names(b),
    decreases a.len(),
{
    if a.len() == 0 {
        assert(a + b =~= b);
    } else {
        assert((a + b).drop_first() =~= a.drop_first() + b);
        lemma_spawned_names_concat(a.drop_first(), b);
        assert(spawned_names(a + b) =~= spawned_names(a) + spawned_names(b));
    }
}

proof fn lemma_single_names(x: Effect)
    ensures
        spawned_names(seq![x]) == (match x {
            Effect::SendOut(Msg::Spawn(name, _)) => seq![name],
            _ => Seq::<Seq<char>>::empty(),
        }),
{
    let e = seq![x];
    assert(e.drop_first() =~= Seq::<Effect>::empty());
    assert(spawned_names(e.drop_first()) == Seq::<Seq<char>>::empty());
    match x {
        Effect::SendOut(Msg::Spawn(name, _)) => {
            assert(spawned_names(e) =~= seq![name]);
        },
        _ => {},
    }
}

/// A step keeps the actor's id and either spawns nothing, leaving the child
/// count alone, or spawns one child named after the current count, which it
/// then advances.
proof fn lemma_step_spawns(s: ActorState, m: Msg)
    requires
        actor_step(s, m) is Some,
    ensures
        ({
            let (t, e) = actor_step(s, m).unwrap();
            &&& t.myid == s.myid
            &&& t.myurl == s.myurl
            &&& (spawned_names(e) == Seq::<Seq<char>>::empty() && t.childid == s.childid) || (
            spawned_names(e) == seq![child_name(s.myid, s.childid)] && t.childid
                == s.childid.wrapping_add(1))
        }),
{
    let (t1, e1) = message_step(s, m).unwrap();
    match m {
        Msg::SetMsg => lemma_single_names(Effect::SetMsgChannel),
        Msg::LoadUrl(x) => {
            let a = Effect::SetDataProperty(x);
            let b = Effect::Evaluate { source: encode_utf8(load_url_code()), filename: "io"@ };
            assert(seq![a, b] =~= seq![a] + seq![b]);
            lemma_spawned_names_concat(seq![a], seq![b]);
            lemma_single_names(a);
            lemma_single_names(b);
        },
        Msg::LoadScript(p) => lemma_single_names(Effect::LoadScriptFile(p)),
        Msg::GotMsg(j) => {
            if e1.len() == 1 {
                lemma_single_names(e1[0]);
                assert(e1 =~= seq![e1[0]]);
            } else {
                assert(e1.len() == 0);
            }
        },
        Msg::IoCb { level, tag, timeout, p, buf } => {
            let a = Effect::BeginRequest;
            let b = Effect::SetDataProperty(buf);
            let c = Effect::Evaluate { source: encode_utf8(resume_code(level, tag)), filename: "io"@ };
            let d = Effect::EndRequest;
            assert(seq![a, b, c, d] =~= seq![a] + (seq![b] + (seq![c] + seq![d])));
            lemma_spawned_names_concat(seq![c], seq![d]);
            lemma_spawned_names_concat(seq![b], seq![c] + seq![d]);
            lemma_spawned_names_concat(seq![a], seq![b] + (seq![c] + seq![d]));
            lemma_single_names(a);
            lemma_single_names(b);
            lemma_single_names(c);
            lemma_single_names(d);
        },
        Msg::ExitProc => lemma_single_names(Effect::StopIo),
        Msg::Done => lemma_single_names(Effect::SendOut(Msg::Done)),
        _ => {},
    }
    if t1.setup == 1 {
        let next = first_load(t1.myurl);
        let a = Effect::LoadPrelude("xmlhttprequest.js"@);
        let b = Effect::LoadPrelude("dom.js"@);
        let c = prelude_effects(next)[2];
        assert(prelude_effects(next) =~= seq![a] + (seq![b] + seq![c]));
        lemma_spawned_names_concat(seq![b], seq![c]);
        lemma_spawned_names_concat(seq![a], seq![b] + seq![c]);
        lemma_single_names(a);
        lemma_single_names(b);
        lemma_single_names(c);
        lemma_spawned_names_concat(e1, prelude_effects(next));
        assert(spawned_names(e1) + Seq::<Seq<char>>::empty() =~= spawned_names(e1));
    }
}

/// The names of the children an actor spawns over a run are consecutive
/// child counts from the current one.
proof fn lemma_run_spawned_names(s: ActorState, ms: Seq<Msg>) -> (n: nat)
    requires
        s.childid + ms.len() <= i64::MAX,
    ensures
        n <= ms.len(),
        spawned_names(actor_run_effects(s, ms)) == Seq::new(
            n,
            |k: int| child_name(s.myid, (s.childid + k) as i64),
        ),
    decreases ms.len(),
{
    if ms.len() == 0 {
        assert(spawned_names(actor_run_effects(s, ms)) =~= Seq::new(
            0,
            |k: int| child_name(s.myid, (s.childid + k) as i64),
        ));
        0
    } else {
        match actor_step(s, ms[0]) {
            Some((t, e)) => {
                lemma_step_spawns(s, ms[0]);
                let rest = ms.drop_first();
                let m = lemma_run_spawned_names(t, rest);
                lemma_spawned_names_concat(e, actor_run_effects(t, rest));
                if t.childid == s.childid {
                    assert(spawned_names(actor_run_effects(s, ms)) =~= Seq::new(
                        m,
                        |k: int| child_name(s.myid, (s.childid + k) as i64),
                    ));
                    m
                } else {
                    assert(t.childid == s.childid + 1);
                    assert(spawned_names(actor_run_effects(s, ms)) =~= Seq::new(
                        m + 1,
                        |k: int| child_name(s.myid, (s.childid + k) as i64),
                    ));
                    m + 1
                }
            },
            None => {
                assert(spawned_names(actor_run_effects(s, ms)) =~= Seq::new(
                    0,
                    |k: int| child_name(s.myid, (s.childid + k) as i64),
                ));
                0
            },
        }
    }
}

/// Over any run in which the child count cannot wrap around, the children
/// an actor spawns all get different names.
pub proof fn lemma_spawned_names_distinct(s: ActorState, ms: Seq<Msg>)
    requires
        s.childid + ms.len() <= i64::MAX,
    ensures
        spawned_names(actor_run_effects(s, ms)).no_duplicates(),
{
    let n = lemma_run_spawned_names(s, ms);
    let names = spawned_names(actor_run_effects(s, ms));
    assert forall|i: int, j: int| 0 <= i < names.len() && 0 <= j < names.len() && i != j implies names[i]
        != names[j] by {
        if names[i] == names[j] {
            lemma_child_name_injective(
                s.myid,
                (s.childid + i) as i64,
                s.myid,
                (s.childid + j) as i64,
            );
        }
    }
}

/// A message's own effects never load the prelude, and only `set_msg`
/// changes the setup count, by one.
proof fn lemma_message_step_setup(s: ActorState, m: Msg)
    requires
        message_step(s, m) is Some,
    ensures
        ({
            let (t, e) = message_step(s, m).unwrap();
            &&& !loads_prelude(e)
            &&& t.setup == (if m is SetMsg {
                s.setup.wrapping_add(1)
            } else {
                s.setup
            })
            &&& t.myurl == s.myurl
        }),
{
    let (t, e) = message_step(s, m).unwrap();
    if loads_prelude(e) {
        let i = choose|i: int| 0 <= i < e.len() && #[trigger] e[i] is LoadPrelude;
        assert(e[i] is LoadPrelude);
        match m {
            Msg::GotMsg(j) => {
                assert(false);
            },
            _ => {
                assert(false);
            },
        }
    }
}

/// Once an actor has set up (its count at 2 or more, with room to count the
/// messages to come), no step of a run loads the prelude again.
proof fn lemma_no_prelude_after_setup(s: ActorState, ms: Seq<Msg>)
    requires
        2 <= s.setup,
        s.setup + ms.len() <= i64::MAX,
    ensures
        prelude_loads(s, ms) == 0,
    decreases ms.len(),
{
    if ms.len() > 0 {
        if let Some((t, e)) = actor_step(s, ms[0]) {
            lemma_message_step_setup(s, ms[0]);
            lemma_no_prelude_after_setup(t, ms.drop_first());
        }
    }
}

/// An actor loads its prelude at most once: from a fresh actor, over any run
/// shorter than the range of its setup count, at most one step loads it
/// (the step that handles the first `set_msg`).
pub proof fn lemma_prelude_at_most_once(s: ActorState, ms: Seq<Msg>)
    requires
        s.setup == 0,
        ms.len() + 2 <= i64::MAX,
    ensures
        prelude_loads(s, ms) <= 1,
    decreases ms.len(),
{
    if ms.len() > 0 {
        if let Some((t, e)) = actor_step(s, ms[0]) {
            let (t1, e1) = message_step(s, ms[0]).unwrap();
            lemma_message_step_setup(s, ms[0]);
            if ms[0] is SetMsg {
                assert(t.setup == 2);
                lemma_no_prelude_after_setup(t, ms.drop_first());
            } else {
                assert(t == t1 && e == e1);
                lemma_prelude_at_most_once(t, ms.drop_first());
            }
        }
    }
}

/// An actor that handles `done` is finished and tells the supervisor so.
pub proof fn lemma_done_finishes(s: ActorState)
    requires
        s.setup != 1,
    ensures
        actor_step(s, Msg::Done) == Some(
            (ActorState { exit: true, ..s }, seq![Effect::SendOut(Msg::Done)]),
        ),
{
}

} // verus!

verus! {

/// A script file's bytes reach the engine unchanged: the source run for a
/// UTF-8 script file is the wrapper's opening bytes, the file's own bytes,
/// then the wrapper's closing bytes.
pub proof fn lemma_script_bytes_unchanged(b: Seq<u8>)
    requires
        valid_utf8(b),
    ensures
        encode_utf8(wrapped_script(decode_utf8(b))) == encode_utf8("try { "@) + b + encode_utf8(
            " } catch (e) { print(e + '\\n' + e.stack); }"@,
        ),
{
    let pre = "try { "@;
    let post = " } catch (e) { print(e + '\\n' + e.stack); }"@;
    let text = decode_utf8(b);
    crate::text::lemma_encode_utf8_concat(pre + text, post);
    crate::text::lemma_encode_utf8_concat(pre, text);
    crate::text::lemma_text_round_trip(b);
}

} // verus!

verus! {

/// The messages an actor sends the supervisor in a list of effects, in
/// order.
pub open spec fn sent_out(e: Seq<Effect>) -> Seq<Msg>
    decreases e.len(),
{
    if e.len() == 0 {
        Seq::empty()
    } else {
        match e[0] {
            Effect::SendOut(m) => seq![m] + sent_out(e.drop_first()),
            _ => sent_out(e.drop_first()),
        }
    }
}

/// The number of `done` messages in a list of messages.
pub open spec fn done_count(ms: Seq<Msg>) -> nat
    decreases ms.len(),
{
    if ms.len() == 0 {
        0
    } else {
        (if ms[0] is Done { 1nat } else { 0nat }) + done_count(ms.drop_first())
    }
}

/// An actor's message loop over the messages that arrive on its port: it
/// takes messages while it is not finished. The state it ends in, the
/// effects of the steps it took and the number of messages it took, or
/// `None` where a step fails.
pub open spec fn actor_loop(s: ActorState, ms: Seq<Msg>) -> Option<(ActorState, Seq<Effect>, nat)>
    decreases ms.len(),
{
    if s.exit || ms.len() == 0 {
        Some((s, Seq::empty(), 0))
    } else {
        match actor_step(s, ms[0]) {
            Some((t, e)) => match actor_loop(t, ms.drop_first()) {
                Some((u, f, n)) => Some((u, e + f, n + 1)),
                None => None,
            },
            None => None,
        }
    }
}

proof fn lemma_sent_out_concat(a: Seq<Effect>, b: Seq<Effect>)
    ensures
        sent_out(a + b) == sent_out(a) + sent_out(b),
    decreases a.len(),
{
    if a.len() == 0 {
        assert(a + b =~= b);
    } else {
        assert((a + b).drop_first() =~= a.drop_first() + b);
        lemma_sent_out_concat(a.drop_first(), b);
        assert(sent_out(a + b) =~= sent_out(a) + sent_out(b));
    }
}

proof fn lemma_sent_out_single(x: Effect)
    ensures
        sent_out(seq![x]) == (match x {
            Effect::SendOut(m) => seq![m],
            _ => Seq::<Msg>::empty(),
        }),
{
    let e = seq![x];
    assert(e.drop_first() =~= Seq::<Effect>::empty());
    assert(sent_out(e.drop_first()) == Seq::<Msg>::empty());
    match x {
        Effect::SendOut(m) => {
            assert(sent_out(e) =~= seq![m]);
        },
        _ => {},
    }
}

proof fn lemma_done_count_concat(a: Seq<Msg>, b: Seq<Msg>)
    ensures
        done_count(a + b) == done_count(a) + done_count(b),
    decreases a.len(),
{
    if a.len() == 0 {
        assert(a + b =~= b);
    } else {
        assert((a + b).drop_first() =~= a.drop_first() + b);
        lemma_done_count_concat(a.drop_first(), b);
    }
}

/// A step sends `done` to the supervisor exactly when it handles `done`, and
/// then sends nothing else; the actor is finished afterwards exactly when it
/// was before or the message was `done`.
proof fn lemma_step_sends_done(s: ActorState, m: Msg)
    requires
        actor_step(s, m) is Some,
    ensures
        ({
            let (t, e) = actor_step(s, m).unwrap();
            &&& t.exit == (s.exit || m is Done)
            &&& m is Done ==> sent_out(e) == seq![Msg::Done]
            &&& !(m is Done) ==> done_count(sent_out(e)) == 0
        }),
{
    let (t1, e1) = message_step(s, m).unwrap();
    let one = seq![Msg::Done];
    assert(one.drop_first() =~= Seq::<Msg>::empty());
    assert(done_count(one.drop_first()) == 0);
    assert(done_count(one) == 1);
    match m {
        Msg::SetMsg => lemma_sent_out_single(Effect::SetMsgChannel),
        Msg::LoadUrl(x) => {
            let a = Effect::SetDataProperty(x);
            let b = Effect::Evaluate { source: encode_utf8(load_url_code()), filename: "io"@ };
            assert(seq![a, b] =~= seq![a] + seq![b]);
            lemma_sent_out_concat(seq![a], seq![b]);
            lemma_sent_out_single(a);
            lemma_sent_out_single(b);
        },
        Msg::LoadScript(p) => lemma_sent_out_single(Effect::LoadScriptFile(p)),
        Msg::GotMsg(j) => {
            if e1.len() == 1 {
                lemma_sent_out_single(e1[0]);
                assert(e1 =~= seq![e1[0]]);
                match e1[0] {
                    Effect::SendOut(x) => {
                        assert(seq![x].drop_first() =~= Seq::<Msg>::empty());
                        assert(!(x is Done));
                    },
                    _ => {},
                }
            } else {
                assert(e1.len() == 0);
            }
        },
        Msg::IoCb { level, tag, timeout, p, buf } => {
            let a = Effect::BeginRequest;
            let b = Effect::SetDataProperty(buf);
            let c = Effect::Evaluate { source: encode_utf8(resume_code(level, tag)), filename: "io"@ };
            let d = Effect::EndRequest;
            assert(seq![a, b, c, d] =~= seq![a] + (seq![b] + (seq![c] + seq![d])));
            lemma_sent_out_concat(seq![c], seq![d]);
            lemma_sent_out_concat(seq![b], seq![c] + seq![d]);
            lemma_sent_out_concat(seq![a], seq![b] + (seq![c] + seq![d]));
            lemma_sent_out_single(a);
            lemma_sent_out_single(b);
            lemma_sent_out_single(c);
            lemma_sent_out_single(d);
        },
        Msg::ExitProc => lemma_sent_out_single(Effect::StopIo),
        Msg::Done => lemma_sent_out_single(Effect::SendOut(Msg::Done)),
        _ => {},
    }
    if t1.setup == 1 {
        let next = first_load(t1.myurl);
        let a = Effect::LoadPrelude("xmlhttprequest.js"@);
        let b = Effect::LoadPrelude("dom.js"@);
        let c = prelude_effects(next)[2];
        assert(prelude_effects(next) =~= seq![a] + (seq![b] + seq![c]));
        lemma_sent_out_concat(seq![b], seq![c]);
        lemma_sent_out_concat(seq![a], seq![b] + seq![c]);
        lemma_sent_out_single(a);
        lemma_sent_out_single(b);
        lemma_sent_out_single(c);
        lemma_sent_out_concat(e1, prelude_effects(next));
        assert(sent_out(e1) + Seq::<Msg>::empty() =~= sent_out(e1));
    }
}

/// An actor's loop ends exactly on `done`: over any messages it takes without
/// failing, it ends finished exactly when a `done` arrives, having taken the
/// messages up to and including the first `done` and no more, and having
/// sent `done` to the supervisor exactly once, as its last message to it.
/// Where no `done` arrives, it takes every message and sends no `done`.
pub proof fn lemma_loop_ends_on_done(s: ActorState, ms: Seq<Msg>)
    requires
        !s.exit,
        actor_loop(s, ms) is Some,
    ensures
        ({
            let (u, e, n) = actor_loop(s, ms).unwrap();
            &&& u.exit == (done_count(ms) > 0)
            &&& u.exit ==> {
                &&& 1 <= n <= ms.len()
                &&& ms[n - 1] is Done
                &&& done_count(ms.subrange(0, n as int)) == 1
                &&& sent_out(e).len() >= 1
                &&& sent_out(e).last() is Done
                &&& done_count(sent_out(e)) == 1
            }
            &&& !u.exit ==> n == ms.len() && done_count(sent_out(e)) == 0
        }),
    decreases ms.len(),
{
    let (u, e, n) = actor_loop(s, ms).unwrap();
    if ms.len() == 0 {
        assert(sent_out(Seq::<Effect>::empty()) == Seq::<Msg>::empty());
    } else {
        let (t, e1) = actor_step(s, ms[0]).unwrap();
        let rest = ms.drop_first();
        lemma_step_sends_done(s, ms[0]);
        let (u2, f, n2) = actor_loop(t, rest).unwrap();
        lemma_sent_out_concat(e1, f);
        assert(ms =~= seq![ms[0]] + rest);
        lemma_done_count_concat(seq![ms[0]], rest);
        assert(seq![ms[0]].drop_first() =~= Seq::<Msg>::empty());
        if ms[0] is Done {
            assert(u2 == t && f == Seq::<Effect>::empty() && n2 == 0);
            assert(sent_out(f) == Seq::<Msg>::empty());
            assert(sent_out(e) =~= seq![Msg::Done]);
            assert(ms.subrange(0, 1) =~= seq![ms[0]]);
            let one = seq![Msg::Done];
            assert(one.drop_first() =~= Seq::<Msg>::empty());
        } else {
            lemma_step_sends_done(s, ms[0]);
            lemma_loop_ends_on_done(t, rest);
            lemma_done_count_concat(sent_out(e1), sent_out(f));
            if u.exit {
                assert(ms.subrange(0, n as int) =~= seq![ms[0]] + rest.subrange(0, n2 as int));
                lemma_done_count_concat(seq![ms[0]], rest.subrange(0, n2 as int));
                assert(ms[n - 1] == rest[n2 - 1]);
                assert(sent_out(e).last() == sent_out(f).last());
            }
        }
    }
}

} // verus!

verus! {

/// Bytes below 0x80 at the start of valid UTF-8 are whole characters, so the
/// position after them is a character boundary.
proof fn lemma_ascii_prefix_boundary(b: Seq<u8>, k: int)
    requires
        valid_utf8(b),
        0 <= k <= b.len(),
        forall|i: int| 0 <= i < k ==> b[i] < 0x80,
    ensures
        is_char_boundary(b, k),
    decreases k,
{
    if k > 0 {
        let p = pop_first_scalar(b);
        assert(is_leading_byte_width_1(b[0]));
        assert(length_of_first_scalar(b) == 1);
        assert(p =~= b.subrange(1, b.len() as int));
        assert(valid_utf8(p));
        assert forall|i: int| 0 <= i < k - 1 implies p[i] < 0x80 by {
            assert(p[i] == b[i + 1]);
        }
        lemma_ascii_prefix_boundary(p, k - 1);
    }
}

/// An address whose UTF-8 bytes are longer than four and start with the
/// bytes `http` is loaded as a page, whatever follows those four bytes: the
/// step that handles a fresh actor's first `set_msg` ends by sending the
/// actor a page load of its own address.
pub proof fn lemma_http_address_loads_as_page(s: ActorState)
    requires
        s.setup == 0,
        encode_utf8(s.myurl).len() > 4,
        encode_utf8(s.myurl).subrange(0, 4) == seq![104u8, 116u8, 116u8, 112u8],
    ensures
        actor_step(s, Msg::SetMsg) matches Some((t, e)) && e.len() == 4 && e[3] == Effect::SendSelf(
            Msg::LoadUrl(s.myurl),
        ) && t.setup == 2,
{
    let b = encode_utf8(s.myurl);
    encode_utf8_valid_utf8(s.myurl);
    assert forall|i: int| 0 <= i < 4 implies b[i] < 0x80 by {
        assert(b.subrange(0, 4)[i] == b[i]);
    }
    lemma_ascii_prefix_boundary(b, 4);
}

/// Any other address is loaded as a script file: one of at most four bytes,
/// or one whose first four bytes are whole characters other than `http`.
pub proof fn lemma_other_address_loads_as_script(s: ActorState)
    requires
        s.setup == 0,
        encode_utf8(s.myurl).len() <= 4 || (is_char_boundary(encode_utf8(s.myurl), 4)
            && encode_utf8(s.myurl).subrange(0, 4) != seq![104u8, 116u8, 116u8, 112u8]),
    ensures
        actor_step(s, Msg::SetMsg) matches Some((t, e)) && e.len() == 4 && e[3] == Effect::SendSelf(
            Msg::LoadScript(s.myurl),
        ),
{
}

/// A send request writes exactly the bytes of the message text, on the
/// connection the message names: one write, whose bytes decode back to the
/// text, and nothing else changes.
pub proof fn lemma_send_writes_message_bytes(s: ActorState, m: JsMsg)
    requires
        s.setup != 1,
        m.level == 1,
    ensures
        actor_step(s, Msg::GotMsg(m)) matches Some((t, e)) && t == s && e.len() == 1 && (e[0]
            matches Effect::Write { tag, data } && tag == m.tag && data == encode_utf8(m.message)
            && decode_utf8(data) == m.message),
{
    encode_utf8_decode_utf8(m.message);
}

/// An I/O callback enters a request, sets `_data` to the callback's text,
/// runs the resume code naming the callback's level and tag in full decimal,
/// and leaves the request.
pub proof fn lemma_callback_resumes(s: ActorState, level: u32, tag: u32, timeout: u32, p: u32, buf: Seq<char>)
    requires
        s.setup != 1,
    ensures
        actor_step(s, Msg::IoCb { level, tag, timeout, p, buf }) == Some(
            (
                s,
                seq![
                    Effect::BeginRequest,
                    Effect::SetDataProperty(buf),
                    Effect::Evaluate {
                        source: encode_utf8(
                            "try { _resume("@ + digits(level as nat) + ", _data, "@ + digits(tag as nat)
                                + "); } catch (e) { print(e + '\\n' + e.stack); }; _data = undefined;"@,
                        ),
                        filename: "io"@,
                    },
                    Effect::EndRequest,
                ],
            ),
        ),
{
}

/// Different callbacks run different code: where the code run for two I/O
/// callbacks is the same, so are their levels and tags, so no callback can be
/// taken for another.
pub proof fn lemma_callback_code_identifies_callback(
    s1: ActorState,
    s2: ActorState,
    l1: u32,
    t1: u32,
    l2: u32,
    t2: u32,
    timeout: u32,
    p: u32,
    buf: Seq<char>,
)
    requires
        s1.setup != 1,
        s2.setup != 1,
        actor_step(s1, Msg::IoCb { level: l1, tag: t1, timeout, p, buf }).unwrap().1[2]
            == actor_step(s2, Msg::IoCb { level: l2, tag: t2, timeout, p, buf }).unwrap().1[2],
    ensures
        l1 == l2,
        t1 == t2,
{
    lemma_callback_resumes(s1, l1, t1, timeout, p, buf);
    lemma_callback_resumes(s2, l2, t2, timeout, p, buf);
    let pre = "try { _resume("@;
    let mid = ", _data, "@;
    let post = "); } catch (e) { print(e + '\\n' + e.stack); }; _data = undefined;"@;
    let d1 = digits(l1 as nat);
    let d2 = digits(l2 as nat);
    let e1 = digits(t1 as nat);
    let e2 = digits(t2 as nat);
    let x1 = pre + d1 + mid + e1 + post;
    let x2 = pre + d2 + mid + e2 + post;
    encode_utf8_decode_utf8(x1);
    encode_utf8_decode_utf8(x2);
    assert(x1 == x2);
    reveal_strlit(", _data, ");
    assert(mid[0] == ',');
    crate::decimal::lemma_digits_shape(l1 as nat);
    crate::decimal::lemma_digits_shape(l2 as nat);
    crate::decimal::lemma_digits_shape(t1 as nat);
    crate::decimal::lemma_digits_shape(t2 as nat);
    let n: int = pre.len() as int;
    assert(x1[n + d1.len() as int] == ',');
    assert(x2[n + d2.len() as int] == ',');
    if d1.len() < d2.len() {
        assert(x2[n + d1.len() as int] == d2[d1.len() as int]);
        assert(false);
    }
    if d2.len() < d1.len() {
        assert(x1[n + d2.len() as int] == d1[d2.len() as int]);
        assert(false);
    }
    assert(d1 =~= x1.subrange(n, n + d1.len() as int));
    assert(d2 =~= x2.subrange(n, n + d2.len() as int));
    crate::decimal::lemma_digits_injective(l1 as nat, l2 as nat);
    let start: int = n + d1.len() + mid.len();
    let end: int = x1.len() - post.len();
    assert(e1 =~= x1.subrange(start as int, end as int));
    assert(e2 =~= x2.subrange(start as int, end as int));
    crate::decimal::lemma_digits_injective(t1 as nat, t2 as nat);
}

/// A UTF-8 script file runs with its bytes whole between the wrapper's
/// opening and closing bytes, under its own name, followed by the idle
/// check.
pub proof fn lemma_script_file_runs_whole(path: Seq<char>, b: Seq<u8>)
    requires
        valid_utf8(b),
    ensures
        script_file_effects(path, Some(b)) == Some(
            seq![
                Effect::Evaluate {
                    source: encode_utf8("try { "@) + b + encode_utf8(
                        " } catch (e) { print(e + '\\n' + e.stack); }"@,
                    ),
                    filename: path,
                },
                Effect::Evaluate {
                    source: encode_utf8(
                        "if (XMLHttpRequest.requests_outstanding === 0)  jsrust_exit();"@,
                    ),
                    filename: "io"@,
                },
            ],
        ),
{
    lemma_script_bytes_unchanged(b);
}

} // verus!

verus! {

/// What each script request does, by level: connect to the address the
/// message holds, read, close or start a timer on the connection or timer the
/// message names; print the message prefixed with the actor's id (`[Actor n]`
/// on the output, `[ERROR n]` on the error stream); spawn a child on the
/// script the message names, under the name `id:count`, and count it; levels
/// 7 and 9 do nothing, any other level logs `...`.
pub proof fn lemma_script_requests(s: ActorState, m: JsMsg)
    requires
        s.setup != 1,
    ensures
        m.level == 0 ==> actor_step(s, Msg::GotMsg(m)) == Some(
            (s, seq![Effect::Connect { tag: m.tag, address: m.message }]),
        ),
        m.level == 2 ==> actor_step(s, Msg::GotMsg(m)) == Some(
            (s, seq![Effect::ReadStart { tag: m.tag }]),
        ),
        m.level == 3 ==> actor_step(s, Msg::GotMsg(m)) == Some(
            (s, seq![Effect::CloseConnection { tag: m.tag }]),
        ),
        m.level == 4 ==> actor_step(s, Msg::GotMsg(m)) == Some(
            (
                s,
                seq![
                    Effect::SendOut(
                        Msg::Stdout("[Actor "@ + signed_decimal(s.myid as int) + "] "@ + m.message),
                    ),
                ],
            ),
        ),
        m.level == 5 ==> actor_step(s, Msg::GotMsg(m)) == Some(
            (
                s,
                seq![
                    Effect::SendOut(
                        Msg::Stderr("[ERROR "@ + signed_decimal(s.myid as int) + "] "@ + m.message),
                    ),
                ],
            ),
        ),
        m.level == 6 ==> actor_step(s, Msg::GotMsg(m)) == Some(
            (
                ActorState { childid: s.childid.wrapping_add(1), ..s },
                seq![
                    Effect::SendOut(
                        Msg::Spawn(
                            signed_decimal(s.myid as int) + ":"@ + signed_decimal(s.childid as int),
                            m.message,
                        ),
                    ),
                ],
            ),
        ),
        m.level == 7 || m.level == 9 ==> actor_step(s, Msg::GotMsg(m)) == Some(
            (s, Seq::<Effect>::empty()),
        ),
        m.level == 8 ==> actor_step(s, Msg::GotMsg(m)) == Some(
            (s, seq![Effect::TimerStart { timeout: m.timeout, tag: m.tag }]),
        ),
        m.level > 9 ==> actor_step(s, Msg::GotMsg(m)) == Some(
            (s, seq![Effect::LogError("..."@)]),
        ),
{
}

/// A printed line ends with the script's text, whole.
pub proof fn lemma_printed_text_whole(s: ActorState, m: JsMsg)
    requires
        s.setup != 1,
        m.level == 4 || m.level == 5,
    ensures
        actor_step(s, Msg::GotMsg(m)) matches Some((_, e)) && e.len() == 1 && (e[0] matches Effect::SendOut(
            x,
        ) && ((x matches Msg::Stdout(line) && line.len() >= m.message.len() && line.subrange(
            line.len() - m.message.len(),
            line.len() as int,
        ) == m.message) || (x matches Msg::Stderr(line) && line.len() >= m.message.len()
            && line.subrange(line.len() - m.message.len(), line.len() as int) == m.message))),
{
    let pre = if m.level == 4 {
        "[Actor "@
    } else {
        "[ERROR "@
    };
    let line = pre + signed_decimal(s.myid as int) + "] "@ + m.message;
    assert(line.subrange(line.len() - m.message.len(), line.len() as int) =~= m.message);
}

/// The other messages on an actor's port: a page load sets `_data` to the
/// address and runs the resume code for pages under the name `io`; a script
/// load asks for the script file; `exitproc` stops the I/O; a later
/// `set_msg` only hands over the channel, counting it.
pub proof fn lemma_port_messages(s: ActorState, x: Seq<char>)
    requires
        s.setup != 1,
    ensures
        actor_step(s, Msg::LoadUrl(x)) == Some(
            (
                s,
                seq![
                    Effect::SetDataProperty(x),
                    Effect::Evaluate {
                        source: encode_utf8(
                            "try { _resume(5, _data, 0) } catch (e) { print(e + '\\n' + e.stack) } _data = undefined;"@,
                        ),
                        filename: "io"@,
                    },
                ],
            ),
        ),
        actor_step(s, Msg::LoadScript(x)) == Some((s, seq![Effect::LoadScriptFile(x)])),
        actor_step(s, Msg::ExitProc) == Some((s, seq![Effect::StopIo])),
        s.setup.wrapping_add(1) != 1 ==> actor_step(s, Msg::SetMsg) == Some(
            (ActorState { setup: s.setup.wrapping_add(1), ..s }, seq![Effect::SetMsgChannel]),
        ),
        s.setup == 0 ==> (actor_step(s, Msg::SetMsg) matches Some((t, e)) && e.len() == 4 && e[0]
            == Effect::SetMsgChannel && e[1] == Effect::LoadPrelude("xmlhttprequest.js"@) && e[2]
            == Effect::LoadPrelude("dom.js"@) && t.setup == 2),
        actor_step(s, Msg::Stdout(x)) is None,
        actor_step(s, Msg::Stderr(x)) is None,
        actor_step(s, Msg::Spawn(x, x)) is None,
        actor_step(s, Msg::Cast(x, x)) is None,
{
}

/// A script file that cannot be read is reported by name and ends the
/// process with status 0.
pub proof fn lemma_missing_script_file(path: Seq<char>)
    ensures
        script_file_effects(path, None) == Some(
            seq![Effect::LogError("File not found: "@ + path), Effect::ExitNow(0)],
        ),
{
}

} // verus!

//! The messages that actors, their relays and the supervisor exchange, and
//! their mathematical views.
use vstd::prelude::*;

verus! {

/// A message that a script sends out through the engine's message channel:
/// `level` says what is asked for, `tag` names a connection or timer.
#[derive(Debug)]
pub struct JsRustMessage {
    pub level: u32,
    pub tag: u32,
    pub timeout: u32,
    pub message: String,
}

/// The view of a [`JsRustMessage`].
pub struct JsMsg {
    pub level: u32,
    pub tag: u32,
    pub timeout: u32,
    pub message: Seq<char>,
}

impl View for JsRustMessage {
    type V = JsMsg;

    open spec fn view(&self) -> JsMsg {
        JsMsg { level: self.level, tag: self.tag, timeout: self.timeout, message: self.message@ }
    }
}

/// A message on an actor's port or on the supervisor's port. The channel that
/// `SetMsg` carries stays with the caller that performs the effects.
#[derive(Debug)]
pub enum ChildMessage {
    SetMsg,
    GotMsg(JsRustMessage),
    IoCb { level: u32, tag: u32, timeout: u32, p: u32, buf: String },
    Stdout(String),
    Stderr(String),
    Spawn(String, String),
    Cast(String, String),
    LoadUrl(String),
    LoadScript(String),
    ExitProc,
    Done,
}

/// The view of a [`ChildMessage`].
pub enum Msg {
    SetMsg,
    GotMsg(JsMsg),
    IoCb { level: u32, tag: u32, timeout: u32, p: u32, buf: Seq<char> },
    Stdout(Seq<char>),
    Stderr(Seq<char>),
    Spawn(Seq<char>, Seq<char>),
    Cast(Seq<char>, Seq<char>),
    LoadUrl(Seq<char>),
    LoadScript(Seq<char>),
    ExitProc,
    Done,
}

impl View for ChildMessage {
    type V = Msg;

    open spec fn view(&self) -> Msg {
        match self {
            ChildMessage::SetMsg => Msg::SetMsg,
            ChildMessage::GotMsg(m) => Msg::GotMsg(m@),
            ChildMessage::IoCb { level, tag, timeout, p, buf } => Msg::IoCb {
                level: *level,
                tag: *tag,
                timeout: *timeout,
                p: *p,
                buf: buf@,
            },
            ChildMessage::Stdout(s) => Msg::Stdout(s@),
            ChildMessage::Stderr(s) => Msg::Stderr(s@),
            ChildMessage::Spawn(id, src) => Msg::Spawn(id@, src@),
            ChildMessage::Cast(id, msg) => Msg::Cast(id@, msg@),
            ChildMessage::LoadUrl(u) => Msg::LoadUrl(u@),
            ChildMessage::LoadScript(s) => Msg::LoadScript(s@),
            ChildMessage::ExitProc => Msg::ExitProc,
            ChildMessage::Done => Msg::Done,
        }
    }
}

/// The view of an optional message.
pub open spec fn opt_msg(m: Option<ChildMessage>) -> Option<Msg> {
    match m {
        Some(x) => Some(x@),
        None => None,
    }
}

/// An event from the I/O thread: the request id of the connection or timer
/// it concerns, and for a read the byte count (`-1` once the peer closed)
/// and the bytes read.
#[derive(Debug)]
pub enum IoEvent {
    Connected { req_id: u32 },
    Wrote { req_id: u32 },
    Read { req_id: u32, len: i64, data: Vec<u8> },
    Timer { req_id: u32 },
    Whatever,
    Exit,
}

/// The view of an [`IoEvent`].
pub enum Io {
    Connected { req_id: u32 },
    Wrote { req_id: u32 },
    Read { req_id: u32, len: i64, data: Seq<u8> },
    Timer { req_id: u32 },
    Whatever,
    Exit,
}

impl View for IoEvent {
    type V = Io;

    open spec fn view(&self) -> Io {
        match self {
            IoEvent::Connected { req_id } => Io::Connected { req_id: *req_id },
            IoEvent::Wrote { req_id } => Io::Wrote { req_id: *req_id },
            IoEvent::Read { req_id, len, data } => Io::Read { req_id: *req_id, len: *len, data: data@ },
            IoEvent::Timer { req_id } => Io::Timer { req_id: *req_id },
            IoEvent::Whatever => Io::Whatever,
            IoEvent::Exit => Io::Exit,
        }
    }
}

} // verus!

//! The two relays that run beside each actor: one turns what the script sends
//! through the engine into messages for the actor, the other turns I/O events
//! into `io_cb` callbacks for the actor.
use vstd::prelude::*;
use vstd::utf8::*;
use crate::messages::{ChildMessage, IoEvent, Io, JsMsg, JsRustMessage, Msg, opt_msg};
use crate::text::string_from_utf8;

verus! {

/// Callback level of a finished connect.
pub const CONN: u32 = 0;

/// Callback level of a finished write.
pub const SEND: u32 = 1;

/// Callback level of received data.
pub const RECV: u32 = 2;

/// Callback level of a closed connection.
pub const CLOSE: u32 = 3;

/// Callback level of an expired timer.
pub const TIME: u32 = 8;

/// Level of the script message that ends the actor.
pub const EXIT_LEVEL: u32 = 9;

/// What a relay does with one input: the message it forwards to the actor,
/// if any, and whether it stops afterwards.
#[derive(Debug)]
pub struct Relay {
    pub forward: Option<ChildMessage>,
    pub stop: bool,
}

/// What the script relay does with a script message: a message of level 9
/// becomes `exitproc` and ends the relay, any other one is forwarded as is.
pub open spec fn js_relay(m: JsMsg) -> (Option<Msg>, bool) {
    if m.level == EXIT_LEVEL {
        (Some(Msg::ExitProc), true)
    } else {
        (Some(Msg::GotMsg(m)), false)
    }
}

/// The `io_cb` message of a callback with the given level, tag and text.
pub open spec fn io_callback(level: u32, tag: u32, text: Seq<char>) -> Msg {
    Msg::IoCb { level, tag, timeout: 0, p: 0, buf: text }
}

/// What the I/O relay does with an I/O event, or `None` where received bytes
/// are not UTF-8 and cannot become the callback's text.
pub open spec fn io_relay(e: Io) -> Option<(Option<Msg>, bool)> {
    match e {
        Io::Connected { req_id } => Some((Some(io_callback(CONN, req_id, "onconnect"@)), false)),
        Io::Wrote { req_id } => Some((Some(io_callback(SEND, req_id, "onsend"@)), false)),
        Io::Read { req_id, len, data } => if len == -1 {
            Some((Some(io_callback(CLOSE, req_id, "onclose"@)), false))
        } else if valid_utf8(data) {
            Some((Some(io_callback(RECV, req_id, decode_utf8(data))), false))
        } else {
            None
        },
        Io::Timer { req_id } => Some((Some(io_callback(TIME, req_id, "ontimer"@)), false)),
        Io::Whatever => Some((None, false)),
        Io::Exit => Some((Some(Msg::Done), true)),
    }
}

/// Relays one script message to the actor.
pub fn relay_js_message(msg: JsRustMessage) -> (r: Relay)
    ensures
        (opt_msg(r.forward), r.stop) == js_relay(msg@),
{
    if msg.level == EXIT_LEVEL {
        Relay { forward: Some(ChildMessage::ExitProc), stop: true }
    } else {
        Relay { forward: Some(ChildMessage::GotMsg(msg)), stop: false }
    }
}

/// An `io_cb` message with a callback text.
fn callback(level: u32, tag: u32, text: &str) -> (m: ChildMessage)
    ensures
        m@ == io_callback(level, tag, text@),
{
    ChildMessage::IoCb { level, tag, timeout: 0, p: 0, buf: String::from_str(text) }
}

/// Relays one I/O event to the actor; `None` where the bytes of a read are
/// not UTF-8.
pub fn relay_io_event(event: IoEvent) -> (r: Option<Relay>)
    ensures
        match io_relay(event@) {
            Some((fwd, stop)) => r matches Some(rel) && opt_msg(rel.forward) == fwd && rel.stop
                == stop,
            None => r is None,
        },
{
    match event {
        IoEvent::Connected { req_id } => Some(
            Relay { forward: Some(callback(CONN, req_id, "onconnect")), stop: false },
        ),
        IoEvent::Wrote { req_id } => Some(
            Relay { forward: Some(callback(SEND, req_id, "onsend")), stop: false },
        ),
        IoEvent::Read { req_id, len, data } => {
            if len == -1 {
                Some(Relay { forward: Some(callback(CLOSE, req_id, "onclose")), stop: false })
            } else {
                match string_from_utf8(data) {
                    Some(text) => Some(
                        Relay {
                            forward: Some(
                                ChildMessage::IoCb { level: RECV, tag: req_id, timeout: 0, p: 0, buf: text },
                            ),
                            stop: false,
                        },
                    ),
                    None => None,
                }
            }
        },
        IoEvent::Timer { req_id } => Some(
            Relay { forward: Some(callback(TIME, req_id, "ontimer")), stop: false },
        ),
        IoEvent::Whatever => Some(Relay { forward: None, stop: false }),
        IoEvent::Exit => Some(Relay { forward: Some(ChildMessage::Done), stop: true }),
    }
}

} // verus!

verus! {

/// The messages the script relay forwards for a run of script messages, up
/// to the one that stops it.
pub open spec fn js_relay_run(ms: Seq<JsMsg>) -> Seq<Msg>
    decreases ms.len(),
{
    if ms.len() == 0 {
        Seq::empty()
    } else {
        let (forward, stop) = js_relay(ms[0]);
        let out = match forward {
            Some(m) => seq![m],
            None => Seq::empty(),
        };
        if stop {
            out
        } else {
            out + js_relay_run(ms.drop_first())
        }
    }
}

/// The script relay forwards every message before the first one of the exit
/// level unchanged and in order, then `exitproc`, and nothing after it.
pub proof fn lemma_js_relay_run(ms: Seq<JsMsg>, k: int)
    requires
        0 <= k <= ms.len(),
        forall|i: int| 0 <= i < k ==> (#[trigger] ms[i]).level != EXIT_LEVEL,
        k < ms.len() ==> ms[k].level == EXIT_LEVEL,
    ensures
        js_relay_run(ms) == ms.subrange(0, k).map_values(|m: JsMsg| Msg::GotMsg(m)) + (if k
            < ms.len() {
            seq![Msg::ExitProc]
        } else {
            Seq::<Msg>::empty()
        }),
    decreases ms.len(),
{
    let tail = if k < ms.len() {
        seq![Msg::ExitProc]
    } else {
        Seq::<Msg>::empty()
    };
    if ms.len() == 0 {
        assert(ms.subrange(0, k).map_values(|m: JsMsg| Msg::GotMsg(m)) + tail =~= Seq::<Msg>::empty());
    } else if k == 0 {
        assert(ms.subrange(0, k).map_values(|m: JsMsg| Msg::GotMsg(m)) + tail =~= seq![Msg::ExitProc]);
    } else {
        let rest = ms.drop_first();
        assert forall|i: int| 0 <= i < k - 1 implies (#[trigger] rest[i]).level != EXIT_LEVEL by {
            assert(rest[i] == ms[i + 1]);
        }
        assert(ms[0].level != EXIT_LEVEL);
        lemma_js_relay_run(rest, k - 1);
        assert(ms.subrange(0, k).map_values(|m: JsMsg| Msg::GotMsg(m)) + tail =~= seq![Msg::GotMsg(ms[0])]
            + (rest.subrange(0, k - 1).map_values(|m: JsMsg| Msg::GotMsg(m)) + tail));
    }
}

} // verus!

verus! {

/// Received bytes reach the actor whole: a read of UTF-8 bytes (not the
/// close mark) becomes one receive callback for the same request whose text
/// encodes back to exactly those bytes, and the relay goes on.
pub proof fn lemma_read_relays_bytes_whole(req_id: u32, len: i64, data: Seq<u8>)
    requires
        len != -1,
        valid_utf8(data),
    ensures
        io_relay(Io::Read { req_id, len, data }) matches Some((Some(Msg::IoCb { level, tag, timeout, p, buf }), stop))
            && level == RECV && tag == req_id && timeout == 0 && p == 0 && encode_utf8(buf) == data
            && !stop,
{
    decode_utf8_encode_utf8(data);
}

/// A read that is not UTF-8 cannot be relayed, and the close mark becomes
/// the close callback.
pub proof fn lemma_read_edges(req_id: u32, len: i64, data: Seq<u8>)
    ensures
        len != -1 && !valid_utf8(data) ==> io_relay(Io::Read { req_id, len, data }) is None,
        len == -1 ==> io_relay(Io::Read { req_id, len, data }) == Some(
            (Some(Msg::IoCb { level: CLOSE, tag: req_id, timeout: 0, p: 0, buf: "onclose"@ }), false),
        ),
{
}

} // verus!

verus! {

/// What each other I/O event becomes: a finished connect, write or timer is
/// the callback of level 0, 1 or 8 for the same request, with the texts
/// `onconnect`, `onsend` and `ontimer`; `whatever` forwards nothing; `exit`
/// forwards `done` and stops the relay.
pub proof fn lemma_io_events(req_id: u32)
    ensures
        io_relay(Io::Connected { req_id }) == Some(
            (Some(Msg::IoCb { level: 0, tag: req_id, timeout: 0, p: 0, buf: "onconnect"@ }), false),
        ),
        io_relay(Io::Wrote { req_id }) == Some(
            (Some(Msg::IoCb { level: 1, tag: req_id, timeout: 0, p: 0, buf: "onsend"@ }), false),
        ),
        io_relay(Io::Timer { req_id }) == Some(
            (Some(Msg::IoCb { level: 8, tag: req_id, timeout: 0, p: 0, buf: "ontimer"@ }), false),
        ),
        io_relay(Io::Whatever) == Some((None::<Msg>, false)),
        io_relay(Io::Exit) == Some((Some(Msg::Done), true)),
{
}

/// The script relay passes every message of a level other than 9 on
/// unchanged and goes on; a message of level 9 becomes `exitproc` and stops
/// it.
pub proof fn lemma_js_relay_step(m: JsMsg)
    ensures
        m.level == 9 ==> js_relay(m) == (Some(Msg::ExitProc), true),
        m.level != 9 ==> js_relay(m) == (Some(Msg::GotMsg(m)), false),
{
}

} // verus!

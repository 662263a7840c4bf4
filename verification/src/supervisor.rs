//! The supervisor: it starts one actor per script named on the command line,
//! records the actors that register with it, prints what actors print, starts
//! the actors they spawn, and finishes once every actor it counts is done.
use vstd::prelude::*;
use crate::actor::{ActorState, Effect, child_name, message_step};
use crate::messages::{ChildMessage, JsMsg, Msg};

verus! {

/// The engine heap limit each actor's runtime is created with.
pub const ACTOR_MAX_BYTES: u32 = 32 * 1024 * 1024;

/// Whether the ids are in strictly increasing order (so none occurs twice).
pub open spec fn strictly_increasing(s: Seq<i64>) -> bool {
    forall|i: int, j: int| 0 <= i < j < s.len() ==> s[i] < s[j]
}

/// The ids with `k` added in its place; unchanged when `k` is there already.
pub open spec fn sorted_insert(s: Seq<i64>, k: i64) -> Seq<i64>
    decreases s.len(),
{
    if s.len() == 0 {
        seq![k]
    } else if s[0] == k {
        s
    } else if k < s[0] {
        seq![k] + s
    } else {
        seq![s[0]] + sorted_insert(s.drop_first(), k)
    }
}

/// Registering keeps the registry in strictly increasing order and adds
/// exactly the registered id to the set of ids it holds.
pub proof fn lemma_sorted_insert(s: Seq<i64>, k: i64)
    requires
        strictly_increasing(s),
    ensures
        strictly_increasing(sorted_insert(s, k)),
        sorted_insert(s, k).to_set() == s.to_set().insert(k),
    decreases s.len(),
{
    let r = sorted_insert(s, k);
    if s.len() == 0 {
        assert(r.to_set() =~= s.to_set().insert(k)) by {
            assert forall|x: i64| r.to_set().contains(x) <==> s.to_set().insert(k).contains(x) by {
                if x == k {
                    assert(r[0] == k);
                }
            }
        }
    } else if s[0] == k {
        assert(r.to_set() =~= s.to_set().insert(k)) by {
            assert(s.contains(k)) by {
                assert(s[0] == k);
            }
        }
    } else if k < s[0] {
        assert forall|i: int, j: int| 0 <= i < j < r.len() implies r[i] < r[j] by {
            if i == 0 {
                assert(r[j] == s[j - 1]);
                if j > 1 {
                    assert(s[0] < s[j - 1]);
                }
            } else {
                assert(r[i] == s[i - 1] && r[j] == s[j - 1]);
            }
        }
        assert(r.to_set() =~= s.to_set().insert(k)) by {
            assert forall|x: i64| r.contains(x) <==> (s.contains(x) || x == k) by {
                if r.contains(x) {
                    let i = choose|i: int| 0 <= i < r.len() && r[i] == x;
                    if i > 0 {
                        assert(s[i - 1] == x);
                    }
                }
                if s.contains(x) {
                    let i = choose|i: int| 0 <= i < s.len() && s[i] == x;
                    assert(r[i + 1] == x);
                }
                if x == k {
                    assert(r[0] == k);
                }
            }
        }
    } else {
        let rest = s.drop_first();
        assert(strictly_increasing(rest)) by {
            assert forall|i: int, j: int| 0 <= i < j < rest.len() implies rest[i] < rest[j] by {
                assert(rest[i] == s[i + 1] && rest[j] == s[j + 1]);
            }
        }
        lemma_sorted_insert(rest, k);
        let t = sorted_insert(rest, k);
        assert(r == seq![s[0]] + t);
        assert forall|x: i64| t.contains(x) implies s[0] < x by {
            assert(t.to_set().contains(x));
            if x != k {
                assert(rest.to_set().contains(x));
                let i = choose|i: int| 0 <= i < rest.len() && rest[i] == x;
                assert(s[i + 1] == x);
            }
        }
        assert forall|i: int, j: int| 0 <= i < j < r.len() implies r[i] < r[j] by {
            if i == 0 {
                assert(r[j] == t[j - 1]);
                assert(t.contains(t[j - 1]));
            } else {
                assert(r[i] == t[i - 1] && r[j] == t[j - 1]);
            }
        }
        assert(r.to_set() =~= s.to_set().insert(k)) by {
            assert forall|x: i64| r.contains(x) <==> (s.contains(x) || x == k) by {
                assert(t.to_set().contains(x) == (rest.to_set().contains(x) || x == k));
                if r.contains(x) {
                    let i = choose|i: int| 0 <= i < r.len() && r[i] == x;
                    if i > 0 {
                        assert(t[i - 1] == x);
                        assert(t.contains(x));
                        if x != k {
                            assert(rest.contains(x));
                            let j = choose|j: int| 0 <= j < rest.len() && rest[j] == x;
                            assert(s[j + 1] == x);
                        }
                    }
                }
                if s.contains(x) {
                    let i = choose|i: int| 0 <= i < s.len() && s[i] == x;
                    if i == 0 {
                        assert(r[0] == x);
                    } else {
                        assert(rest[i - 1] == x);
                        assert(rest.contains(x));
                        assert(t.contains(x));
                        let j = choose|j: int| 0 <= j < t.len() && t[j] == x;
                        assert(r[j + 1] == x);
                    }
                }
                if x == k {
                    assert(t.contains(k));
                    let j = choose|j: int| 0 <= j < t.len() && t[j] == k;
                    assert(r[j + 1] == k);
                }
            }
        }
    }
}

/// In a strictly increasing sequence, `sorted_insert` puts `k` at the first
/// position whose id is not below `k`.
proof fn lemma_sorted_insert_at(s: Seq<i64>, k: i64, p: int)
    requires
        strictly_increasing(s),
        0 <= p <= s.len(),
        forall|i: int| 0 <= i < p ==> s[i] < k,
        p < s.len() ==> s[p] >= k,
    ensures
        sorted_insert(s, k) == (if p < s.len() && s[p] == k {
            s
        } else {
            s.insert(p, k)
        }),
    decreases s.len(),
{
    if s.len() == 0 {
        assert(s.insert(p, k) =~= seq![k]);
    } else if p == 0 {
        if s[0] != k {
            assert(s.insert(0, k) =~= seq![k] + s);
        }
    } else {
        let rest = s.drop_first();
        assert(strictly_increasing(rest)) by {
            assert forall|i: int, j: int| 0 <= i < j < rest.len() implies rest[i] < rest[j] by {
                assert(rest[i] == s[i + 1] && rest[j] == s[j + 1]);
            }
        }
        assert forall|i: int| 0 <= i < p - 1 implies rest[i] < k by {
            assert(rest[i] == s[i + 1]);
        }
        lemma_sorted_insert_at(rest, k, p - 1);
        assert(s[0] < k);
        if p < s.len() && s[p] == k {
            assert(seq![s[0]] + rest =~= s);
        } else {
            assert(seq![s[0]] + rest.insert(p - 1, k) =~= s.insert(p, k));
        }
    }
}

/// The abstract state of the supervisor: its count of actors still running,
/// the last actor id it handed out, the ids registered with it (in
/// increasing order) and the registrations it still waits for.
pub struct SupervisorState {
    pub left: i64,
    pub actorid: i64,
    pub ids: Seq<i64>,
    pub pending: nat,
}

/// What holds of every supervisor: the registry is strictly increasing, and
/// its size together with the registrations still awaited is a count that
/// fits in an `i64`.
pub open spec fn well_formed(s: SupervisorState) -> bool {
    strictly_increasing(s.ids) && s.ids.len() + s.pending <= i64::MAX
}

/// What the supervisor does in answer to a message.
#[derive(Debug)]
pub enum SupervisorAction {
    /// Print the text an actor wrote.
    Print(String),
    /// Start a new actor with this id on this script, as the actor named
    /// `name` asked.
    Launch { name: String, id: i64, url: String },
    /// Send `exitproc` to the registered actors with these ids, in this order.
    Broadcast(Vec<i64>),
    /// Every counted actor is done: stop.
    Finish,
    /// Nothing to do.
    Nothing,
}

/// The view of a [`SupervisorAction`].
pub enum SupervisorEffect {
    Print(Seq<char>),
    Launch { name: Seq<char>, id: i64, url: Seq<char> },
    Broadcast(Seq<i64>),
    Finish,
    Nothing,
}

impl View for SupervisorAction {
    type V = SupervisorEffect;

    open spec fn view(&self) -> SupervisorEffect {
        match self {
            SupervisorAction::Print(s) => SupervisorEffect::Print(s@),
            SupervisorAction::Launch { name, id, url } => SupervisorEffect::Launch {
                name: name@,
                id: *id,
                url: url@,
            },
            SupervisorAction::Broadcast(v) => SupervisorEffect::Broadcast(v@),
            SupervisorAction::Finish => SupervisorEffect::Finish,
            SupervisorAction::Nothing => SupervisorEffect::Nothing,
        }
    }
}

/// One step of the supervisor on a message from an actor, or `None` for a
/// message that only an actor's own port may carry.
pub open spec fn supervisor_step(s: SupervisorState, m: Msg) -> Option<
    (SupervisorState, SupervisorEffect),
> {
    match m {
        Msg::Stdout(x) => Some((s, SupervisorEffect::Print(x))),
        Msg::Stderr(x) => Some((s, SupervisorEffect::Print(x))),
        Msg::Spawn(name, src) => {
            let id = s.actorid.wrapping_add(1);
            Some(
                (
                    SupervisorState { left: s.left.wrapping_add(1), actorid: id, ..s },
                    SupervisorEffect::Launch { name, id, url: src },
                ),
            )
        },
        Msg::Cast(_, _) => Some((s, SupervisorEffect::Nothing)),
        Msg::ExitProc => {
            let left = s.left.wrapping_sub(1);
            if left == 0 {
                Some(
                    (
                        SupervisorState { left: s.ids.len() as i64, ..s },
                        SupervisorEffect::Broadcast(s.ids),
                    ),
                )
            } else {
                Some((SupervisorState { left, ..s }, SupervisorEffect::Nothing))
            }
        },
        Msg::Done => {
            let left = s.left.wrapping_sub(1);
            Some(
                (
                    SupervisorState { left, ..s },
                    if left == 0 {
                        SupervisorEffect::Finish
                    } else {
                        SupervisorEffect::Nothing
                    },
                ),
            )
        },
        _ => None,
    }
}

/// The scripts that actors are started on: those named after the program
/// name, or `test.js` when none is named.
pub open spec fn actor_urls(args: Seq<Seq<char>>) -> Seq<Seq<char>> {
    if args.len() == 1 {
        seq!["test.js"@]
    } else {
        args.subrange(1, args.len() as int)
    }
}

/// An actor to start: its id and the script or URL it runs.
#[derive(Debug)]
pub struct Launch {
    pub id: i64,
    pub url: String,
}

/// A message that the supervisor cannot take.
#[derive(Debug)]
pub struct UnexpectedMessage;

/// The supervisor.
pub struct Supervisor {
    left: i64,
    actorid: i64,
    ids: Vec<i64>,
    pending: usize,
}

impl View for Supervisor {
    type V = SupervisorState;

    closed spec fn view(&self) -> SupervisorState {
        SupervisorState {
            left: self.left,
            actorid: self.actorid,
            ids: self.ids@,
            pending: self.pending as nat,
        }
    }
}

impl Supervisor {
    /// Starts one actor per script named in `args` (the first argument is the
    /// program name), with ids counting from 1, and waits for as many
    /// registrations.
    pub fn start(args: &Vec<String>) -> (r: (Supervisor, Vec<Launch>))
        requires
            args.len() >= 1,
            args.len() <= i64::MAX,
        ensures
            ({
                let urls = actor_urls(args@.map_values(|a: String| a@));
                let n = urls.len();
                &&& r.0@ == SupervisorState {
                    left: n as i64,
                    actorid: n as i64,
                    ids: Seq::empty(),
                    pending: n,
                }
                &&& well_formed(r.0@)
                &&& r.1@.len() == n
                &&& forall|i: int| 0 <= i < n ==> #[trigger] r.1@[i].id == i + 1 && r.1@[i].url@ == urls[i]
            }),
    {
        let ghost views = args@.map_values(|a: String| a@);
        let ghost urls = actor_urls(views);
        let mut launches: Vec<Launch> = Vec::new();
        let mut left: i64 = 0;
        if args.len() == 1 {
            launches.push(Launch { id: 1, url: String::from_str("test.js") });
            left = 1;
        } else {
            let mut i: usize = 1;
            while i < args.len()
                invariant
                    1 <= i <= args.len(),
                    args.len() <= i64::MAX,
                    args.len() > 1,
                    views == args@.map_values(|a: String| a@),
                    urls == actor_urls(views),
                    left == i - 1,
                    launches@.len() == i - 1,
                    forall|j: int| 0 <= j < i - 1 ==> #[trigger] launches@[j].id == j + 1 && launches@[j].url@ == urls[j],
                decreases args.len() - i,
            {
                left = left + 1;
                launches.push(Launch { id: left, url: args[i].clone() });
                assert(views[i as int] == args@[i as int]@);
                i = i + 1;
            }
        }
        let pending = launches.len();
        (Supervisor { left, actorid: left, ids: Vec::new(), pending }, launches)
    }

    /// Whether registrations are still awaited.
    pub fn awaiting_registration(&self) -> (r: bool)
        ensures
            r == (self@.pending > 0),
    {
        self.pending > 0
    }

    /// Records the registration of the actor with id `id`.
    pub fn register(&mut self, id: i64)
        requires
            well_formed(old(self)@),
            old(self)@.pending > 0,
        ensures
            well_formed(final(self)@),
            final(self)@ == (SupervisorState {
                ids: sorted_insert(old(self)@.ids, id),
                pending: (old(self)@.pending - 1) as nat,
                ..old(self)@
            }),
    {
        let ghost before = self.ids@;
        let mut p: usize = 0;
        let mut searching = true;
        while searching
            invariant
                0 <= p <= self.ids.len(),
                self.ids@ == before,
                forall|i: int| 0 <= i < p ==> before[i] < id,
                !searching ==> (p < self.ids.len() ==> before[p as int] >= id),
            decreases self.ids.len() - p + (if searching { 1int } else { 0int }),
        {
            if p < self.ids.len() && self.ids[p] < id {
                p = p + 1;
            } else {
                searching = false;
            }
        }
        proof {
            lemma_sorted_insert_at(before, id, p as int);
            lemma_sorted_insert(before, id);
        }
        if !(p < self.ids.len() && self.ids[p] == id) {
            self.ids.insert(p, id);
        }
        self.pending = self.pending - 1;
    }

    /// Answers one message from an actor.
    pub fn handle(&mut self, msg: ChildMessage) -> (r: Result<SupervisorAction, UnexpectedMessage>)
        requires
            well_formed(old(self)@),
        ensures
            well_formed(final(self)@),
            match supervisor_step(old(self)@, msg@) {
                Some((s, e)) => r matches Ok(a) && final(self)@ == s && a@ == e,
                None => r is Err && final(self)@ == old(self)@,
            },
    {
        match msg {
            ChildMessage::Stdout(x) => Ok(SupervisorAction::Print(x)),
            ChildMessage::Stderr(x) => Ok(SupervisorAction::Print(x)),
            ChildMessage::Spawn(name, src) => {
                self.actorid = self.actorid.wrapping_add(1);
                self.left = self.left.wrapping_add(1);
                Ok(SupervisorAction::Launch { name, id: self.actorid, url: src })
            },
            ChildMessage::Cast(_, _) => Ok(SupervisorAction::Nothing),
            ChildMessage::ExitProc => {
                self.left = self.left.wrapping_sub(1);
                if self.left == 0 {
                    let mut targets: Vec<i64> = Vec::new();
                    let mut n: i64 = 0;
                    let mut i: usize = 0;
                    while i < self.ids.len()
                        invariant
                            0 <= i <= self.ids.len(),
                            self.ids@.len() <= i64::MAX,
                            n == i,
                            self.left == 0,
                            targets@ == self.ids@.subrange(0, i as int),
                        decreases self.ids.len() - i,
                    {
                        targets.push(self.ids[i]);
                        n = n + 1;
                        i = i + 1;
                    }
                    assert(targets@ =~= self.ids@);
                    self.left = n;
                    Ok(SupervisorAction::Broadcast(targets))
                } else {
                    Ok(SupervisorAction::Nothing)
                }
            },
            ChildMessage::Done => {
                self.left = self.left.wrapping_sub(1);
                if self.left == 0 {
                    Ok(SupervisorAction::Finish)
                } else {
                    Ok(SupervisorAction::Nothing)
                }
            },
            _ => Err(UnexpectedMessage),
        }
    }
}

} // verus!

verus! {

/// The supervisor's state after a run of messages, or `None` where one of
/// them is refused.
pub open spec fn supervisor_run(s: SupervisorState, ms: Seq<Msg>) -> Option<SupervisorState>
    decreases ms.len(),
{
    if ms.len() == 0 {
        Some(s)
    } else {
        match supervisor_step(s, ms[0]) {
            Some((t, _)) => supervisor_run(t, ms.drop_first()),
            None => None,
        }
    }
}

/// The messages an actor sends the supervisor in ordinary operation.
pub open spec fn from_actor(m: Msg) -> bool {
    m is Stdout || m is Stderr || m is Spawn || m is Cast || m is Done
}

/// The number of spawn requests among the messages.
pub open spec fn count_spawns(ms: Seq<Msg>) -> nat
    decreases ms.len(),
{
    if ms.len() == 0 {
        0
    } else {
        (if ms[0] is Spawn { 1nat } else { 0nat }) + count_spawns(ms.drop_first())
    }
}

/// The number of `done` messages among the messages.
pub open spec fn count_dones(ms: Seq<Msg>) -> nat
    decreases ms.len(),
{
    if ms.len() == 0 {
        0
    } else {
        (if ms[0] is Done { 1nat } else { 0nat }) + count_dones(ms.drop_first())
    }
}

/// The supervisor keeps count of running actors: over a run of ordinary
/// messages (no count wrapping around), its count rises by one per spawned
/// actor and falls by one per finished actor, each spawned actor gets the
/// next id, and the registry does not change.
pub proof fn lemma_supervisor_accounting(s: SupervisorState, ms: Seq<Msg>)
    requires
        forall|i: int| 0 <= i < ms.len() ==> from_actor(#[trigger] ms[i]),
        i64::MIN + ms.len() <= s.left,
        s.left + ms.len() <= i64::MAX,
        s.actorid + ms.len() <= i64::MAX,
    ensures
        supervisor_run(s, ms) == Some(
            SupervisorState {
                left: (s.left + count_spawns(ms) - count_dones(ms)) as i64,
                actorid: (s.actorid + count_spawns(ms)) as i64,
                ..s
            },
        ),
    decreases ms.len(),
{
    if ms.len() > 0 {
        let m = ms[0];
        let rest = ms.drop_first();
        assert(from_actor(ms[0]));
        assert forall|i: int| 0 <= i < rest.len() implies from_actor(#[trigger] rest[i]) by {
            assert(rest[i] == ms[i + 1]);
        }
        let t = supervisor_step(s, m).unwrap().0;
        lemma_supervisor_accounting(t, rest);
    }
}

/// A broadcast of `exitproc` goes to every registered actor, in increasing
/// id order, and resets the count to the number of registered actors.
pub proof fn lemma_broadcast_reaches_registry(s: SupervisorState)
    requires
        well_formed(s),
        s.left.wrapping_sub(1) == 0,
    ensures
        supervisor_step(s, Msg::ExitProc) == Some(
            (
                SupervisorState { left: s.ids.len() as i64, ..s },
                SupervisorEffect::Broadcast(s.ids),
            ),
        ),
        strictly_increasing(s.ids),
{
}

} // verus!

verus! {

/// A script's spawn request reaches the supervisor as one message, and the
/// supervisor answers it by launching one actor, with the next id, on the
/// requested script, under the name of its parent and child count.
pub proof fn lemma_spawn_request_launches(
    a: ActorState,
    m: JsMsg,
    s: SupervisorState,
)
    requires
        m.level == 6,
    ensures
        message_step(a, Msg::GotMsg(m)) == Some(
            (
                ActorState { childid: a.childid.wrapping_add(1), ..a },
                seq![
                    Effect::SendOut(
                        Msg::Spawn(child_name(a.myid, a.childid), m.message),
                    ),
                ],
            ),
        ),
        supervisor_step(s, Msg::Spawn(child_name(a.myid, a.childid), m.message))
            == Some(
            (
                SupervisorState {
                    left: s.left.wrapping_add(1),
                    actorid: s.actorid.wrapping_add(1),
                    ..s
                },
                SupervisorEffect::Launch {
                    name: child_name(a.myid, a.childid),
                    id: s.actorid.wrapping_add(1),
                    url: m.message,
                },
            ),
        ),
{
}

} // verus!

verus! {

/// What the supervisor does with each message: printing passes an actor's
/// text on whole; a cast does nothing; a `done` lowers the count by one and
/// finishes exactly when it reaches zero; messages meant for an actor's own
/// port are refused, leaving nothing changed.
pub proof fn lemma_supervisor_messages(s: SupervisorState, x: Seq<char>, y: Seq<char>)
    ensures
        supervisor_step(s, Msg::Stdout(x)) == Some((s, SupervisorEffect::Print(x))),
        supervisor_step(s, Msg::Stderr(x)) == Some((s, SupervisorEffect::Print(x))),
        supervisor_step(s, Msg::Cast(x, y)) == Some((s, SupervisorEffect::Nothing)),
        supervisor_step(s, Msg::Done) matches Some((t, e)) && t == (SupervisorState {
            left: s.left.wrapping_sub(1),
            ..s
        }) && (e == SupervisorEffect::Finish) == (s.left.wrapping_sub(1) == 0) && (e
            == SupervisorEffect::Finish || e == SupervisorEffect::Nothing),
        supervisor_step(s, Msg::SetMsg) is None,
        supervisor_step(s, Msg::LoadUrl(x)) is None,
        supervisor_step(s, Msg::LoadScript(x)) is None,
{
}

/// The scripts the actors start on are the arguments after the program
/// name, in order, or `test.js` alone when there are none.
pub proof fn lemma_actor_urls(args: Seq<Seq<char>>)
    requires
        args.len() >= 1,
    ensures
        args.len() == 1 ==> actor_urls(args) == seq!["test.js"@],
        args.len() > 1 ==> actor_urls(args).len() == args.len() - 1 && forall|i: int|
            0 <= i < args.len() - 1 ==> #[trigger] actor_urls(args)[i] == args[i + 1],
{
}

} // verus!

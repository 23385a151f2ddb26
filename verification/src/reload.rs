//! Live-reload connections: the registry of browser sessions that receive
//! reload messages, the reactions to websocket frames, the heartbeat timeout
//! and the session server that hands out session ids.
use vstd::prelude::*;
use std::collections::HashMap;
use vstd::std_specs::iter::IteratorSpec;

verus! {

broadcast use vstd::std_specs::hash::group_hash_axioms;

/// How often, in seconds, a heartbeat ping is sent to a client.
pub const HEARTBEAT_INTERVAL_SECS: u64 = 5;

/// How long, in seconds, a client may stay silent before it is dropped.
pub const CLIENT_TIMEOUT_SECS: u64 = 10;

/// What the session server tells its sessions when someone joins.
pub const JOIN_NOTICE: &'static str = "main";

/// What the session server tells its sessions when someone leaves or writes.
pub const LEAVE_NOTICE: &'static str = "Someone disconnected.";

/// What the session server answers to a message.
pub const MESSAGE_REPLY: &'static str = "message";

/// The browser sessions that reload messages go to, in the order in which
/// they joined or were last re-admitted after a send.
pub struct Reload<S> {
    sessions: Vec<S>,
}

/// The sessions that answered a send: the delivered ones, in the order of the
/// outcomes.
pub open spec fn survivors<S>(outcomes: Seq<Option<S>>) -> Seq<S>
    decreases outcomes.len(),
{
    if outcomes.len() == 0 {
        Seq::empty()
    } else {
        let rest = survivors(outcomes.drop_last());
        match outcomes.last() {
            Some(s) => rest.push(s),
            None => rest,
        }
    }
}

impl<S> Reload<S> {
    /// The registered sessions.
    pub closed spec fn members(&self) -> Seq<S> {
        self.sessions@
    }

    /// An empty registry.
    pub fn new() -> (r: Self)
        ensures
            r.members() == Seq::<S>::empty(),
    {
        Reload { sessions: Vec::new() }
    }

    /// Registers a new session after the others.
    pub fn insert(&mut self, session: S)
        ensures
            final(self).members() == old(self).members().push(session),
    {
        self.sessions.push(session);
    }

    /// Takes every session out for a send, leaving the registry empty.
    pub fn take_all(&mut self) -> (r: Vec<S>)
        ensures
            r@ == old(self).members(),
            final(self).members() == Seq::<S>::empty(),
    {
        let mut taken: Vec<S> = Vec::new();
        std::mem::swap(&mut taken, &mut self.sessions);
        taken
    }

    /// Takes back a session that answered a send (`Some`), and drops one that
    /// failed (`None`).
    pub fn readmit(&mut self, outcome: Option<S>)
        ensures
            final(self).members() == (match outcome {
                Some(s) => old(self).members().push(s),
                None => old(self).members(),
            }),
    {
        if let Some(s) = outcome {
            self.sessions.push(s);
        }
    }

    /// Takes back, in order, the sessions that answered a send (`Some`) and
    /// drops those that failed (`None`).
    pub fn readmit_all(&mut self, outcomes: Vec<Option<S>>)
        ensures
            final(self).members() == old(self).members() + survivors(outcomes@),
    {
        let ghost all = outcomes@;
        assert(all.len() == outcomes.len());
        let mut rest = outcomes;
        let mut k: usize = 0;
        assert(all.take(0) =~= Seq::<Option<S>>::empty());
        assert(self.members() =~= old(self).members() + survivors(all.take(0)));
        while rest.len() > 0
            invariant
                k <= all.len(),
                all.len() <= usize::MAX,
                rest@ == all.skip(k as int),
                self.members() == old(self).members() + survivors(all.take(k as int)),
            decreases rest.len(),
        {
            let o = rest.remove(0);
            proof {
                assert(all.take(k + 1).drop_last() =~= all.take(k as int));
                assert(all.take(k + 1).last() == o);
            }
            self.readmit(o);
            k = k + 1;
            assert(rest@ =~= all.skip(k as int));
            assert(self.members() =~= old(self).members() + survivors(all.take(k as int)));
        }
        assert(all.take(k as int) =~= all);
    }

    /// The number of registered sessions.
    pub fn len(&self) -> (r: usize)
        ensures
            r == self.members().len(),
    {
        self.sessions.len()
    }
}

/// Re-admitting the outcomes of a send one after the other leaves exactly the
/// sessions that answered, in the order of their outcomes.
pub proof fn lemma_readmit_step<S>(outcomes: Seq<Option<S>>, next: Option<S>)
    ensures
        survivors(outcomes.push(next)) == (match next {
            Some(s) => survivors(outcomes).push(s),
            None => survivors(outcomes),
        }),
{
    assert(outcomes.push(next).drop_last() =~= outcomes);
}

/// Each delivered session appears among the survivors exactly as often as
/// it was delivered.
pub proof fn lemma_survivors_counts<S>(outcomes: Seq<Option<S>>)
    ensures
        forall|s: S|
            #[trigger] survivors(outcomes).to_multiset().count(s) == outcomes.to_multiset().count(
                Some(s),
            ),
    decreases outcomes.len(),
{
    broadcast use vstd::seq_lib::group_to_multiset_ensures, vstd::multiset::group_multiset_axioms;

    if outcomes.len() == 0 {
        assert(survivors(outcomes) =~= Seq::<S>::empty());
        assert forall|s: S|
            #[trigger] survivors(outcomes).to_multiset().count(s) == outcomes.to_multiset().count(
                Some(s),
            ) by {
            assert(!survivors(outcomes).contains(s));
            assert(!outcomes.contains(Some(s)));
        }
    } else {
        let rest = outcomes.drop_last();
        lemma_survivors_counts(rest);
        assert(rest.push(outcomes.last()) =~= outcomes);
        match outcomes.last() {
            Some(x) => {
                assert(survivors(outcomes) == survivors(rest).push(x));
            },
            None => {
                assert(survivors(outcomes) == survivors(rest));
            },
        }
    }
}

/// A whole send: the registry's sessions `sent` are taken out, each is sent
/// the message, and the outcomes are re-admitted. Afterwards the registry
/// holds exactly the sessions that answered: a session is kept exactly when
/// some outcome delivered it, no session that was not sent to appears, at
/// most as many remain as were sent to, and when every send succeeded every
/// session remains.
pub proof fn lemma_send_keeps_exactly_answerers<S>(sent: Seq<S>, outcomes: Seq<Option<S>>)
    requires
        outcomes.len() == sent.len(),
        forall|i: int| 0 <= i < outcomes.len() && #[trigger] outcomes[i] is Some ==> sent.contains(
            outcomes[i]->0,
        ),
    ensures
        outcomes.len() == 0 ==> survivors(outcomes) == Seq::<S>::empty(),
        forall|s: S|
            #[trigger] survivors(outcomes).to_multiset().count(s) == outcomes.to_multiset().count(
                Some(s),
            ),
        forall|s: S| #[trigger] survivors(outcomes).contains(s) <==> outcomes.contains(Some(s)),
        forall|s: S| #[trigger] survivors(outcomes).contains(s) ==> sent.contains(s),
        survivors(outcomes).len() <= sent.len(),
        (forall|i: int| 0 <= i < outcomes.len() ==> #[trigger] outcomes[i] is Some) ==> survivors(
            outcomes,
        ).len() == sent.len(),
{
    lemma_survivors_members(outcomes);
    lemma_survivors_counts(outcomes);
    lemma_survivors_bounded(outcomes);
    assert forall|s: S| #[trigger] survivors(outcomes).contains(s) implies sent.contains(s) by {
        let k = choose|k: int| 0 <= k < outcomes.len() && outcomes[k] == Some(s);
        assert(outcomes[k] is Some);
    }
}

/// The sessions that answered are exactly the delivered outcomes, and with
/// no failure every outcome answers.
pub proof fn lemma_survivors_members<S>(outcomes: Seq<Option<S>>)
    ensures
        forall|s: S| #[trigger] survivors(outcomes).contains(s) <==> outcomes.contains(Some(s)),
        (forall|i: int| 0 <= i < outcomes.len() ==> #[trigger] outcomes[i] is Some) ==> survivors(
            outcomes,
        ).len() == outcomes.len(),
    decreases outcomes.len(),
{
    if outcomes.len() > 0 {
        let rest = outcomes.drop_last();
        lemma_survivors_members(rest);
        assert forall|s: S| #[trigger] survivors(outcomes).contains(s) <==> outcomes.contains(
            Some(s),
        ) by {
            if outcomes.contains(Some(s)) {
                let k = choose|k: int| 0 <= k < outcomes.len() && outcomes[k] == Some(s);
                if k < rest.len() {
                    assert(rest[k] == Some(s));
                    assert(rest.contains(Some(s)));
                    assert(survivors(rest).contains(s));
                    let j = choose|j: int| 0 <= j < survivors(rest).len() && survivors(rest)[j] == s;
                    assert(survivors(outcomes)[j] == s);
                } else {
                    assert(survivors(outcomes).last() == s);
                }
            }
            if survivors(outcomes).contains(s) {
                let j = choose|j: int| 0 <= j < survivors(outcomes).len() && survivors(outcomes)[j] == s;
                if j < survivors(rest).len() {
                    assert(survivors(rest)[j] == s);
                    assert(survivors(rest).contains(s));
                    assert(rest.contains(Some(s)));
                    let k = choose|k: int| 0 <= k < rest.len() && rest[k] == Some(s);
                    assert(outcomes[k] == Some(s));
                } else {
                    assert(outcomes[outcomes.len() - 1] == Some(s));
                }
            }
        }
        if forall|i: int| 0 <= i < outcomes.len() ==> #[trigger] outcomes[i] is Some {
            assert forall|i: int| 0 <= i < rest.len() implies #[trigger] rest[i] is Some by {
                assert(outcomes[i] is Some);
            }
            assert(outcomes[outcomes.len() - 1] is Some);
        }
    }
}

/// A send never adds sessions: at most as many answer as were sent to, and
/// every session that answered is one of the outcomes.
pub proof fn lemma_survivors_bounded<S>(outcomes: Seq<Option<S>>)
    ensures
        survivors(outcomes).len() <= outcomes.len(),
        forall|i: int|
            0 <= i < survivors(outcomes).len() ==> outcomes.contains(
                Some(#[trigger] survivors(outcomes)[i]),
            ),
    decreases outcomes.len(),
{
    if outcomes.len() > 0 {
        let rest = outcomes.drop_last();
        lemma_survivors_bounded(rest);
        assert forall|i: int|
            0 <= i < survivors(outcomes).len() implies outcomes.contains(
                Some(#[trigger] survivors(outcomes)[i]),
            ) by {
            if i < survivors(rest).len() {
                assert(survivors(outcomes)[i] == survivors(rest)[i]);
                let k = choose|k: int| 0 <= k < rest.len() && rest[k] == Some(survivors(rest)[i]);
                assert(outcomes[k] == rest[k]);
            } else {
                assert(outcomes[outcomes.len() - 1] == outcomes.last());
            }
        }
    }
}

/// A websocket frame, as far as the reload endpoints tell frames apart.
#[derive(Clone, Debug)]
pub enum WsFrame {
    Ping(Vec<u8>),
    Pong,
    Text(String),
    Binary,
    Close,
    Continuation,
    Nop,
}

/// What the relay endpoint does with a frame of its client.
#[derive(Clone, Debug)]
pub enum RelayReaction {
    /// Answer the ping with these bytes; stop if that fails.
    Pong(Vec<u8>),
    /// Send this text to every registered session.
    Relay(String),
    /// Close the connection, passing on the client's close reason when
    /// `with_reason` holds, and stop.
    Close { with_reason: bool },
    /// Note that the client is alive.
    MarkAlive,
    /// Nothing.
    Nothing,
}

/// The relay endpoint's reaction to a frame.
pub open spec fn relay_reaction(frame: WsFrame) -> RelayReaction {
    match frame {
        WsFrame::Ping(b) => RelayReaction::Pong(b),
        WsFrame::Text(s) => RelayReaction::Relay(s),
        WsFrame::Close => RelayReaction::Close { with_reason: true },
        WsFrame::Continuation => RelayReaction::Close { with_reason: false },
        WsFrame::Pong => RelayReaction::MarkAlive,
        _ => RelayReaction::Nothing,
    }
}

/// How the relay endpoint reacts to a frame of its client.
pub fn react_to_frame(frame: WsFrame) -> (r: RelayReaction)
    ensures
        r == relay_reaction(frame),
{
    match frame {
        WsFrame::Ping(bytes) => RelayReaction::Pong(bytes),
        WsFrame::Text(s) => RelayReaction::Relay(s),
        WsFrame::Close => RelayReaction::Close { with_reason: true },
        WsFrame::Continuation => RelayReaction::Close { with_reason: false },
        WsFrame::Pong => RelayReaction::MarkAlive,
        _ => RelayReaction::Nothing,
    }
}

/// How the relay endpoint reacts to a read from its client's stream: `None`
/// when the stream ended, `Err` when a frame could not be read. Either ends
/// the task after closing the connection without a reason.
pub fn react_to_read(read: Option<Result<WsFrame, FrameError>>) -> (r: RelayReaction)
    ensures
        r == (match read {
            Some(Ok(frame)) => relay_reaction(frame),
            _ => RelayReaction::Close { with_reason: false },
        }),
{
    match read {
        Some(Ok(frame)) => react_to_frame(frame),
        _ => RelayReaction::Close { with_reason: false },
    }
}

/// Nanoseconds in a second.
pub const NANOS_PER_SEC: u64 = 1_000_000_000;

/// Silence only grows worse: a client past the timeout at one time is past
/// it at every later time, until it is heard from again.
pub proof fn lemma_timeout_monotone(hb: u64, n1: u64, n2: u64)
    requires
        silent_too_long(hb, n1),
        n1 <= n2,
    ensures
        silent_too_long(hb, n2),
{
}

/// A message of the session server to a session.
#[derive(Clone, Debug)]
pub enum Message {
    /// A message from a peer.
    Msg(String),
    /// Reload the page.
    Reload,
}

/// The text that a session sends its client for a message of the server.
pub fn reply_text(msg: Message) -> (r: String)
    ensures
        r@ == (match msg {
            Message::Msg(s) => s@,
            Message::Reload => "reload"@,
        }),
{
    match msg {
        Message::Reload => String::from_str("reload"),
        Message::Msg(s) => s,
    }
}

/// A frame could not be read from the client.
#[derive(Clone, Copy, Debug, PartialEq, Eq, Structural)]
pub enum FrameError {
    Protocol,
}

/// What a reload session does with a frame read from its client.
#[derive(Clone, Debug)]
pub struct SessionReaction {
    /// Note that the client is alive (its heartbeat is now).
    pub refresh_heartbeat: bool,
    /// Answer a ping with these bytes.
    pub pong: Option<Vec<u8>>,
    /// Close the connection with the client's reason.
    pub close: bool,
    /// Stop the session.
    pub stop: bool,
    /// Report an unexpected binary frame.
    pub unexpected_binary: bool,
}

/// A session's reaction to a frame (or to a frame it could not read).
pub open spec fn session_reaction(frame: Result<WsFrame, FrameError>) -> SessionReaction {
    match frame {
        Err(_) => SessionReaction {
            refresh_heartbeat: false,
            pong: None,
            close: false,
            stop: true,
            unexpected_binary: false,
        },
        Ok(WsFrame::Ping(b)) => SessionReaction {
            refresh_heartbeat: true,
            pong: Some(b),
            close: false,
            stop: false,
            unexpected_binary: false,
        },
        Ok(WsFrame::Pong) | Ok(WsFrame::Text(_)) => SessionReaction {
            refresh_heartbeat: true,
            pong: None,
            close: false,
            stop: false,
            unexpected_binary: false,
        },
        Ok(WsFrame::Binary) => SessionReaction {
            refresh_heartbeat: false,
            pong: None,
            close: false,
            stop: false,
            unexpected_binary: true,
        },
        Ok(WsFrame::Close) => SessionReaction {
            refresh_heartbeat: false,
            pong: None,
            close: true,
            stop: true,
            unexpected_binary: false,
        },
        Ok(WsFrame::Continuation) => SessionReaction {
            refresh_heartbeat: false,
            pong: None,
            close: false,
            stop: true,
            unexpected_binary: false,
        },
        Ok(WsFrame::Nop) => SessionReaction {
            refresh_heartbeat: false,
            pong: None,
            close: false,
            stop: false,
            unexpected_binary: false,
        },
    }
}

/// What each frame asks of a reload session: only a Close frame closes the
/// connection; the session stops on a Close or Continuation frame and on a
/// frame it could not read; only a Ping is answered, with its own bytes; Ping,
/// Pong and Text frames are signs of life; only a Binary frame is reported.
/// A Pong, the client's answer to the heartbeat, refreshes the heartbeat and
/// does nothing else.
pub proof fn lemma_session_reaction_flags(frame: Result<WsFrame, FrameError>)
    ensures
        session_reaction(frame).close <==> (frame matches Ok(WsFrame::Close)),
        session_reaction(frame).stop <==> (frame is Err || frame matches Ok(WsFrame::Close)
            || frame matches Ok(WsFrame::Continuation)),
        session_reaction(frame).pong is Some <==> (frame matches Ok(WsFrame::Ping(_))),
        frame matches Ok(WsFrame::Ping(b)) ==> session_reaction(frame).pong == Some(b),
        session_reaction(frame).refresh_heartbeat <==> (frame matches Ok(WsFrame::Ping(_))
            || frame matches Ok(WsFrame::Pong) || frame matches Ok(WsFrame::Text(_))),
        session_reaction(frame).unexpected_binary <==> (frame matches Ok(WsFrame::Binary)),
        (frame matches Ok(WsFrame::Pong)) ==> (session_reaction(frame).refresh_heartbeat
            && !session_reaction(frame).close && !session_reaction(frame).stop
            && session_reaction(frame).pong is None && !session_reaction(frame).unexpected_binary),
{
}

/// What each frame asks of the relay endpoint: a Ping is answered with its
/// own bytes, a Text is relayed unchanged, a Close closes with the client's
/// reason, a Continuation closes without one, a Pong marks the client alive,
/// and Binary and Nop frames do nothing.
pub proof fn lemma_relay_reaction_cases(frame: WsFrame)
    ensures
        frame matches WsFrame::Ping(b) ==> relay_reaction(frame) == RelayReaction::Pong(b),
        frame matches WsFrame::Text(t) ==> relay_reaction(frame) == RelayReaction::Relay(t),
        (frame matches WsFrame::Close) ==> relay_reaction(frame) == (RelayReaction::Close {
            with_reason: true,
        }),
        (frame matches WsFrame::Continuation) ==> relay_reaction(frame) == (RelayReaction::Close {
            with_reason: false,
        }),
        (frame matches WsFrame::Pong) ==> relay_reaction(frame) == RelayReaction::MarkAlive,
        (frame matches WsFrame::Binary || frame matches WsFrame::Nop) ==> relay_reaction(frame)
            == RelayReaction::Nothing,
{
}

/// How a reload session reacts to what it read from its client.
pub fn react_in_session(frame: Result<WsFrame, FrameError>) -> (r: SessionReaction)
    ensures
        r == session_reaction(frame),
{
    let mut r = SessionReaction {
        refresh_heartbeat: false,
        pong: None,
        close: false,
        stop: false,
        unexpected_binary: false,
    };
    match frame {
        Err(_) => {
            r.stop = true;
        },
        Ok(WsFrame::Ping(bytes)) => {
            r.refresh_heartbeat = true;
            r.pong = Some(bytes);
        },
        Ok(WsFrame::Pong) => {
            r.refresh_heartbeat = true;
        },
        Ok(WsFrame::Text(_)) => {
            r.refresh_heartbeat = true;
        },
        Ok(WsFrame::Binary) => {
            r.unexpected_binary = true;
        },
        Ok(WsFrame::Close) => {
            r.close = true;
            r.stop = true;
        },
        Ok(WsFrame::Continuation) => {
            r.stop = true;
        },
        Ok(WsFrame::Nop) => {},
    }
    r
}

/// The client timeout in nanoseconds.
pub const CLIENT_TIMEOUT_NANOS: u64 = 10_000_000_000;

/// The silence between the heartbeat `hb` and the time `now`, both in
/// nanoseconds on the monotonic clock; a `now` before `hb` counts as no
/// silence, as `Instant::duration_since` saturates.
pub open spec fn silence(hb: u64, now: u64) -> int {
    if now >= hb {
        now - hb
    } else {
        0
    }
}

/// A client last heard from at `hb` is, at `now`, silent for longer than the
/// client timeout.
pub open spec fn silent_too_long(hb: u64, now: u64) -> bool {
    silence(hb, now) > CLIENT_TIMEOUT_SECS * NANOS_PER_SEC
}

/// A client is past the timeout exactly when more than ten seconds have
/// passed since it was last heard from; a time before the last sign of life
/// never is.
pub proof fn lemma_silence_threshold(hb: u64, now: u64)
    ensures
        now >= hb ==> (silent_too_long(hb, now) <==> now - hb > 10_000_000_000),
        now < hb ==> !silent_too_long(hb, now),
        now >= hb && now - hb <= 10_000_000_000 ==> !silent_too_long(hb, now),
{
}

/// What the heartbeat timer does with a session.
#[derive(Clone, Copy, Debug, PartialEq, Eq, Structural)]
pub enum HeartbeatStep {
    /// The client has been silent too long: stop the session.
    Disconnect,
    /// Ping the client.
    Ping,
}

/// The heartbeat step for a client last heard from at `hb`, at time `now`
/// (nanoseconds on the monotonic clock).
pub fn heartbeat_step(hb: u64, now: u64) -> (r: HeartbeatStep)
    ensures
        (r == HeartbeatStep::Disconnect) == silent_too_long(hb, now),
{
    let elapsed = if now >= hb {
        now - hb
    } else {
        0
    };
    if elapsed > CLIENT_TIMEOUT_NANOS {
        HeartbeatStep::Disconnect
    } else {
        HeartbeatStep::Ping
    }
}

/// What the relay endpoint's keep-alive task does after a tick's ping.
#[derive(Clone, Copy, Debug, PartialEq, Eq, Structural)]
pub enum KeepAliveStep {
    /// The ping failed: the task ends.
    Stop,
    /// The client has been silent too long: close the connection and end.
    CloseAndStop,
    /// Wait for the next tick.
    Continue,
}

/// The relay endpoint's keep-alive decision at time `now`, once the tick's
/// ping has been sent: a failed ping ends the task; otherwise a client last
/// heard from at `alive` that has been silent too long is closed.
pub fn keepalive_step(alive: u64, now: u64, ping_ok: bool) -> (r: KeepAliveStep)
    ensures
        !ping_ok ==> r == KeepAliveStep::Stop,
        ping_ok && silent_too_long(alive, now) ==> r == KeepAliveStep::CloseAndStop,
        ping_ok && !silent_too_long(alive, now) ==> r == KeepAliveStep::Continue,
{
    if !ping_ok {
        KeepAliveStep::Stop
    } else if heartbeat_step(alive, now) == HeartbeatStep::Disconnect {
        KeepAliveStep::CloseAndStop
    } else {
        KeepAliveStep::Continue
    }
}

/// A browser session of the reload server: its id, the time its client was
/// last heard from (nanoseconds on the monotonic clock), and the address of
/// the server.
pub struct ReloaderSession<A> {
    pub id: usize,
    pub hb: u64,
    pub addr: A,
}

impl<A> ReloaderSession<A> {
    /// A session that hears from its client at `now`.
    pub fn new(id: usize, addr: A, now: u64) -> (r: Self)
        ensures
            r.id == id,
            r.addr == addr,
            r.hb == now,
    {
        ReloaderSession { id, hb: now, addr }
    }

    /// The heartbeat check at time `now`: the session is stopped exactly when
    /// its client has been silent since `hb` for longer than the client
    /// timeout; otherwise the client is pinged.
    pub fn heartbeat(&self, now: u64) -> (r: HeartbeatStep)
        ensures
            (r == HeartbeatStep::Disconnect) == silent_too_long(self.hb, now),
    {
        heartbeat_step(self.hb, now)
    }

    /// Reacts to what was read from the client at time `now`; where the
    /// reaction says that the client is alive, its heartbeat becomes `now`.
    pub fn handle_frame(&mut self, frame: Result<WsFrame, FrameError>, now: u64) -> (r:
        SessionReaction)
        ensures
            r == session_reaction(frame),
            final(self).id == old(self).id,
            final(self).addr == old(self).addr,
            r.refresh_heartbeat ==> final(self).hb == now,
            !r.refresh_heartbeat ==> final(self).hb == old(self).hb,
    {
        let r = react_in_session(frame);
        if r.refresh_heartbeat {
            self.hb = now;
        }
        r
    }

    /// The reply to a message of the server.
    pub fn handle_message(&mut self, msg: Message) -> (r: String)
        ensures
            r@ == (match msg {
                Message::Msg(s) => s@,
                Message::Reload => "reload"@,
            }),
            final(self).id == old(self).id,
            final(self).hb == old(self).hb,
            final(self).addr == old(self).addr,
    {
        reply_text(msg)
    }

    /// What the session tells the server when it stops.
    pub fn stopping(&self) -> (r: Disconnect)
        ensures
            r.id == self.id,
    {
        Disconnect { id: self.id }
    }
}

/// A session is stopped by the heartbeat only after more than the client
/// timeout without a sign of life, and a frame that refreshes the heartbeat
/// keeps it from being stopped at that time.
pub proof fn lemma_refresh_keeps_alive(hb: u64, now: u64)
    ensures
        !silent_too_long(now, now),
        silent_too_long(hb, now) ==> now > hb,
{
}

/// `rand::rngs::ThreadRng`, the random number generator of the current thread.
#[verifier::external_type_specification]
#[verifier::external_body]
pub struct ExThreadRng(rand::rngs::ThreadRng);

/// `rand::thread_rng`: a handle on the current thread's generator. Nothing is
/// claimed of it. It panics only when the operating system's entropy source
/// fails as the thread's generator is first seeded, a failure of the
/// environment that no argument can exclude.
#[verifier::external_body]
fn thread_rng() -> (r: rand::rngs::ThreadRng) {
    rand::thread_rng()
}

/// `rand::Rng::gen::<usize>` on the thread's generator: a random session id.
/// Nothing is claimed of the number, which rests on chance. Like
/// `thread_rng`, it panics only when the entropy source fails on reseeding.
#[verifier::external_body]
fn random_usize(rng: &mut rand::rngs::ThreadRng) -> (r: usize) {
    rand::Rng::gen::<usize>(rng)
}

/// A new session joins; `addr` is where its messages go.
pub struct Connect<A> {
    pub addr: A,
}

/// The session with this id has left.
#[derive(Clone, Copy, Debug, PartialEq, Eq, Structural)]
pub struct Disconnect {
    pub id: usize,
}

/// A notice of the session server: its text and the ids of the sessions it
/// goes to.
#[derive(Clone, Debug)]
pub struct Notice {
    pub text: String,
    pub recipients: Vec<usize>,
}

/// `n` carries `text` to each session with an id in `ids`, exactly once.
pub open spec fn notice_to_all(n: Notice, text: Seq<char>, ids: Set<usize>) -> bool {
    &&& n.text@ == text
    &&& n.recipients@.to_set() == ids
    &&& n.recipients@.no_duplicates()
}

/// The session server: the sessions by id, and the generator of their ids.
pub struct ReloadServer<R> {
    sessions: HashMap<usize, R>,
    rng: rand::rngs::ThreadRng,
}

impl<R> ReloadServer<R> {
    /// The registered sessions by id.
    pub closed spec fn session_map(&self) -> Map<usize, R> {
        self.sessions@
    }

    /// A server with no session.
    pub fn new() -> (r: Self)
        ensures
            r.session_map() == Map::<usize, R>::empty(),
    {
        ReloadServer { sessions: HashMap::new(), rng: thread_rng() }
    }

    /// Registers a session under a random id and returns the id; a session
    /// that already had that id is replaced.
    pub fn handle_connect(&mut self, msg: Connect<R>) -> (id: usize)
        ensures
            final(self).session_map() == old(self).session_map().insert(id, msg.addr),
    {
        let id = random_usize(&mut self.rng);
        self.sessions.insert(id, msg.addr);
        id
    }

    /// Handles a departure: the session with the departing id leaves the
    /// registry, the others stay as they were.
    pub fn handle_disconnect(&mut self, msg: Disconnect)
        ensures
            final(self).session_map() == old(self).session_map().remove(msg.id),
    {
        let _ = self.sessions.remove(&msg.id);
    }

    /// The notice that sends `message` to every registered session, each
    /// exactly once; the registry is not changed.
    pub fn send_message(&self, message: &str) -> (r: Notice)
        ensures
            notice_to_all(r, message@, self.session_map().dom()),
    {
        Notice { text: String::from_str(message), recipients: self.session_ids() }
    }

    /// Registers a joining session as `handle_connect` does, and returns its
    /// id with the two join notices: the first to the sessions registered
    /// before it, the second to those registered after it, itself included.
    pub fn connect_and_notify(&mut self, msg: Connect<R>) -> (r: (usize, Notice, Notice))
        ensures
            final(self).session_map() == old(self).session_map().insert(r.0, msg.addr),
            notice_to_all(r.1, JOIN_NOTICE@, old(self).session_map().dom()),
            notice_to_all(r.2, JOIN_NOTICE@, final(self).session_map().dom()),
    {
        let before = self.send_message(JOIN_NOTICE);
        let id = self.handle_connect(msg);
        let after = self.send_message(JOIN_NOTICE);
        (id, before, after)
    }

    /// Handles a departure as `handle_disconnect` does, and returns the leave
    /// notice for the sessions that remain.
    pub fn disconnect_and_notify(&mut self, msg: Disconnect) -> (r: Notice)
        ensures
            final(self).session_map() == old(self).session_map().remove(msg.id),
            notice_to_all(r, LEAVE_NOTICE@, final(self).session_map().dom()),
    {
        self.handle_disconnect(msg);
        self.send_message(LEAVE_NOTICE)
    }

    /// Handles a message of a session: the registry stays as it is, every
    /// session is sent the leave notice, and the answer is `message`.
    pub fn handle_message(&mut self, msg: Message) -> (r: (String, Notice))
        ensures
            final(self).session_map() == old(self).session_map(),
            r.0@ == MESSAGE_REPLY@,
            notice_to_all(r.1, LEAVE_NOTICE@, old(self).session_map().dom()),
    {
        (String::from_str(MESSAGE_REPLY), self.send_message(LEAVE_NOTICE))
    }

    /// The ids of the registered sessions, each once, in the map's order.
    pub fn session_ids(&self) -> (r: Vec<usize>)
        ensures
            r@.to_set() == self.session_map().dom(),
            r@.no_duplicates(),
    {
        let ghost keys = vstd::std_specs::hash::spec_keys_iter(&self.sessions).remaining();
        let mut ids: Vec<usize> = Vec::new();
        for k in it: self.sessions.keys()
            invariant
                it.seq() == keys,
                ids@.len() == it.index(),
                forall|i: int| 0 <= i < it.index() ==> ids@[i] == *keys[i],
        {
            ids.push(*k);
        }
        assert(ids@ =~= keys.unref());
        ids
    }

    /// The registered sessions.
    pub fn sessions(&self) -> (r: &HashMap<usize, R>)
        ensures
            r@ == self.session_map(),
    {
        &self.sessions
    }
}

/// On a join, every session registered before gets the join notice twice
/// (once in each notice) and a newcomer under a fresh id gets it once.
pub proof fn lemma_join_notices(before: Notice, after: Notice, old_ids: Set<usize>, id: usize)
    requires
        notice_to_all(before, JOIN_NOTICE@, old_ids),
        notice_to_all(after, JOIN_NOTICE@, old_ids.insert(id)),
    ensures
        forall|k: usize| old_ids.contains(k) ==> #[trigger] before.recipients@.contains(k)
            && after.recipients@.contains(k),
        after.recipients@.contains(id),
        !old_ids.contains(id) ==> !before.recipients@.contains(id),
{
    assert forall|k: usize| old_ids.contains(k) implies #[trigger] before.recipients@.contains(k)
        && after.recipients@.contains(k) by {
        assert(before.recipients@.to_set().contains(k));
        assert(after.recipients@.to_set().contains(k));
    }
    assert(after.recipients@.to_set().contains(id));
    if before.recipients@.contains(id) {
        assert(before.recipients@.to_set().contains(id));
    }
}

/// A joining session is reachable under the id it was given, and every other
/// session keeps its id.
pub proof fn lemma_connect_registers<R>(before: Map<usize, R>, id: usize, addr: R, other: usize)
    requires
        other != id,
    ensures
        before.insert(id, addr).contains_key(id),
        before.insert(id, addr)[id] == addr,
        before.contains_key(other) ==> before.insert(id, addr).contains_key(other)
            && before.insert(id, addr)[other] == before[other],
{
}

} // verus!

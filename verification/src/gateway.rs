//! Rich presence over the Discord gateway, for mobile builds that hold a user token.
//!
//! The session does the minimum needed for presence: IDENTIFY, heartbeat and
//! PRESENCE_UPDATE. The socket, timers and channels live with the caller, which feeds
//! each thing that happens to [`GatewaySession::step`] and performs the action it returns.

use vstd::prelude::*;
use crate::json::{json_string, json_integer, json_quote, json_number, gateway_frame_fields, read_gateway_frame, GatewayFields};
use crate::presence::NowPlaying;
use crate::text::same_text;

verus! {

/// Where the gateway session lives.
pub open spec fn gateway_url() -> Seq<char> {
    "wss://gateway.discord.gg/?v=10&encoding=json"@
}

/// The gateway URL.
pub fn gateway_url_text() -> (r: &'static str)
    ensures
        r@ == gateway_url(),
{
    "wss://gateway.discord.gg/?v=10&encoding=json"
}

// ----------------------------------------------------------------------- frames

/// Opcode 1: heartbeat, with a null sequence number.
pub open spec fn heartbeat_frame() -> Seq<char> {
    "{\"d\":null,\"op\":1}"@
}

/// Opcode 2: IDENTIFY with the user token, presenting as the iOS client.
pub open spec fn identify_frame(token: Seq<char>) -> Seq<char> {
    "{\"d\":{\"capabilities\":30717,\"presence\":{\"afk\":false,\"status\":\"online\"},\"properties\":{\"browser\":\"Discord iOS\",\"device\":\"iOS\",\"os\":\"iOS\"},\"token\":"@
        + json_string(token) + "},\"op\":2}"@
}

/// The activity list of a presence update: one "Listening" activity for a track, or none.
pub open spec fn gateway_activities(np: Option<NowPlaying>) -> Seq<char> {
    match np {
        Some(n) => "{\"details\":"@ + json_string(n.game@) + ",\"name\":\"KHInsider\",\"state\":"@
            + json_string(n.platform@) + ",\"timestamps\":{\"start\":"@ + json_integer(n.started_at)
            + "},\"type\":2}"@,
        None => Seq::empty(),
    }
}

/// Opcode 3: PRESENCE_UPDATE for a track, or clearing the presence (`None`).
pub open spec fn presence_frame(np: Option<NowPlaying>) -> Seq<char> {
    "{\"d\":{\"activities\":["@ + gateway_activities(np) + "],\"afk\":false,\"since\":null,\"status\":\"online\"},\"op\":3}"@
}

/// The heartbeat frame.
pub fn heartbeat_text() -> (r: String)
    ensures
        r@ == heartbeat_frame(),
{
    "{\"d\":null,\"op\":1}".to_owned()
}

/// The IDENTIFY frame for `token`.
pub fn identify_text(token: &str) -> (r: String)
    ensures
        r@ == identify_frame(token@),
{
    let mut s = "{\"d\":{\"capabilities\":30717,\"presence\":{\"afk\":false,\"status\":\"online\"},\"properties\":{\"browser\":\"Discord iOS\",\"device\":\"iOS\",\"os\":\"iOS\"},\"token\":".to_owned();
    let q = json_quote(token);
    s.append(q.as_str());
    s.append("},\"op\":2}");
    s
}

/// The PRESENCE_UPDATE frame for `np` (`None` clears the presence).
pub fn presence_text(np: &Option<NowPlaying>) -> (r: String)
    ensures
        r@ == presence_frame(*np),
{
    let mut s = "{\"d\":{\"activities\":[".to_owned();
    let ghost head = s@;
    match np {
        Some(n) => {
            s.append("{\"details\":");
            s.append(json_quote(n.game.as_str()).as_str());
            s.append(",\"name\":\"KHInsider\",\"state\":");
            s.append(json_quote(n.platform.as_str()).as_str());
            s.append(",\"timestamps\":{\"start\":");
            s.append(json_number(n.started_at).as_str());
            s.append("},\"type\":2}");
        },
        None => {},
    }
    assert(s@ =~= head + gateway_activities(*np));
    s.append("],\"afk\":false,\"since\":null,\"status\":\"online\"},\"op\":3}");
    s
}

// ----------------------------------------------------------------------- session

/// A WebSocket frame as the session sees it.
#[derive(Debug)]
pub enum WsFrame {
    Text(String),
    Close,
    /// Binary, ping, pong or any other non-text frame.
    Other,
}

/// Something that happened while a session is open.
#[derive(Debug)]
pub enum SessionEvent {
    /// A frame was read from the socket.
    Frame(WsFrame),
    /// Reading from the socket failed.
    StreamError(String),
    /// The socket's stream ended.
    StreamEnd,
    /// The heartbeat timer fired.
    HeartbeatTick,
    /// The now-playing value changed; it holds the value now current.
    NowPlayingChanged(Option<NowPlaying>),
    /// The now-playing channel was closed.
    NowPlayingClosed,
    /// The shutdown flag changed; it holds the flag now current.
    ShutdownChanged(bool),
    /// The shutdown channel was closed.
    ShutdownClosed,
}

/// What the caller does next.
#[derive(Debug)]
pub enum SessionAction {
    /// Nothing; wait for the next event.
    Continue,
    /// Send this text frame.
    Send(String),
    /// Start the heartbeat timer with this period in milliseconds (its first,
    /// immediate tick is discarded).
    StartHeartbeat(u64),
    /// Send this text frame, then end the session without error.
    SendAndFinish(String),
    /// End the session with this error.
    Fail(String),
}

/// Where a session stands.
#[derive(Debug, PartialEq, Eq, Structural, Clone, Copy)]
pub enum SessionPhase {
    /// Waiting for the Hello frame (opcode 10) that carries the heartbeat interval.
    AwaitHello,
    /// IDENTIFY sent; waiting for READY (or the invalid-session opcode 9).
    AwaitReady,
    /// Ready: heartbeats and presence updates flow.
    Running,
    /// The session has ended.
    Ended,
}

/// One gateway session, from the socket's opening to its end.
#[derive(Debug)]
pub struct GatewaySession {
    pub phase: SessionPhase,
    pub token: String,
    pub heartbeat_ms: u64,
    /// The now-playing value last sent as a presence update.
    pub last_sent: Option<NowPlaying>,
}

/// The events, with text taken by its view.
pub enum EventModel {
    Text(Seq<char>),
    Close,
    OtherFrame,
    StreamError(Seq<char>),
    StreamEnd,
    HeartbeatTick,
    NowPlayingChanged(Option<NowPlaying>),
    NowPlayingClosed,
    ShutdownChanged(bool),
    ShutdownClosed,
}

/// The actions, with text taken by its view.
pub enum ActionModel {
    Continue,
    Send(Seq<char>),
    StartHeartbeat(u64),
    SendAndFinish(Seq<char>),
    Fail(Seq<char>),
}

/// A session, with text taken by its view.
pub struct SessionModel {
    pub phase: SessionPhase,
    pub token: Seq<char>,
    pub heartbeat_ms: u64,
    pub last_sent: Option<NowPlaying>,
}

impl View for SessionEvent {
    type V = EventModel;

    open spec fn view(&self) -> EventModel {
        match self {
            SessionEvent::Frame(WsFrame::Text(t)) => EventModel::Text(t@),
            SessionEvent::Frame(WsFrame::Close) => EventModel::Close,
            SessionEvent::Frame(WsFrame::Other) => EventModel::OtherFrame,
            SessionEvent::StreamError(e) => EventModel::StreamError(e@),
            SessionEvent::StreamEnd => EventModel::StreamEnd,
            SessionEvent::HeartbeatTick => EventModel::HeartbeatTick,
            SessionEvent::NowPlayingChanged(np) => EventModel::NowPlayingChanged(*np),
            SessionEvent::NowPlayingClosed => EventModel::NowPlayingClosed,
            SessionEvent::ShutdownChanged(b) => EventModel::ShutdownChanged(*b),
            SessionEvent::ShutdownClosed => EventModel::ShutdownClosed,
        }
    }
}

impl View for SessionAction {
    type V = ActionModel;

    open spec fn view(&self) -> ActionModel {
        match self {
            SessionAction::Continue => ActionModel::Continue,
            SessionAction::Send(t) => ActionModel::Send(t@),
            SessionAction::StartHeartbeat(ms) => ActionModel::StartHeartbeat(*ms),
            SessionAction::SendAndFinish(t) => ActionModel::SendAndFinish(t@),
            SessionAction::Fail(e) => ActionModel::Fail(e@),
        }
    }
}

impl View for GatewaySession {
    type V = SessionModel;

    open spec fn view(&self) -> SessionModel {
        SessionModel { phase: self.phase, token: self.token@, heartbeat_ms: self.heartbeat_ms, last_sent: self.last_sent }
    }
}

/// The track of an optional now-playing value.
pub open spec fn track_of(np: Option<NowPlaying>) -> Option<Seq<char>> {
    match np {
        Some(n) => Some(n.track@),
        None => None,
    }
}

/// Error texts of a session's end.
pub open spec fn no_heartbeat_msg() -> Seq<char> { "no heartbeat_interval in Hello"@ }
pub open spec fn rejected_msg() -> Seq<char> { "gateway rejected the session (invalid or revoked token)"@ }
pub open spec fn closed_early_msg() -> Seq<char> { "gateway closed before expected frame"@ }
pub open spec fn closed_msg() -> Seq<char> { "gateway closed the connection"@ }
pub open spec fn channel_closed_msg() -> Seq<char> { "channel closed"@ }

/// The session with another phase.
pub open spec fn with_phase(s: SessionModel, p: SessionPhase) -> SessionModel {
    SessionModel { phase: p, ..s }
}

/// How a session waiting for Hello or READY answers a text frame, given what was read from
/// it (the frame's `op`, `t` and `d.heartbeat_interval`, or the parse error). Waiting for
/// Hello, the frame must carry a heartbeat interval, kept for later and answered by
/// IDENTIFY. Waiting for READY, `t == "READY"` starts the heartbeat, opcode 9 means the
/// token was rejected, anything else is skipped. A parse error ends the session. In the
/// other phases text frames are not read.
pub open spec fn text_frame_next(s: SessionModel, parsed: Result<(Option<u64>, Option<Seq<char>>, Option<u64>), Seq<char>>) -> (SessionModel, ActionModel) {
    match s.phase {
        SessionPhase::AwaitHello => match parsed {
            Err(e) => (with_phase(s, SessionPhase::Ended), ActionModel::Fail(e)),
            Ok((_, _, Some(ms))) => (
                SessionModel { phase: SessionPhase::AwaitReady, heartbeat_ms: ms, ..s },
                ActionModel::Send(identify_frame(s.token)),
            ),
            Ok((_, _, None)) => (with_phase(s, SessionPhase::Ended), ActionModel::Fail(no_heartbeat_msg())),
        },
        SessionPhase::AwaitReady => match parsed {
            Err(e) => (with_phase(s, SessionPhase::Ended), ActionModel::Fail(e)),
            Ok((op, event, _)) => if event == Some("READY"@) {
                (with_phase(s, SessionPhase::Running), ActionModel::StartHeartbeat(s.heartbeat_ms))
            } else if op == Some(9u64) {
                (with_phase(s, SessionPhase::Ended), ActionModel::Fail(rejected_msg()))
            } else {
                (s, ActionModel::Continue)
            },
        },
        _ => (s, ActionModel::Continue),
    }
}

/// How a session answers an event: the session after it and the action to perform.
///
/// Before READY only frames matter: non-text frames are skipped, a read error or the end
/// of the stream ends the session. The first text frame must be Hello with a heartbeat
/// interval, answered by IDENTIFY. Then text frames are read until READY (which starts the
/// heartbeat) or opcode 9 (the token was rejected). Once running, heartbeats are sent on
/// every tick, a presence update is sent whenever the track differs from the last one
/// sent, a shutdown sends a clearing presence update and ends the session, and the socket
/// closing ends it with an error. An ended session ignores everything.
pub open spec fn session_next(s: SessionModel, ev: EventModel) -> (SessionModel, ActionModel) {
    match s.phase {
        SessionPhase::AwaitHello => match ev {
            EventModel::Text(t) => text_frame_next(s, gateway_frame_fields(t)),
            EventModel::StreamError(e) => (with_phase(s, SessionPhase::Ended), ActionModel::Fail(e)),
            EventModel::StreamEnd => (with_phase(s, SessionPhase::Ended), ActionModel::Fail(closed_early_msg())),
            _ => (s, ActionModel::Continue),
        },
        SessionPhase::AwaitReady => match ev {
            EventModel::Text(t) => text_frame_next(s, gateway_frame_fields(t)),
            EventModel::StreamError(e) => (with_phase(s, SessionPhase::Ended), ActionModel::Fail(e)),
            EventModel::StreamEnd => (with_phase(s, SessionPhase::Ended), ActionModel::Fail(closed_early_msg())),
            _ => (s, ActionModel::Continue),
        },
        SessionPhase::Running => match ev {
            EventModel::HeartbeatTick => (s, ActionModel::Send(heartbeat_frame())),
            EventModel::NowPlayingChanged(np) => if track_of(np) != track_of(s.last_sent) {
                (SessionModel { last_sent: np, ..s }, ActionModel::Send(presence_frame(np)))
            } else {
                (s, ActionModel::Continue)
            },
            EventModel::ShutdownChanged(true) => (with_phase(s, SessionPhase::Ended), ActionModel::SendAndFinish(presence_frame(None))),
            EventModel::ShutdownChanged(false) => (s, ActionModel::Continue),
            EventModel::NowPlayingClosed => (with_phase(s, SessionPhase::Ended), ActionModel::Fail(channel_closed_msg())),
            EventModel::ShutdownClosed => (with_phase(s, SessionPhase::Ended), ActionModel::Fail(channel_closed_msg())),
            EventModel::Close => (with_phase(s, SessionPhase::Ended), ActionModel::Fail(closed_msg())),
            EventModel::StreamEnd => (with_phase(s, SessionPhase::Ended), ActionModel::Fail(closed_msg())),
            EventModel::StreamError(e) => (with_phase(s, SessionPhase::Ended), ActionModel::Fail(e)),
            EventModel::Text(_) => (s, ActionModel::Continue),
            EventModel::OtherFrame => (s, ActionModel::Continue),
        },
        SessionPhase::Ended => (s, ActionModel::Continue),
    }
}

/// Whether two optional now-playing values carry the same track.
pub fn same_track(a: &Option<NowPlaying>, b: &Option<NowPlaying>) -> (r: bool)
    ensures
        r == (track_of(*a) == track_of(*b)),
{
    match (a, b) {
        (Some(x), Some(y)) => x.track == y.track,
        (None, None) => true,
        _ => false,
    }
}

impl GatewaySession {
    /// A session on a freshly opened socket, identifying with `token`.
    pub fn new(token: String) -> (r: Self)
        ensures
            r@ == (SessionModel { phase: SessionPhase::AwaitHello, token: token@, heartbeat_ms: 0, last_sent: None }),
    {
        GatewaySession { phase: SessionPhase::AwaitHello, token, heartbeat_ms: 0, last_sent: None }
    }

    fn end_with(&mut self, msg: String) -> (a: SessionAction)
        ensures
            final(self)@ == with_phase(old(self)@, SessionPhase::Ended),
            a@ == ActionModel::Fail(msg@),
    {
        self.phase = SessionPhase::Ended;
        SessionAction::Fail(msg)
    }

    /// Answers a text frame read while waiting for Hello or READY, given what was read from
    /// it; see [`text_frame_next`].
    pub fn apply_text_frame(&mut self, parsed: Result<GatewayFields, String>) -> (a: SessionAction)
        ensures
            (final(self)@, a@) == text_frame_next(old(self)@, match parsed {
                Ok(f) => Ok(f.fields()),
                Err(e) => Err(e@),
            }),
    {
        match self.phase {
            SessionPhase::AwaitHello => match parsed {
                Err(e) => self.end_with(e),
                Ok(f) => match f.heartbeat_interval {
                    Some(ms) => {
                        self.phase = SessionPhase::AwaitReady;
                        self.heartbeat_ms = ms;
                        SessionAction::Send(identify_text(self.token.as_str()))
                    },
                    None => self.end_with("no heartbeat_interval in Hello".to_owned()),
                },
            },
            SessionPhase::AwaitReady => match parsed {
                Err(e) => self.end_with(e),
                Ok(f) => {
                    let is_ready = match &f.event {
                        Some(name) => same_text(name.as_str(), "READY"),
                        None => false,
                    };
                    if is_ready {
                        self.phase = SessionPhase::Running;
                        SessionAction::StartHeartbeat(self.heartbeat_ms)
                    } else if f.op == Some(9u64) {
                        self.end_with("gateway rejected the session (invalid or revoked token)".to_owned())
                    } else {
                        SessionAction::Continue
                    }
                },
            },
            _ => SessionAction::Continue,
        }
    }

    /// Answers one event: updates the session and returns the action to perform.
    pub fn step(&mut self, ev: SessionEvent) -> (a: SessionAction)
        ensures
            (final(self)@, a@) == session_next(old(self)@, ev@),
    {
        match self.phase {
            SessionPhase::AwaitHello | SessionPhase::AwaitReady => match ev {
                SessionEvent::Frame(WsFrame::Text(t)) => {
                    let parsed = read_gateway_frame(t.as_str());
                    self.apply_text_frame(parsed)
                },
                SessionEvent::StreamError(e) => self.end_with(e),
                SessionEvent::StreamEnd => self.end_with("gateway closed before expected frame".to_owned()),
                _ => SessionAction::Continue,
            },
            SessionPhase::Running => match ev {
                SessionEvent::HeartbeatTick => SessionAction::Send(heartbeat_text()),
                SessionEvent::NowPlayingChanged(np) => {
                    if !same_track(&np, &self.last_sent) {
                        let frame = presence_text(&np);
                        self.last_sent = np;
                        SessionAction::Send(frame)
                    } else {
                        SessionAction::Continue
                    }
                },
                SessionEvent::ShutdownChanged(flag) => {
                    if flag {
                        self.phase = SessionPhase::Ended;
                        SessionAction::SendAndFinish(presence_text(&None))
                    } else {
                        SessionAction::Continue
                    }
                },
                SessionEvent::NowPlayingClosed => self.end_with("channel closed".to_owned()),
                SessionEvent::ShutdownClosed => self.end_with("channel closed".to_owned()),
                SessionEvent::Frame(WsFrame::Close) => self.end_with("gateway closed the connection".to_owned()),
                SessionEvent::StreamEnd => self.end_with("gateway closed the connection".to_owned()),
                SessionEvent::StreamError(e) => self.end_with(e),
                SessionEvent::Frame(WsFrame::Text(_)) => SessionAction::Continue,
                SessionEvent::Frame(WsFrame::Other) => SessionAction::Continue,
            },
            SessionPhase::Ended => SessionAction::Continue,
        }
    }
}

// ----------------------------------------------------------------------- laws

/// A track change carrying the same track as the last one sent sends nothing, so
/// While running, a presence update goes out exactly when the reported track differs from
/// the track of the value last sent: a new track is sent (and becomes the last sent) even
/// when the game or the platform is the same; the same track again sends nothing, even
/// when its other fields changed; nothing playing clears the presence.
pub proof fn lemma_update_exactly_on_new_track(s: SessionModel, a: NowPlaying, b: NowPlaying)
    requires
        s.phase == SessionPhase::Running,
        s.last_sent == Some(a),
    ensures
        a.track@ != b.track@ ==> session_next(s, EventModel::NowPlayingChanged(Some(b)))
            == (SessionModel { last_sent: Some(b), ..s }, ActionModel::Send(presence_frame(Some(b)))),
        a.track@ == b.track@ ==> session_next(s, EventModel::NowPlayingChanged(Some(b)))
            == (s, ActionModel::Continue),
        session_next(s, EventModel::NowPlayingChanged(None))
            == (SessionModel { last_sent: None, ..s }, ActionModel::Send(presence_frame(None))),
{
}

/// reporting the same track twice in a row sends one presence update.
pub proof fn lemma_same_track_sent_once(s: SessionModel, np1: Option<NowPlaying>, np2: Option<NowPlaying>)
    requires
        s.phase == SessionPhase::Running,
        track_of(np1) == track_of(np2),
    ensures
        ({
            let (s1, _) = session_next(s, EventModel::NowPlayingChanged(np1));
            let (s2, a2) = session_next(s1, EventModel::NowPlayingChanged(np2));
            &&& a2 == ActionModel::Continue
            &&& s2 == s1
        }),
{
}

/// While running, after a track change the last track sent is the reported one, and a
/// presence update is sent exactly when that track differs from the previous one.
pub proof fn lemma_change_updates_last_sent(s: SessionModel, np: Option<NowPlaying>)
    requires
        s.phase == SessionPhase::Running,
    ensures
        ({
            let (s1, a) = session_next(s, EventModel::NowPlayingChanged(np));
            &&& s1.phase == SessionPhase::Running
            &&& track_of(s1.last_sent) == track_of(np)
            &&& (a == ActionModel::Send(presence_frame(np)) <==> track_of(np) != track_of(s.last_sent))
            &&& (a == ActionModel::Continue <==> track_of(np) == track_of(s.last_sent))
        }),
{
}

/// A shutdown while running clears the presence and ends the session without error;
/// an ended session then does nothing, whatever happens.
pub proof fn lemma_shutdown_clears_then_silence(s: SessionModel, ev: EventModel)
    requires
        s.phase == SessionPhase::Running,
    ensures
        ({
            let (s1, a) = session_next(s, EventModel::ShutdownChanged(true));
            let (s2, a2) = session_next(s1, ev);
            &&& a == ActionModel::SendAndFinish(presence_frame(None))
            &&& s1.phase == SessionPhase::Ended
            &&& a2 == ActionModel::Continue
            &&& s2 == s1
        }),
{
}

/// Before READY nothing but IDENTIFY is sent: waiting for Hello, an event either does
/// nothing, ends the session, or sends IDENTIFY with the session's token; waiting for
/// READY, it does nothing, ends the session, or starts the heartbeat.
pub proof fn lemma_handshake_order(s: SessionModel, ev: EventModel)
    ensures
        s.phase == SessionPhase::AwaitHello ==> {
            let (s1, a) = session_next(s, ev);
            ||| a == ActionModel::Continue && s1 == s
            ||| a is Fail && s1.phase == SessionPhase::Ended
            ||| a == ActionModel::Send(identify_frame(s.token)) && s1.phase == SessionPhase::AwaitReady
        },
        s.phase == SessionPhase::AwaitReady ==> {
            let (s1, a) = session_next(s, ev);
            ||| a == ActionModel::Continue && s1 == s
            ||| a is Fail && s1.phase == SessionPhase::Ended
            ||| a == ActionModel::StartHeartbeat(s.heartbeat_ms) && s1.phase == SessionPhase::Running
        },
{
}

/// The heartbeat period started at READY is the interval that Hello announced.
pub proof fn lemma_heartbeat_period_from_hello(
    s: SessionModel,
    hello: Seq<char>,
    ready: Seq<char>,
    op: Option<u64>,
    ev: Option<Seq<char>>,
    ms: u64,
    op2: Option<u64>,
    hb2: Option<u64>,
)
    requires
        s.phase == SessionPhase::AwaitHello,
        gateway_frame_fields(hello) == Ok::<_, Seq<char>>((op, ev, Some(ms))),
        gateway_frame_fields(ready) == Ok::<_, Seq<char>>((op2, Some("READY"@), hb2)),
    ensures
        ({
            let (s1, a1) = session_next(s, EventModel::Text(hello));
            let (s2, a2) = session_next(s1, EventModel::Text(ready));
            &&& a1 == ActionModel::Send(identify_frame(s.token))
            &&& a2 == ActionModel::StartHeartbeat(ms)
            &&& s2.phase == SessionPhase::Running
        }),
{
}

/// The session sends nothing but IDENTIFY (with its own token), heartbeats and presence
/// updates.
pub proof fn lemma_only_presence_frames(s: SessionModel, ev: EventModel)
    ensures
        ({
            let (_, a) = session_next(s, ev);
            forall|t: Seq<char>| (a == ActionModel::Send(t) || a == ActionModel::SendAndFinish(t)) ==> {
                ||| t == identify_frame(s.token)
                ||| t == heartbeat_frame()
                ||| exists|np: Option<NowPlaying>| t == presence_frame(np)
            }
        }),
{
    let (_, a) = session_next(s, ev);
    assert forall|t: Seq<char>| (a == ActionModel::Send(t) || a == ActionModel::SendAndFinish(t)) implies {
        ||| t == identify_frame(s.token)
        ||| t == heartbeat_frame()
        ||| exists|np: Option<NowPlaying>| t == presence_frame(np)
    } by {
        if s.phase == SessionPhase::Running {
            match ev {
                EventModel::NowPlayingChanged(np) => {
                    assert(t == identify_frame(s.token) || t == heartbeat_frame() || t == presence_frame(np));
                },
                EventModel::ShutdownChanged(_) => {
                    assert(t == presence_frame(None));
                },
                _ => {},
            }
        }
    }
}

/// While running, every heartbeat tick sends the heartbeat frame and changes nothing.
pub proof fn lemma_tick_sends_heartbeat(s: SessionModel)
    requires
        s.phase == SessionPhase::Running,
    ensures
        session_next(s, EventModel::HeartbeatTick) == (s, ActionModel::Send(heartbeat_frame())),
{
}

// ----------------------------------------------------------------------- reconnecting

/// What the reconnecting loop does next.
#[derive(Debug)]
pub enum SupervisorAction {
    /// Leave the loop.
    Stop,
    /// Open a socket and run a session.
    RunSession,
    /// Wait this many milliseconds, then check again.
    RetryAfterMs(u64),
}

/// Pause between a session's end and the next attempt.
pub open spec fn reconnect_delay_ms() -> u64 {
    5000
}

/// The reconnecting loop around sessions: a requested shutdown leaves the loop, checked
/// both before a session starts and after one ends; otherwise a session is run, and after
/// it ends (with or without error) the loop waits five seconds and checks again.
pub fn supervise(session_ended: bool, shutdown_requested: bool) -> (a: SupervisorAction)
    ensures
        shutdown_requested ==> a is Stop,
        !shutdown_requested && !session_ended ==> a is RunSession,
        !shutdown_requested && session_ended ==> a == SupervisorAction::RetryAfterMs(reconnect_delay_ms()),
{
    if shutdown_requested {
        SupervisorAction::Stop
    } else if session_ended {
        SupervisorAction::RetryAfterMs(5000)
    } else {
        SupervisorAction::RunSession
    }
}

// ----------------------------------------------------------------------- presence handle

/// The handle the app keeps for gateway presence: the token of the running loop, the
/// latest now-playing value the sessions publish, and whether a shutdown can be signalled.
#[derive(Debug)]
pub struct GatewayPresence {
    pub token: Option<String>,
    pub now_playing: Option<NowPlaying>,
    pub shutdown_armed: bool,
}

/// A gateway presence handle, with the token taken by its view.
pub struct HandleModel {
    pub token: Option<Seq<char>>,
    pub now_playing: Option<NowPlaying>,
    pub shutdown_armed: bool,
}

impl View for GatewayPresence {
    type V = HandleModel;

    open spec fn view(&self) -> HandleModel {
        HandleModel { token: crate::json::opt_text(self.token), now_playing: self.now_playing, shutdown_armed: self.shutdown_armed }
    }
}

/// Starting a loop with `token`: the token is kept and a fresh shutdown signal armed.
pub open spec fn handle_start(h: HandleModel, token: Seq<char>) -> HandleModel {
    HandleModel { token: Some(token), shutdown_armed: true, ..h }
}

/// Stopping: the token is dropped and the signal disarmed; the flag says whether a
/// shutdown goes out to a running loop.
pub open spec fn handle_stop(h: HandleModel) -> (HandleModel, bool) {
    (HandleModel { token: None, shutdown_armed: false, ..h }, h.shutdown_armed)
}

/// Publishing a now-playing value.
pub open spec fn handle_update(h: HandleModel, np: Option<NowPlaying>) -> HandleModel {
    HandleModel { now_playing: np, ..h }
}

impl GatewayPresence {
    /// No token, nothing playing, no loop running.
    pub fn new() -> (r: Self)
        ensures
            r@ == (HandleModel { token: None, now_playing: None, shutdown_armed: false }),
    {
        GatewayPresence { token: None, now_playing: None, shutdown_armed: false }
    }

    /// Takes the token for a new reconnecting loop (which the caller spawns) and arms a
    /// fresh shutdown signal for it; a previous signal is replaced without being sent.
    pub fn start(&mut self, token: String)
        ensures
            final(self)@ == handle_start(old(self)@, token@),
    {
        self.token = Some(token);
        self.shutdown_armed = true;
    }

    /// Forgets the token and disarms the shutdown signal; returns whether the shutdown
    /// must be sent to a running loop.
    pub fn stop(&mut self) -> (send_shutdown: bool)
        ensures
            (final(self)@, send_shutdown) == handle_stop(old(self)@),
    {
        let armed = self.shutdown_armed;
        self.shutdown_armed = false;
        self.token = None;
        armed
    }

    /// Publishes a new now-playing value (or none) to the sessions.
    pub fn update(&mut self, np: Option<NowPlaying>)
        ensures
            final(self)@ == handle_update(old(self)@, np),
    {
        self.now_playing = np;
    }
}

/// Stopping after a start signals the started loop and leaves no token; a second stop
/// signals nothing. Publishing a track leaves the loop's token and signal as they were.
pub proof fn lemma_start_stop_signals_once(h: HandleModel, token: Seq<char>, np: Option<NowPlaying>)
    ensures
        handle_stop(handle_start(h, token)).1,
        handle_stop(handle_start(h, token)).0.token is None,
        !handle_stop(handle_stop(h).0).1,
        handle_update(h, np).token == h.token,
        handle_update(h, np).shutdown_armed == h.shutdown_armed,
        handle_update(h, np).now_playing == np,
{
}

} // verus!

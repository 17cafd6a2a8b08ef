use khinsider_app::gateway::{supervise, SupervisorAction, GatewayPresence, gateway_url_text, GatewaySession, SessionAction, SessionEvent, SessionPhase, WsFrame, heartbeat_text, identify_text, presence_text};
use khinsider_app::presence::NowPlaying;
use khinsider_app::json::GatewayFields;

fn np(track: &str) -> NowPlaying {
    NowPlaying { track: track.to_string(), game: "Chrono Trigger".to_string(), platform: "SNES".to_string(), started_at: 1700000000000 }
}

fn text(s: &str) -> SessionEvent {
    SessionEvent::Frame(WsFrame::Text(s.to_string()))
}

#[test]
fn heartbeat_frame_text() {
    assert_eq!(heartbeat_text(), "{\"d\":null,\"op\":1}");
}

#[test]
fn identify_frame_text() {
    assert_eq!(
        identify_text("tok\"en"),
        "{\"d\":{\"capabilities\":30717,\"presence\":{\"afk\":false,\"status\":\"online\"},\"properties\":{\"browser\":\"Discord iOS\",\"device\":\"iOS\",\"os\":\"iOS\"},\"token\":\"tok\\\"en\"},\"op\":2}"
    );
}

#[test]
fn presence_frame_text() {
    assert_eq!(
        presence_text(&Some(np("Wind Scene"))),
        "{\"d\":{\"activities\":[{\"details\":\"Chrono Trigger\",\"name\":\"KHInsider\",\"state\":\"SNES\",\"timestamps\":{\"start\":1700000000000},\"type\":2}],\"afk\":false,\"since\":null,\"status\":\"online\"},\"op\":3}"
    );
    assert_eq!(
        presence_text(&None),
        "{\"d\":{\"activities\":[],\"afk\":false,\"since\":null,\"status\":\"online\"},\"op\":3}"
    );
}

#[test]
fn session_handshake_and_dedupe() {
    let mut s = GatewaySession::new("abc".to_string());
    assert!(matches!(s.step(SessionEvent::Frame(WsFrame::Other)), SessionAction::Continue));
    match s.step(text("{\"op\":10,\"d\":{\"heartbeat_interval\":41250}}")) {
        SessionAction::Send(f) => assert_eq!(f, identify_text("abc")),
        _ => panic!("expected IDENTIFY"),
    }
    assert!(s.phase == SessionPhase::AwaitReady);
    assert!(matches!(s.step(text("{\"op\":0,\"t\":\"SESSIONS_REPLACE\"}")), SessionAction::Continue));
    assert!(matches!(s.step(text("{\"op\":0,\"t\":\"READY\",\"d\":{}}")), SessionAction::StartHeartbeat(41250)));
    assert!(s.phase == SessionPhase::Running);
    match s.step(SessionEvent::NowPlayingChanged(Some(np("A")))) {
        SessionAction::Send(f) => assert_eq!(f, presence_text(&Some(np("A")))),
        _ => panic!("expected a presence update"),
    }
    assert!(matches!(s.step(SessionEvent::NowPlayingChanged(Some(np("A")))), SessionAction::Continue));
    match s.step(SessionEvent::HeartbeatTick) {
        SessionAction::Send(f) => assert_eq!(f, heartbeat_text()),
        _ => panic!("expected a heartbeat"),
    }
    match s.step(SessionEvent::ShutdownChanged(true)) {
        SessionAction::SendAndFinish(f) => assert_eq!(f, presence_text(&None)),
        _ => panic!("expected a clearing update"),
    }
    assert!(s.phase == SessionPhase::Ended);
    assert!(matches!(s.step(SessionEvent::HeartbeatTick), SessionAction::Continue));
}

#[test]
fn hello_without_interval_fails() {
    let mut s = GatewaySession::new("abc".to_string());
    match s.step(text("{\"op\":10,\"d\":{}}")) {
        SessionAction::Fail(e) => assert_eq!(e, "no heartbeat_interval in Hello"),
        _ => panic!("expected a failure"),
    }
    assert!(s.phase == SessionPhase::Ended);
}

#[test]
fn invalid_json_fails() {
    let mut s = GatewaySession::new("abc".to_string());
    match s.step(text("{oops")) {
        SessionAction::Fail(e) => assert_eq!(e, serde_json::from_str::<serde_json::Value>("{oops").unwrap_err().to_string()),
        _ => panic!("expected a failure"),
    }
}

#[test]
fn rejected_token_fails() {
    let mut s = GatewaySession::new("abc".to_string());
    s.step(text("{\"op\":10,\"d\":{\"heartbeat_interval\":1000}}"));
    match s.step(text("{\"op\":9,\"d\":false}")) {
        SessionAction::Fail(e) => assert_eq!(e, "gateway rejected the session (invalid or revoked token)"),
        _ => panic!("expected a failure"),
    }
}

#[test]
fn stream_end_before_ready_fails() {
    let mut s = GatewaySession::new("abc".to_string());
    match s.step(SessionEvent::StreamEnd) {
        SessionAction::Fail(e) => assert_eq!(e, "gateway closed before expected frame"),
        _ => panic!("expected a failure"),
    }
    let mut s = GatewaySession::new("abc".to_string());
    match s.step(SessionEvent::StreamError("reset".to_string())) {
        SessionAction::Fail(e) => assert_eq!(e, "reset"),
        _ => panic!("expected a failure"),
    }
}

fn running() -> GatewaySession {
    let mut s = GatewaySession::new("abc".to_string());
    s.step(text("{\"op\":10,\"d\":{\"heartbeat_interval\":1000}}"));
    s.step(text("{\"t\":\"READY\",\"op\":0}"));
    assert!(s.phase == SessionPhase::Running);
    s
}

#[test]
fn running_session_endings() {
    let mut s = running();
    assert!(matches!(s.step(text("{\"t\":\"PRESENCE_UPDATE\"}")), SessionAction::Continue));
    assert!(matches!(s.step(SessionEvent::ShutdownChanged(false)), SessionAction::Continue));
    match s.step(SessionEvent::Frame(WsFrame::Close)) {
        SessionAction::Fail(e) => assert_eq!(e, "gateway closed the connection"),
        _ => panic!("expected a failure"),
    }
    let mut s = running();
    match s.step(SessionEvent::StreamEnd) {
        SessionAction::Fail(e) => assert_eq!(e, "gateway closed the connection"),
        _ => panic!("expected a failure"),
    }
    let mut s = running();
    assert!(matches!(s.step(SessionEvent::NowPlayingClosed), SessionAction::Fail(_)));
    let mut s = running();
    assert!(matches!(s.step(SessionEvent::ShutdownClosed), SessionAction::Fail(_)));
}

#[test]
fn clearing_then_same_track_is_sent_again() {
    let mut s = running();
    assert!(matches!(s.step(SessionEvent::NowPlayingChanged(None)), SessionAction::Continue));
    assert!(matches!(s.step(SessionEvent::NowPlayingChanged(Some(np("A")))), SessionAction::Send(_)));
    assert!(matches!(s.step(SessionEvent::NowPlayingChanged(None)), SessionAction::Send(_)));
    assert!(matches!(s.step(SessionEvent::NowPlayingChanged(Some(np("A")))), SessionAction::Send(_)));
    // Same track, other game: not sent again.
    let mut other = np("A");
    other.game = "Other".to_string();
    assert!(matches!(s.step(SessionEvent::NowPlayingChanged(Some(other))), SessionAction::Continue));
}

#[test]
fn supervisor_decisions() {
    assert!(matches!(supervise(false, true), SupervisorAction::Stop));
    assert!(matches!(supervise(true, true), SupervisorAction::Stop));
    assert!(matches!(supervise(false, false), SupervisorAction::RunSession));
    assert!(matches!(supervise(true, false), SupervisorAction::RetryAfterMs(5000)));
}

#[test]
fn presence_handle() {
    assert_eq!(gateway_url_text(), "wss://gateway.discord.gg/?v=10&encoding=json");
    let mut h = GatewayPresence::new();
    assert!(!h.stop());
    h.start("tok".to_string());
    assert_eq!(h.token.as_deref(), Some("tok"));
    h.update(Some(np("A")));
    assert_eq!(h.now_playing.as_ref().unwrap().track, "A");
    assert!(h.stop());
    assert!(h.token.is_none());
    assert!(!h.stop());
}

#[test]
fn text_frames_given_their_fields() {
    let mut s = GatewaySession::new("abc".to_string());
    let hello = GatewayFields { op: Some(10), event: None, heartbeat_interval: Some(45000) };
    match s.apply_text_frame(Ok(hello)) {
        SessionAction::Send(f) => assert_eq!(f, identify_text("abc")),
        _ => panic!("expected IDENTIFY"),
    }
    assert_eq!(s.heartbeat_ms, 45000);
    let other = GatewayFields { op: Some(0), event: Some("GUILD_CREATE".to_string()), heartbeat_interval: None };
    assert!(matches!(s.apply_text_frame(Ok(other)), SessionAction::Continue));
    // READY wins over an invalid-session opcode in the same frame.
    let ready = GatewayFields { op: Some(9), event: Some("READY".to_string()), heartbeat_interval: None };
    assert!(matches!(s.apply_text_frame(Ok(ready)), SessionAction::StartHeartbeat(45000)));
    // Once running, text frames are not read.
    assert!(matches!(s.apply_text_frame(Err("bad".to_string())), SessionAction::Continue));
    let mut t = GatewaySession::new("abc".to_string());
    match t.apply_text_frame(Err("expected value at line 1 column 1".to_string())) {
        SessionAction::Fail(e) => assert_eq!(e, "expected value at line 1 column 1"),
        _ => panic!("expected a failure"),
    }
}

#[test]
fn frames_are_what_serde_json_writes() {
    for f in [identify_text("t\u{e9}\n\"x\""), presence_text(&Some(np("A"))), presence_text(&None), heartbeat_text()] {
        assert_eq!(serde_json::from_str::<serde_json::Value>(&f).unwrap().to_string(), f);
    }
}

use khinsider_app::headless::{
    delete_body_text, read_session_reply_with, first_push_attempt, next_push_attempt, push_error_text, read_session_reply, session_body_text, ApiErr,
    PostAttempt, PushStage, SessionWorker, SyncAction, WorkerEvent, WorkerStep,
};
use khinsider_app::presence::Presence;

fn presence(paused: bool, image: Option<&str>, image_text: Option<&str>, start: Option<i64>, end: Option<i64>) -> Presence {
    Presence {
        details: "Track - Game".to_string(),
        state: "Publisher".to_string(),
        image: image.map(|s| s.to_string()),
        image_text: image_text.map(|s| s.to_string()),
        paused,
        url: Some("https://downloads.khinsider.com/x".to_string()),
        start,
        end,
    }
}

fn reserialized(s: &str) -> String {
    serde_json::from_str::<serde_json::Value>(s).unwrap().to_string()
}

#[test]
fn session_body_full() {
    let p = presence(false, Some("https://img/x.jpg"), Some("Album"), Some(1000), Some(5000));
    let body = session_body_text("123", "android", None, &p, true);
    assert_eq!(
        body,
        "{\"activities\":[{\"application_id\":\"123\",\"assets\":{\"large_image\":\"https://img/x.jpg\",\"large_text\":\"Album\"},\"details\":\"Track - Game\",\"name\":\"KHInsider\",\"platform\":\"android\",\"state\":\"Publisher\",\"timestamps\":{\"end\":5000,\"start\":1000},\"type\":2}]}"
    );
    // Byte for byte what serde_json itself writes for the same value.
    assert_eq!(reserialized(&body), body);
}

#[test]
fn session_body_paused_without_assets_with_token() {
    let p = presence(true, Some("https://img/x.jpg"), None, Some(1000), Some(5000));
    let body = session_body_text("123", "ios", Some("sess-1"), &p, false);
    assert_eq!(
        body,
        "{\"activities\":[{\"application_id\":\"123\",\"details\":\"Track - Game\",\"name\":\"KHInsider\",\"platform\":\"ios\",\"state\":\"Paused - Publisher\",\"type\":2}],\"token\":\"sess-1\"}"
    );
    assert_eq!(reserialized(&body), body);
}

#[test]
fn session_body_partial_assets_and_start_only() {
    let p = presence(false, None, Some("Album \"1\""), Some(-5), None);
    let body = session_body_text("9", "android", None, &p, true);
    assert_eq!(
        body,
        "{\"activities\":[{\"application_id\":\"9\",\"assets\":{\"large_text\":\"Album \\\"1\\\"\"},\"details\":\"Track - Game\",\"name\":\"KHInsider\",\"platform\":\"android\",\"state\":\"Publisher\",\"timestamps\":{\"start\":-5},\"type\":2}]}"
    );
    assert_eq!(reserialized(&body), body);
    // No image and no text: no assets member even when asked for.
    let q = presence(false, None, None, None, Some(9));
    let body = session_body_text("9", "android", None, &q, true);
    assert_eq!(
        body,
        "{\"activities\":[{\"application_id\":\"9\",\"details\":\"Track - Game\",\"name\":\"KHInsider\",\"platform\":\"android\",\"state\":\"Publisher\",\"type\":2}]}"
    );
}

#[test]
fn delete_body() {
    assert_eq!(delete_body_text("sess-1"), "{\"token\":\"sess-1\"}");
}

#[test]
fn session_replies() {
    let body = |t: &str| Some(t.to_string());
    assert_eq!(read_session_reply(200, body("{\"token\":\"abc\"}")).unwrap(), "abc");
    let e = read_session_reply(400, body("{\"message\":\"bad image\"}")).unwrap_err();
    assert_eq!((e.status, e.msg.as_str()), (400, "{\"message\":\"bad image\"}"));
    let e = read_session_reply(299, body("{\"id\":1}")).unwrap_err();
    assert_eq!((e.status, e.msg.as_str()), (0, "response has no session token"));
    let e = read_session_reply(201, body("{\"token\":5}")).unwrap_err();
    assert_eq!((e.status, e.msg.as_str()), (0, "response has no session token"));
    let e = read_session_reply(200, body("not json")).unwrap_err();
    assert_eq!((e.status, e.msg.as_str()), (0, "error decoding response body"));
    let e = read_session_reply(200, None).unwrap_err();
    assert_eq!((e.status, e.msg.as_str()), (0, "error decoding response body"));
    let e = read_session_reply(300, body("moved")).unwrap_err();
    assert_eq!((e.status, e.msg.as_str()), (300, "moved"));
    let e = read_session_reply(503, None).unwrap_err();
    assert_eq!((e.status, e.msg.as_str()), (503, ""));
}

#[test]
fn no_response_errors() {
    let e = ApiErr::no_response("not logged in".to_string());
    assert_eq!((e.status, e.msg.as_str()), (0, "not logged in"));
    assert!(next_push_attempt(PushStage::First, &presence(false, Some("i"), None, None, None), e.status).is_none());
}

#[test]
fn push_error_message() {
    assert_eq!(push_error_text(&ApiErr { status: 401, msg: "Unauthorized".to_string() }), "401 Unauthorized");
    assert_eq!(push_error_text(&ApiErr { status: 0, msg: "not logged in".to_string() }), "0 not logged in");
    assert_eq!(push_error_text(&ApiErr { status: 65535, msg: String::new() }), "65535 ");
}

#[test]
fn retry_policy() {
    let with_image = presence(false, Some("i"), None, None, None);
    let without = presence(false, None, None, None, None);
    assert!(first_push_attempt() == PostAttempt { with_assets: true, force_refresh: false });
    // 400 with an image: retry without assets, then a 401 refreshes with assets.
    let (a, st) = next_push_attempt(PushStage::First, &with_image, 400).unwrap();
    assert!(a == PostAttempt { with_assets: false, force_refresh: false } && st == PushStage::AssetsDropped);
    let (a, st) = next_push_attempt(st, &with_image, 401).unwrap();
    assert!(a == PostAttempt { with_assets: true, force_refresh: true } && st == PushStage::Refreshed);
    assert!(next_push_attempt(st, &with_image, 401).is_none());
    // 400 without an image: nothing.
    assert!(next_push_attempt(PushStage::First, &without, 400).is_none());
    // 401 first: refresh, assets only with an image.
    let (a, _) = next_push_attempt(PushStage::First, &without, 401).unwrap();
    assert!(a == PostAttempt { with_assets: false, force_refresh: true });
    assert!(next_push_attempt(PushStage::AssetsDropped, &with_image, 400).is_none());
    assert!(next_push_attempt(PushStage::First, &with_image, 500).is_none());
}

#[test]
fn worker_sync_and_exit() {
    let mut w = SessionWorker::new(0);
    assert!(matches!(w.sync(&None), SyncAction::Nothing));
    let p = presence(false, None, None, None, None);
    match w.sync(&Some(p.clone())) {
        SyncAction::PushSession(None, q) => assert_eq!(q.details, p.details),
        _ => panic!("expected a push creating a session"),
    }
    w.push_finished(Ok("s1".to_string()));
    match w.on_event(WorkerEvent::Tick, &Some(p.clone()), 10) {
        WorkerStep::Sync(SyncAction::PushSession(Some(t), _)) => assert_eq!(t, "s1"),
        _ => panic!("expected an update of s1"),
    }
    w.push_finished(Err("500 oops".to_string()));
    assert_eq!(w.session.as_deref(), Some("s1"));
    match w.on_event(WorkerEvent::Changed, &None, 20) {
        WorkerStep::Sync(SyncAction::DeleteSession(t)) => assert_eq!(t, "s1"),
        _ => panic!("expected a delete"),
    }
    assert!(matches!(w.sync(&None), SyncAction::Nothing));
    w.push_finished(Ok("s2".to_string()));
    match w.on_event(WorkerEvent::Stop, &None, 30) {
        WorkerStep::Exit(Some(t)) => assert_eq!(t, "s2"),
        _ => panic!("expected an exit deleting s2"),
    }
    assert!(matches!(w.on_event(WorkerEvent::ChannelClosed, &None, 40), WorkerStep::Exit(None)));
}

#[test]
fn session_replies_given_their_parse() {
    let body = |t: &str| Some(t.to_string());
    assert_eq!(read_session_reply_with(200, body("ignored"), Ok(Some("t".to_string()))).unwrap(), "t");
    let e = read_session_reply_with(204, body(""), Ok(None)).unwrap_err();
    assert_eq!((e.status, e.msg.as_str()), (0, "response has no session token"));
    let e = read_session_reply_with(200, body("x"), Err("EOF while parsing".to_string())).unwrap_err();
    assert_eq!((e.status, e.msg.as_str()), (0, "error decoding response body"));
    let e = read_session_reply_with(200, None, Ok(Some("t".to_string()))).unwrap_err();
    assert_eq!((e.status, e.msg.as_str()), (0, "error decoding response body"));
    let e = read_session_reply_with(401, body("Unauthorized"), Ok(Some("t".to_string()))).unwrap_err();
    assert_eq!((e.status, e.msg.as_str()), (401, "Unauthorized"));
    let e = read_session_reply_with(199, body("early"), Ok(Some("t".to_string()))).unwrap_err();
    assert_eq!((e.status, e.msg.as_str()), (199, "early"));
    let e = read_session_reply_with(500, None, Ok(None)).unwrap_err();
    assert_eq!((e.status, e.msg.as_str()), (500, ""));
}

#[test]
fn keepalive_schedule() {
    // The first tick is due at once; a tick pushes the next one ten minutes out; a change
    // syncs without moving it.
    let mut w = SessionWorker::new(1_000);
    assert_eq!((w.keepalive_due_ms, w.last_sync_ms), (1_000, 1_000));
    let p = presence(false, None, None, None, None);
    assert!(matches!(w.on_event(WorkerEvent::Started, &Some(p.clone()), 1_000), WorkerStep::Sync(_)));
    assert!(matches!(w.on_event(WorkerEvent::Tick, &Some(p.clone()), 1_002), WorkerStep::Sync(_)));
    assert_eq!((w.keepalive_due_ms, w.last_sync_ms), (601_002, 1_002));
    assert!(matches!(w.on_event(WorkerEvent::Changed, &None, 300_000), WorkerStep::Sync(_)));
    assert_eq!((w.keepalive_due_ms, w.last_sync_ms), (601_002, 300_000));
    // A late tick is not made up: the next one is a full period after it.
    assert!(matches!(w.on_event(WorkerEvent::Tick, &None, 700_000), WorkerStep::Sync(_)));
    assert_eq!((w.keepalive_due_ms, w.last_sync_ms), (1_300_000, 700_000));
    assert!(matches!(w.on_event(WorkerEvent::Stop, &None, 800_000), WorkerStep::Exit(None)));
    assert_eq!((w.keepalive_due_ms, w.last_sync_ms), (1_300_000, 700_000));
    // Near the end of the clock the deadline is held at its maximum.
    let mut w = SessionWorker::new(u64::MAX - 5);
    w.on_event(WorkerEvent::Tick, &None, u64::MAX - 5);
    assert_eq!(w.keepalive_due_ms, u64::MAX);
}

#[test]
fn an_update_posts_at_most_three_times() {
    let with_image = presence(false, Some("i"), None, None, None);
    for s1 in [200u16, 400, 401, 500] {
        for s2 in [200u16, 400, 401, 500] {
            for s3 in [400u16, 401] {
                let mut posts = 1;
                let mut stage = PushStage::First;
                for status in [s1, s2, s3] {
                    match next_push_attempt(stage, &with_image, status) {
                        Some((_, next)) => {
                            posts += 1;
                            stage = next;
                        }
                        None => break,
                    }
                }
                assert!(posts <= 3);
            }
        }
    }
}

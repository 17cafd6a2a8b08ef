use khinsider_app::oauth::{authorize_url_from, login_scope_text, AccessPlan, OauthPresence, TokenResponse, Tokens, token_endpoint, sessions_endpoint, delete_session_endpoint, keepalive_period_secs, token_reply, status_display_text};

const VERIFIER: &str = "dBjftJeZ4CVP-mB92K27uhbUJU1p1r_wW1gFWFOEjXk";
const CHALLENGE: &str = "E9Melhoa2OwvFrEMTJguCHaoeK1t8URWbuGJSstw-cM";

fn pairs(v: &[(&str, &str)]) -> Vec<(String, String)> {
    v.iter().map(|(k, x)| (k.to_string(), x.to_string())).collect()
}

fn login_in_progress() -> OauthPresence {
    let mut p = OauthPresence::new("123".to_string(), None);
    p.begin_login_with(VERIFIER.to_string(), "xyz".to_string());
    p
}

fn response(access: &str, refresh: &str, expires_in: i64) -> TokenResponse {
    TokenResponse { access_token: access.to_string(), refresh_token: refresh.to_string(), expires_in }
}

#[test]
fn new_presence_derives_redirect_uri() {
    let p = OauthPresence::new("1551290011939512440".to_string(), Some("/data/discord_oauth.json".to_string()));
    assert_eq!(p.client_id(), "1551290011939512440");
    assert_eq!(p.redirect_uri(), "discord-1551290011939512440:/authorize/callback");
    assert_eq!(p.store_path().as_deref(), Some("/data/discord_oauth.json"));
    assert!(!p.is_logged_in());
    assert!(!p.worker_running());
}

#[test]
fn endpoints() {
    assert_eq!(token_endpoint(), "https://discord.com/api/v10/oauth2/token");
    assert_eq!(sessions_endpoint(), "https://discord.com/api/v10/users/@me/headless-sessions");
    assert_eq!(delete_session_endpoint(), "https://discord.com/api/v10/users/@me/headless-sessions/delete");
    assert_eq!(keepalive_period_secs(), 600);
}

#[test]
fn authorize_url_with_given_verifier() {
    let mut p = OauthPresence::new("123".to_string(), None);
    let url = p.begin_login_with(VERIFIER.to_string(), "xyz".to_string());
    assert_eq!(
        url,
        format!(
            "https://discord.com/oauth2/authorize?client_id=123&response_type=code&redirect_uri=discord-123%3A%2Fauthorize%2Fcallback&scope=openid%20sdk.social_layer_presence&state=xyz&code_challenge={}&code_challenge_method=S256",
            CHALLENGE
        )
    );
}

#[test]
fn login_roundtrip_succeeds_with_matching_state() {
    let mut p = login_in_progress();
    let form = p.finish_login("discord-123:/authorize/callback?code=C0DE&state=xyz".to_string()).unwrap();
    assert_eq!(
        form,
        pairs(&[
            ("client_id", "123"),
            ("grant_type", "authorization_code"),
            ("code", "C0DE"),
            ("redirect_uri", "discord-123:/authorize/callback"),
            ("code_verifier", VERIFIER),
        ])
    );
    // The login in progress was consumed.
    assert_eq!(
        p.finish_login("discord-123:/authorize/callback?code=C0DE&state=xyz".to_string()),
        Err("no login in progress (start it from the app again)".to_string())
    );
}

#[test]
fn login_with_random_verifier_roundtrip() {
    let mut p = OauthPresence::new("123".to_string(), None);
    let url = p.begin_login();
    let parsed = url::Url::parse(&url).unwrap();
    let state: String = parsed.query_pairs().find(|(k, _)| k == "state").unwrap().1.into_owned();
    let challenge: String = parsed.query_pairs().find(|(k, _)| k == "code_challenge").unwrap().1.into_owned();
    assert_eq!(state.len(), 22); // 16 bytes, base64 without padding
    assert_eq!(challenge.len(), 43); // 32-byte digest
    let form = p.finish_login(format!("discord-123:/authorize/callback?state={}&code=abc", state)).unwrap();
    assert_eq!(form[2], ("code".to_string(), "abc".to_string()));
    assert_eq!(form[4].1.len(), 43); // 32 random bytes, base64 without padding
    let url_safe = |t: &str| t.chars().all(|c| c.is_ascii_alphanumeric() || c == '-' || c == '_');
    assert!(url_safe(&state) && url_safe(&form[4].1));
    assert_eq!(khinsider_app::codec::pkce_challenge(&form[4].1), challenge);
}

#[test]
fn state_mismatch_consumes_login() {
    let mut p = login_in_progress();
    assert_eq!(
        p.finish_login("discord-123:/authorize/callback?code=C0DE&state=other".to_string()),
        Err("login state mismatch, please try again".to_string())
    );
    assert_eq!(
        p.finish_login("discord-123:/authorize/callback?code=C0DE&state=xyz".to_string()),
        Err("no login in progress (start it from the app again)".to_string())
    );
}

#[test]
fn missing_state_is_a_mismatch() {
    let mut p = login_in_progress();
    assert_eq!(
        p.finish_login("discord-123:/authorize/callback?code=C0DE".to_string()),
        Err("login state mismatch, please try again".to_string())
    );
}

#[test]
fn reported_error_keeps_login() {
    let mut p = login_in_progress();
    assert_eq!(
        p.finish_login("discord-123:/authorize/callback?error=access_denied&error_description=The+user+denied&state=xyz".to_string()),
        Err("Discord: access_denied".to_string())
    );
    assert_eq!(
        p.finish_login("discord-123:/authorize/callback?error_description=first&error=second".to_string()),
        Err("Discord: first".to_string())
    );
    // Still in progress.
    assert!(p.finish_login("discord-123:/authorize/callback?code=C&state=xyz".to_string()).is_ok());
}

#[test]
fn missing_code_keeps_login() {
    let mut p = login_in_progress();
    assert_eq!(
        p.finish_login("discord-123:/authorize/callback?state=xyz".to_string()),
        Err("callback has no code".to_string())
    );
    assert!(p.finish_login("discord-123:/authorize/callback?code=C&state=xyz".to_string()).is_ok());
}

#[test]
fn last_code_and_state_win() {
    let mut p = login_in_progress();
    let form = p
        .finish_login("discord-123:/authorize/callback?code=one&state=bad&code=two&state=xyz".to_string())
        .unwrap();
    assert_eq!(form[2].1, "two");
}

#[test]
fn no_login_in_progress() {
    let mut p = OauthPresence::new("123".to_string(), None);
    assert_eq!(
        p.finish_login("discord-123:/authorize/callback?code=C&state=s".to_string()),
        Err("no login in progress (start it from the app again)".to_string())
    );
}

#[test]
fn bad_callback_url() {
    let mut p = login_in_progress();
    let r = p.finish_login("not a url".to_string());
    assert_eq!(r, Err(format!("bad callback URL: {}", url::Url::parse("not a url").unwrap_err())));
    assert!(p.finish_login("discord-123:/authorize/callback?code=C&state=xyz".to_string()).is_ok());
}

#[test]
fn complete_login_keeps_tokens_and_starts_worker() {
    let mut p = login_in_progress();
    let (kept, stop_previous) = p.complete_login(Ok(response("acc", "ref", 604800)), 1_000).unwrap();
    assert_eq!(kept.access_token, "acc");
    assert_eq!(kept.refresh_token, "ref");
    assert_eq!(kept.expires_at, 605_800);
    assert!(!stop_previous);
    assert!(p.is_logged_in());
    assert!(p.worker_running());
    assert_eq!(p.complete_login(Err("Discord token error 400 Bad Request: {}".to_string()), 1_000).unwrap_err(), "Discord token error 400 Bad Request: {}");
    // A second worker replaces the first one.
    assert!(p.start_worker());
}

#[test]
fn access_token_policy() {
    let mut p = OauthPresence::new("123".to_string(), None);
    assert_eq!(p.access_token(false, 0).err(), Some("not logged in".to_string()));
    p.store_tokens(response("acc", "ref", 3600), 10_000);
    match p.access_token(false, 13_539).unwrap() {
        AccessPlan::Ready(t) => assert_eq!(t, "acc"),
        _ => panic!("expected the kept token"),
    }
    // Within the last minute: refresh.
    match p.access_token(false, 13_540).unwrap() {
        AccessPlan::Refresh(form) => assert_eq!(form, pairs(&[("client_id", "123"), ("grant_type", "refresh_token"), ("refresh_token", "ref")])),
        _ => panic!("expected a refresh"),
    }
    // Forced.
    assert!(matches!(p.access_token(true, 10_000).unwrap(), AccessPlan::Refresh(_)));
}

#[test]
fn refresh_success_is_kept() {
    let mut p = OauthPresence::new("123".to_string(), None);
    p.store_tokens(response("old", "ref", 60), 0);
    let out = p.refresh_finished(Ok(response("new", "ref2", 3600)), 100);
    assert_eq!(out.access, Ok("new".to_string()));
    assert!(!out.invalidated && !out.stop_worker);
    match p.access_token(false, 200).unwrap() {
        AccessPlan::Ready(t) => assert_eq!(t, "new"),
        _ => panic!("expected the refreshed token"),
    }
    let t: Tokens = p.tokens().unwrap();
    assert_eq!(t.expires_at, 3700);
}

#[test]
fn invalid_grant_forgets_login() {
    let mut p = OauthPresence::new("123".to_string(), Some("/tmp/x.json".to_string()));
    assert_eq!(p.load_saved(Some(Tokens { access_token: "a".to_string(), refresh_token: "r".to_string(), expires_at: 5 })), Some(false));
    assert!(p.worker_running());
    let out = p.refresh_finished(Err("Discord token error 400 Bad Request: {\"error\": \"invalid_grant\"}".to_string()), 10);
    assert!(out.invalidated && out.stop_worker);
    assert!(!p.is_logged_in());
    assert!(!p.worker_running());
    assert_eq!(p.access_token(false, 10).err(), Some("not logged in".to_string()));
}

#[test]
fn other_refresh_failure_keeps_login() {
    let mut p = OauthPresence::new("123".to_string(), None);
    p.store_tokens(response("a", "r", 10), 0);
    let out = p.refresh_finished(Err("error sending request".to_string()), 100);
    assert_eq!(out.access, Err("error sending request".to_string()));
    assert!(!out.invalidated && !out.stop_worker);
    assert!(p.is_logged_in());
}

#[test]
fn load_saved_needs_a_store_path() {
    let mut p = OauthPresence::new("123".to_string(), None);
    let saved = Tokens { access_token: "a".to_string(), refresh_token: "r".to_string(), expires_at: 5 };
    assert_eq!(p.load_saved(Some(saved)), None);
    assert!(!p.is_logged_in());
    let mut q = OauthPresence::new("123".to_string(), Some("/tmp/x.json".to_string()));
    assert_eq!(q.load_saved(None), None);
    assert!(!q.worker_running());
}

#[test]
fn invalidate_stops_worker() {
    let mut p = OauthPresence::new("123".to_string(), None);
    assert!(!p.invalidate());
    p.store_tokens(response("a", "r", 10), 0);
    assert!(!p.start_worker());
    assert!(p.invalidate());
    assert!(!p.is_logged_in());
}

#[test]
fn update_is_kept_while_logged_out() {
    let mut p = OauthPresence::new("123".to_string(), None);
    assert!(p.current_presence().is_none());
    let pr = khinsider_app::presence::Presence {
        details: "d".to_string(),
        state: "s".to_string(),
        image: None,
        image_text: None,
        paused: false,
        url: None,
        start: None,
        end: None,
    };
    p.update(Some(pr));
    assert_eq!(p.current_presence().unwrap().details, "d");
    assert!(!p.is_logged_in());
    p.update(None);
    assert!(p.current_presence().is_none());
}

#[test]
fn authorize_url_from_parts() {
    assert_eq!(login_scope_text(), "openid sdk.social_layer_presence");
    assert_eq!(
        authorize_url_from("1", "r%3A", "s%20t", "st", "ch"),
        "https://discord.com/oauth2/authorize?client_id=1&response_type=code&redirect_uri=r%3A&scope=s%20t&state=st&code_challenge=ch&code_challenge_method=S256"
    );
}

#[test]
fn identity_and_now_playing_survive_the_login() {
    let mut p = OauthPresence::new("123".to_string(), Some("/tmp/t.json".to_string()));
    let pr = khinsider_app::presence::Presence {
        details: "d".to_string(),
        state: "s".to_string(),
        image: None,
        image_text: None,
        paused: true,
        url: None,
        start: None,
        end: None,
    };
    p.update(Some(pr));
    p.begin_login_with(VERIFIER.to_string(), "xyz".to_string());
    let form = p.finish_login("discord-123:/authorize/callback?code=C&state=xyz".to_string()).unwrap();
    assert_eq!(form.len(), 5);
    p.complete_login(Ok(response("a", "r", 100)), 0).unwrap();
    p.invalidate();
    assert_eq!(p.current_presence().unwrap().details, "d");
    assert_eq!(p.client_id(), "123");
    assert_eq!(p.redirect_uri(), "discord-123:/authorize/callback");
}

#[test]
fn saved_login_is_restored_by_the_next_launch() {
    let mut first = OauthPresence::new("123".to_string(), Some("/tmp/t.json".to_string()));
    let kept = first.store_tokens(response("acc", "ref", 3600), 1_000);
    let mut next = OauthPresence::new("123".to_string(), Some("/tmp/t.json".to_string()));
    assert_eq!(next.load_saved(Some(kept)), Some(false));
    assert!(next.worker_running());
    match next.access_token(false, 2_000).unwrap() {
        AccessPlan::Ready(t) => assert_eq!(t, "acc"),
        _ => panic!("expected the restored token"),
    }
}

#[test]
fn token_replies() {
    assert_eq!(status_display_text(400), "400 Bad Request");
    assert_eq!(status_display_text(418), "418 I'm a teapot");
    assert_eq!(status_display_text(599), "599 <unknown status code>");
    let ok = token_reply(200, String::new(), Some(response("acc", "ref", 60))).unwrap();
    assert_eq!((ok.access_token.as_str(), ok.refresh_token.as_str(), ok.expires_in), ("acc", "ref", 60));
    assert_eq!(token_reply(204, "ignored".to_string(), None).unwrap_err(), "error decoding response body");
    let e = token_reply(400, "{\"error\": \"invalid_grant\"}".to_string(), Some(response("a", "r", 1))).unwrap_err();
    assert_eq!(e, "Discord token error 400 Bad Request: {\"error\": \"invalid_grant\"}");
    assert_eq!(token_reply(503, String::new(), None).unwrap_err(), "Discord token error 503 Service Unavailable: ");
    // A refused refresh token, read from the endpoint's reply, forgets the login.
    let mut p = OauthPresence::new("1".to_string(), Some("/tmp/t.json".to_string()));
    p.store_tokens(response("acc", "ref", 3600), 0);
    let out = p.refresh_finished(token_reply(400, "{\"error\":\"invalid_grant\"}".to_string(), None), 10);
    assert!(out.invalidated);
    assert!(!p.is_logged_in());
}

#[test]
fn saved_login_restored_after_restart() {
    let mut a = OauthPresence::new("7".to_string(), Some("/data/tokens.json".to_string()));
    let kept = a.store_tokens(response("acc", "ref", 3600), 1_000);
    let mut b = OauthPresence::new("7".to_string(), Some("/data/tokens.json".to_string()));
    assert_eq!(b.load_saved(Some(kept)), Some(false));
    assert!(b.is_logged_in() && b.worker_running());
    let (ta, tb) = (a.tokens().unwrap(), b.tokens().unwrap());
    assert_eq!((ta.access_token, ta.refresh_token, ta.expires_at), (tb.access_token, tb.refresh_token, tb.expires_at));
    assert_eq!(tb.expires_at, 4_600);
}

use khinsider_app::codec::{b64, callback_query, pkce_challenge, random_b64, random_bytes, sha256, url_encode};
use khinsider_app::clock::{epoch_secs_of, now_secs};
use khinsider_app::json::{json_number, json_quote, read_gateway_frame, read_json_leaves, read_reply_token};
use khinsider_app::text::{contains_text, decimal_text, same_text};

#[test]
fn pkce_example_from_rfc7636() {
    assert_eq!(pkce_challenge("dBjftJeZ4CVP-mB92K27uhbUJU1p1r_wW1gFWFOEjXk"), "E9Melhoa2OwvFrEMTJguCHaoeK1t8URWbuGJSstw-cM");
}

#[test]
fn sha256_and_base64() {
    let d = sha256(b"abc");
    assert_eq!(d.len(), 32);
    assert_eq!(d[0], 0xba);
    assert_eq!(d[31], 0xad);
    assert_eq!(b64(&[0xfb, 0xff]), "-_8");
    assert_eq!(b64(b""), "");
    assert_eq!(b64(b"a"), "YQ");
    assert_eq!(b64(b"abc"), "YWJj");
    assert_eq!(b64(b"abcd"), "YWJjZA");
}

#[test]
fn randomness_lengths() {
    assert_eq!(random_bytes(32).len(), 32);
    assert_eq!(random_b64(32).len(), 43);
    assert_eq!(random_b64(16).len(), 22);
    assert_ne!(random_b64(32), random_b64(32));
}

#[test]
fn percent_encoding() {
    assert_eq!(url_encode("discord-1:/authorize/callback"), "discord-1%3A%2Fauthorize%2Fcallback");
    assert_eq!(url_encode("a b~_.-é"), "a%20b~_.-%C3%A9");
    assert_eq!(url_encode("AZaz09"), "AZaz09");
    assert_eq!(url_encode("\u{7f}+=\u{0}"), "%7F%2B%3D%00");
}

#[test]
fn query_pairs() {
    let q = callback_query("discord-1:/authorize/callback?code=a%20b&state=x+y&flag").unwrap();
    assert_eq!(
        q,
        vec![
            ("code".to_string(), "a b".to_string()),
            ("state".to_string(), "x y".to_string()),
            ("flag".to_string(), String::new())
        ]
    );
    assert!(callback_query("/relative/only").is_err());
}

#[test]
fn json_literals() {
    assert_eq!(json_quote("a\"b\\c\n"), "\"a\\\"b\\\\c\\n\"");
    assert_eq!(json_number(-42), "-42");
    assert_eq!(json_number(i64::MAX), "9223372036854775807");
    for n in [i64::MIN, -1, 0, 7, 1_700_000_000_000] {
        assert_eq!(json_number(n), serde_json::to_string(&n).unwrap());
    }
    let f = read_gateway_frame("{\"op\":10,\"t\":null,\"d\":{\"heartbeat_interval\":41250}}").unwrap();
    assert_eq!((f.op, f.event, f.heartbeat_interval), (Some(10), None, Some(41250)));
    let f = read_gateway_frame("[1,2]").unwrap();
    assert_eq!((f.op, f.event, f.heartbeat_interval), (None, None, None));
    let f = read_gateway_frame("{\"op\":-1,\"t\":\"READY\",\"d\":{\"heartbeat_interval\":\"5\"}}").unwrap();
    assert_eq!((f.op, f.event.as_deref(), f.heartbeat_interval), (None, Some("READY"), None));
    assert!(read_gateway_frame("").is_err());
}

#[test]
fn text_helpers() {
    assert!(same_text("READY", "READY"));
    assert!(!same_text("READY", "READ"));
    assert!(contains_text("{\"error\": \"invalid_grant\"}", "invalid_grant"));
    assert!(!contains_text("invalid_gran", "invalid_grant"));
    assert!(contains_text("abc", ""));
    assert!(contains_text("ééinvalid_grant", "invalid_grant"));
    assert_eq!(decimal_text(0), "0");
    assert_eq!(decimal_text(400), "400");
    assert_eq!(decimal_text(u64::MAX), "18446744073709551615");
}

#[test]
fn clock() {
    assert_eq!(epoch_secs_of(None), 0);
    assert_eq!(epoch_secs_of(Some(1_700_000_000)), 1_700_000_000);
    assert_eq!(epoch_secs_of(Some(u64::MAX)), -1);
    assert!(now_secs() > 1_600_000_000);
}

#[test]
fn json_leaves_by_path() {
    let paths = vec![vec!["a", "b"], vec!["s"], vec![], vec!["missing", "x"]];
    let ls = read_json_leaves("{\"a\":{\"b\":3},\"s\":\"hi\"}", &paths).unwrap();
    assert_eq!(ls.len(), 4);
    assert_eq!((ls[0].number, ls[0].text.as_deref()), (Some(3), None));
    assert_eq!((ls[1].number, ls[1].text.as_deref()), (None, Some("hi")));
    assert_eq!((ls[2].number, ls[2].text.as_deref()), (None, None));
    assert_eq!((ls[3].number, ls[3].text.as_deref()), (None, None));
    assert!(read_json_leaves("{", &paths).is_err());
    assert_eq!(read_reply_token("{\"token\":\"t1\"}").unwrap().as_deref(), Some("t1"));
    assert_eq!(read_reply_token("\"token\"").unwrap(), None);
}

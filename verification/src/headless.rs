//! The headless session that shows the presence on Discord: the request bodies, the
//! reading of replies, the retry policy of an update, and the keep-alive worker's decisions.

use vstd::prelude::*;
use crate::json::{json_string, json_integer, json_quote, json_number, reply_token_field, read_reply_token, opt_text};
use crate::presence::{Presence, status_line, time_bar, copy_opt_text};
use crate::text::{decimal, contains_seq, lemma_contains_within, lemma_contains_self};
use crate::text::decimal_text;
use crate::oauth::keepalive_secs;

verus! {

// ----------------------------------------------------------------------- bodies

/// The `assets` member of an activity: only with assets asked for and at least one of
/// image and image text present.
pub open spec fn assets_json(p: Presence, with_assets: bool) -> Seq<char> {
    if with_assets && (p.image is Some || p.image_text is Some) {
        ",\"assets\":{"@
            + (match p.image {
                Some(i) => "\"large_image\":"@ + json_string(i@),
                None => Seq::empty(),
            })
            + (if p.image is Some && p.image_text is Some { ","@ } else { Seq::empty() })
            + (match p.image_text {
                Some(t) => "\"large_text\":"@ + json_string(t@),
                None => Seq::empty(),
            })
            + "}"@
    } else {
        Seq::empty()
    }
}

/// The `timestamps` member of an activity: only while playing and with a start time.
pub open spec fn timestamps_json(p: Presence) -> Seq<char> {
    match time_bar(p) {
        Some((start, end)) => ",\"timestamps\":{"@
            + (match end {
                Some(e) => "\"end\":"@ + json_integer(e) + ","@,
                None => Seq::empty(),
            })
            + "\"start\":"@ + json_integer(start) + "}"@,
        None => Seq::empty(),
    }
}

/// One "Listening" activity (type 2) named KHInsider, for the application `client_id`
/// on `platform`.
pub open spec fn activity_json(client_id: Seq<char>, platform: Seq<char>, p: Presence, with_assets: bool) -> Seq<char> {
    "{\"application_id\":"@ + json_string(client_id) + assets_json(p, with_assets)
        + ",\"details\":"@ + json_string(p.details@)
        + ",\"name\":\"KHInsider\",\"platform\":"@ + json_string(platform)
        + ",\"state\":"@ + json_string(status_line(p)) + timestamps_json(p) + ",\"type\":2}"@
}

/// The body that creates (no session token) or updates a headless session.
pub open spec fn session_body(client_id: Seq<char>, platform: Seq<char>, token: Option<Seq<char>>, p: Presence, with_assets: bool) -> Seq<char> {
    "{\"activities\":["@ + activity_json(client_id, platform, p, with_assets) + "]"@
        + (match token {
            Some(t) => ",\"token\":"@ + json_string(t),
            None => Seq::empty(),
        })
        + "}"@
}

/// Pausing changes a session body in two places only: the state line gains the
/// `"Paused - "` prefix and the elapsed-time bar goes. A paused presence posts exactly the
/// body of the playing presence whose state already carries the prefix and which has no
/// start time; in particular its album art and art text stay.
pub proof fn lemma_paused_body(client_id: Seq<char>, platform: Seq<char>, token: Option<Seq<char>>, p: Presence, q: Presence, with_assets: bool)
    requires
        p.paused,
        !q.paused,
        q.state@ == "Paused - "@ + p.state@,
        q.start is None,
        q.details@ == p.details@,
        opt_text(q.image) == opt_text(p.image),
        opt_text(q.image_text) == opt_text(p.image_text),
    ensures
        session_body(client_id, platform, token, p, with_assets) == session_body(client_id, platform, token, q, with_assets),
{
    assert(assets_json(p, with_assets) == assets_json(q, with_assets));
    assert(status_line(p) == status_line(q));
}

/// With assets asked for, the activity carries the image as `large_image` and the image
/// text as `large_text`, paused or not; without them it carries neither.
pub proof fn lemma_assets_carried(client_id: Seq<char>, platform: Seq<char>, token: Option<Seq<char>>, p: Presence)
    ensures
        p.image matches Some(i) ==> contains_seq(session_body(client_id, platform, token, p, true),
            ",\"assets\":{"@ + "\"large_image\":"@ + json_string(i@)),
        p.image_text matches Some(t) ==> contains_seq(session_body(client_id, platform, token, p, true),
            "\"large_text\":"@ + json_string(t@) + "}"@),
        !contains_seq(assets_json(p, false), "\"large_image\""@),
        assets_json(p, false) == Seq::<char>::empty(),
{
    let body = session_body(client_id, platform, token, p, true);
    let assets = assets_json(p, true);
    let head = "{\"activities\":["@ + "{\"application_id\":"@ + json_string(client_id);
    let tail = ",\"details\":"@ + json_string(p.details@)
        + ",\"name\":\"KHInsider\",\"platform\":"@ + json_string(platform)
        + ",\"state\":"@ + json_string(status_line(p)) + timestamps_json(p) + ",\"type\":2}"@
        + "]"@
        + (match token {
            Some(t) => ",\"token\":"@ + json_string(t),
            None => Seq::empty(),
        })
        + "}"@;
    assert(body =~= head + assets + tail);
    if let Some(i) = p.image {
        let needle = ",\"assets\":{"@ + "\"large_image\":"@ + json_string(i@);
        let rest = (if p.image_text is Some { ","@ } else { Seq::empty() })
            + (match p.image_text {
                Some(t) => "\"large_text\":"@ + json_string(t@),
                None => Seq::empty(),
            })
            + "}"@;
        assert(assets =~= Seq::empty() + needle + rest);
        lemma_contains_self(needle);
        lemma_contains_within(Seq::empty(), needle, rest, needle);
        lemma_contains_within(head, assets, tail, needle);
    }
    if let Some(t) = p.image_text {
        let needle = "\"large_text\":"@ + json_string(t@) + "}"@;
        let front = ",\"assets\":{"@
            + (match p.image {
                Some(i) => "\"large_image\":"@ + json_string(i@),
                None => Seq::empty(),
            })
            + (if p.image is Some { ","@ } else { Seq::empty() });
        assert(assets =~= front + needle + Seq::empty());
        lemma_contains_self(needle);
        lemma_contains_within(front, needle, Seq::empty(), needle);
        lemma_contains_within(head, assets, tail, needle);
    }
    assert(!contains_seq(Seq::<char>::empty(), "\"large_image\""@)) by {
        reveal_strlit("\"large_image\"");
    }
}

/// The body that deletes a headless session.
pub open spec fn delete_body(token: Seq<char>) -> Seq<char> {
    "{\"token\":"@ + json_string(token) + "}"@
}

fn assets_text(p: &Presence, with_assets: bool) -> (r: String)
    ensures
        r@ == assets_json(*p, with_assets),
{
    if with_assets && (p.image.is_some() || p.image_text.is_some()) {
        let mut s = ",\"assets\":{".to_owned();
        match &p.image {
            Some(i) => {
                s.append("\"large_image\":");
                s.append(json_quote(i.as_str()).as_str());
            },
            None => {},
        }
        if p.image.is_some() && p.image_text.is_some() {
            s.append(",");
        }
        match &p.image_text {
            Some(t) => {
                s.append("\"large_text\":");
                s.append(json_quote(t.as_str()).as_str());
            },
            None => {},
        }
        s.append("}");
        assert(s@ =~= assets_json(*p, with_assets));
        s
    } else {
        String::new()
    }
}

fn timestamps_text(p: &Presence) -> (r: String)
    ensures
        r@ == timestamps_json(*p),
{
    match p.time_bar() {
        Some((start, end)) => {
            let mut s = ",\"timestamps\":{".to_owned();
            match end {
                Some(e) => {
                    s.append("\"end\":");
                    s.append(json_number(e).as_str());
                    s.append(",");
                },
                None => {},
            }
            s.append("\"start\":");
            s.append(json_number(start).as_str());
            s.append("}");
            assert(s@ =~= timestamps_json(*p));
            s
        },
        None => String::new(),
    }
}

/// The body that creates (`token` none) or updates the headless session showing `p`.
pub fn session_body_text(client_id: &str, platform: &str, token: Option<&str>, p: &Presence, with_assets: bool) -> (r: String)
    ensures
        r@ == session_body(client_id@, platform@, match token { Some(t) => Some(t@), None => None }, *p, with_assets),
{
    let mut s = "{\"activities\":[".to_owned();
    s.append("{\"application_id\":");
    s.append(json_quote(client_id).as_str());
    s.append(assets_text(p, with_assets).as_str());
    s.append(",\"details\":");
    s.append(json_quote(p.details.as_str()).as_str());
    s.append(",\"name\":\"KHInsider\",\"platform\":");
    s.append(json_quote(platform).as_str());
    s.append(",\"state\":");
    s.append(json_quote(p.state_text().as_str()).as_str());
    s.append(timestamps_text(p).as_str());
    s.append(",\"type\":2}");
    s.append("]");
    match token {
        Some(t) => {
            s.append(",\"token\":");
            s.append(json_quote(t).as_str());
        },
        None => {},
    }
    s.append("}");
    assert(s@ =~= session_body(client_id@, platform@, match token { Some(t) => Some(t@), None => None }, *p, with_assets));
    s
}

/// The body that deletes the headless session `token`.
pub fn delete_body_text(token: &str) -> (r: String)
    ensures
        r@ == delete_body(token@),
{
    let mut s = "{\"token\":".to_owned();
    s.append(json_quote(token).as_str());
    s.append("}");
    s
}

// ----------------------------------------------------------------------- replies

/// The message of a success reply whose body is not JSON (or not UTF-8 at all).
pub open spec fn decode_error_msg() -> Seq<char> {
    "error decoding response body"@
}

/// What a headless-session reply with HTTP `status` and `body` (`None`: not UTF-8) means,
/// given what was read from a successful body (its string `token`, or a parse error): a
/// status outside 200..=299 fails with that status and the body (empty where there is
/// none); a success must carry a JSON body, else it fails with status 0 and
/// [`decode_error_msg`], and that body must hold a string `token`, else it fails with
/// status 0 too.
pub open spec fn reply_outcome(status: u16, body: Option<Seq<char>>, parsed: Result<Option<Seq<char>>, Seq<char>>) -> Result<Seq<char>, (u16, Seq<char>)> {
    if !(200 <= status <= 299) {
        Err((status, match body { Some(b) => b, None => Seq::empty() }))
    } else {
        match (body, parsed) {
            (None, _) => Err((0u16, decode_error_msg())),
            (Some(_), Err(_)) => Err((0u16, decode_error_msg())),
            (Some(_), Ok(None)) => Err((0u16, "response has no session token"@)),
            (Some(_), Ok(Some(t))) => Ok(t),
        }
    }
}

/// What a headless-session reply means, its body read by `serde_json`.
pub open spec fn session_reply(status: u16, body: Option<Seq<char>>) -> Result<Seq<char>, (u16, Seq<char>)> {
    reply_outcome(status, body, match body {
        Some(b) => reply_token_field(b),
        None => Err(decode_error_msg()),
    })
}

pub open spec fn api_result_view(r: Result<String, ApiErr>) -> Result<Seq<char>, (u16, Seq<char>)> {
    match r {
        Ok(t) => Ok(t@),
        Err(e) => Err((e.status, e.msg@)),
    }
}

/// A failed headless-session request: the HTTP status (0 where no usable response came)
/// and the message.
#[derive(Debug)]
pub struct ApiErr {
    pub status: u16,
    pub msg: String,
}

impl ApiErr {
    /// A request that got no usable response (no access token, or no reply): status 0
    /// and the message, which the retry policy never retries.
    pub fn no_response(msg: String) -> (r: Self)
        ensures
            r.status == 0,
            r.msg@ == msg@,
            forall|stage: PushStage, has_image: bool| next_attempt(stage, has_image, r.status) is None,
    {
        ApiErr { status: 0, msg }
    }
}

/// Reads a headless-session reply, given what was read from its body; see [`reply_outcome`].
pub fn read_session_reply_with(status: u16, body: Option<String>, parsed: Result<Option<String>, String>) -> (r: Result<String, ApiErr>)
    ensures
        api_result_view(r) == reply_outcome(status, opt_text(body), match parsed {
            Ok(t) => Ok(opt_text(t)),
            Err(e) => Err(e@),
        }),
{
    if status < 200 || status > 299 {
        let msg = match body {
            Some(b) => b,
            None => String::new(),
        };
        return Err(ApiErr { status, msg });
    }
    match (body, parsed) {
        (None, _) => Err(ApiErr { status: 0, msg: "error decoding response body".to_owned() }),
        (Some(_), Err(_)) => Err(ApiErr { status: 0, msg: "error decoding response body".to_owned() }),
        (Some(_), Ok(None)) => Err(ApiErr { status: 0, msg: "response has no session token".to_owned() }),
        (Some(_), Ok(Some(t))) => Ok(t),
    }
}

/// Reads a headless-session reply; see [`session_reply`]. The body is parsed only for a
/// success status.
pub fn read_session_reply(status: u16, body: Option<String>) -> (r: Result<String, ApiErr>)
    ensures
        api_result_view(r) == session_reply(status, opt_text(body)),
{
    let parsed = match &body {
        Some(b) if 200 <= status && status <= 299 => read_reply_token(b.as_str()),
        _ => Err("error decoding response body".to_owned()),
    };
    read_session_reply_with(status, body, parsed)
}

/// The message of an update that finally failed: `"{status} {msg}"`.
pub open spec fn push_error_msg(status: u16, msg: Seq<char>) -> Seq<char> {
    decimal(status as nat) + " "@ + msg
}

/// The message of an update that finally failed.
pub fn push_error_text(e: &ApiErr) -> (r: String)
    ensures
        r@ == push_error_msg(e.status, e.msg@),
{
    let mut s = decimal_text(e.status as u64);
    s.append(" ");
    s.append(e.msg.as_str());
    s
}

// ----------------------------------------------------------------------- retry policy

/// One post of an update: with or without the image assets, and whether the access token
/// is refreshed first.
#[derive(Debug, PartialEq, Eq, Structural, Clone, Copy)]
pub struct PostAttempt {
    pub with_assets: bool,
    pub force_refresh: bool,
}

/// How far an update has gone.
#[derive(Debug, PartialEq, Eq, Structural, Clone, Copy)]
pub enum PushStage {
    /// The first post (with assets, current token) was made.
    First,
    /// It failed with 400 and the presence has an image: the post without assets was made.
    AssetsDropped,
    /// A post failed with 401: the post after refreshing the token was made.
    Refreshed,
}

/// The first post of an update: with assets, with the current access token.
pub open spec fn first_attempt() -> PostAttempt {
    PostAttempt { with_assets: true, force_refresh: false }
}

/// After a post failed with `status`, what comes next. Image URLs are not accepted
/// everywhere: a 400 on the first post of a presence with an image retries once without
/// assets. An expired or revoked access token: a 401 on the first post, or on the post
/// without assets, refreshes the token and retries once (with assets exactly when the
/// presence has an image). Nothing else is retried.
pub open spec fn next_attempt(stage: PushStage, has_image: bool, status: u16) -> Option<(PostAttempt, PushStage)> {
    if stage == PushStage::First && status == 400 && has_image {
        Some((PostAttempt { with_assets: false, force_refresh: false }, PushStage::AssetsDropped))
    } else if stage != PushStage::Refreshed && status == 401 {
        Some((PostAttempt { with_assets: has_image, force_refresh: true }, PushStage::Refreshed))
    } else {
        None
    }
}

/// The first post of an update.
pub fn first_push_attempt() -> (r: PostAttempt)
    ensures
        r == first_attempt(),
{
    PostAttempt { with_assets: true, force_refresh: false }
}

/// What follows a post of the update of `p` that failed with `status`; see [`next_attempt`].
pub fn next_push_attempt(stage: PushStage, p: &Presence, status: u16) -> (r: Option<(PostAttempt, PushStage)>)
    ensures
        r == next_attempt(stage, p.image is Some, status),
{
    let has_image = p.image.is_some();
    if stage == PushStage::First && status == 400 && has_image {
        Some((PostAttempt { with_assets: false, force_refresh: false }, PushStage::AssetsDropped))
    } else if stage != PushStage::Refreshed && status == 401 {
        Some((PostAttempt { with_assets: has_image, force_refresh: true }, PushStage::Refreshed))
    } else {
        None
    }
}

/// An update posts at most three times: after any two retries, nothing is retried.
pub proof fn lemma_at_most_three_posts(has_image: bool, s1: u16, s2: u16, s3: u16)
    ensures
        ({
            match next_attempt(PushStage::First, has_image, s1) {
                None => true,
                Some((_, st1)) => match next_attempt(st1, has_image, s2) {
                    None => true,
                    Some((_, st2)) => next_attempt(st2, has_image, s3) is None,
                },
            }
        }),
{
}

/// Only a 401 refreshes the token, and only a 400 on a presence with an image drops the
/// assets; every retry follows a failure of one of these two kinds.
pub proof fn lemma_retry_causes(stage: PushStage, has_image: bool, status: u16)
    ensures
        next_attempt(stage, has_image, status) matches Some((a, _)) ==> {
            &&& (a.force_refresh <==> status == 401)
            &&& (!a.with_assets ==> (status == 400 && has_image) || (status == 401 && !has_image))
            &&& (status == 400 || status == 401)
        },
        status != 400 && status != 401 ==> next_attempt(stage, has_image, status) is None,
{
}

/// One refresh per update: after a retry that refreshes the token nothing more is
/// retried, whatever the next failure; and the assets are dropped at most once, after
/// which only a 401 (refreshing the token) is retried.
pub proof fn lemma_one_refresh_per_update(stage: PushStage, has_image: bool, status: u16, next_status: u16)
    ensures
        match next_attempt(stage, has_image, status) {
            Some((a, st1)) => if a.force_refresh {
                next_attempt(st1, has_image, next_status) is None
            } else {
                match next_attempt(st1, has_image, next_status) {
                    Some((a2, st2)) => next_status == 401 && a2.force_refresh
                        && next_attempt(st2, has_image, status) is None,
                    None => true,
                }
            },
            None => true,
        },
{
}

// ----------------------------------------------------------------------- worker

/// What the keep-alive worker does to bring the session in line with what is playing.
#[derive(Debug)]
pub enum SyncAction {
    /// Nothing is playing and no session exists.
    Nothing,
    /// Nothing is playing: delete this session (already forgotten).
    DeleteSession(String),
    /// Post this presence, updating the given session or creating one.
    PushSession(Option<String>, Presence),
}

/// Something the worker is woken by.
#[derive(Debug)]
pub enum WorkerEvent {
    /// The worker just started: publish whatever is playing right now (for instance right
    /// after a login).
    Started,
    /// The keep-alive period passed.
    Tick,
    /// The now-playing value changed.
    Changed,
    /// The now-playing channel was closed.
    ChannelClosed,
    /// The worker was told to stop.
    Stop,
}

/// What the worker does after an event.
#[derive(Debug)]
pub enum WorkerStep {
    Sync(SyncAction),
    /// Leave, deleting this session if there is one.
    Exit(Option<String>),
}

/// The keep-alive worker's own state: the headless session it holds, if any, when the
/// next keep-alive tick is due and when it last synced (milliseconds on the worker's
/// monotonic clock).
#[derive(Debug)]
pub struct SessionWorker {
    pub session: Option<String>,
    pub keepalive_due_ms: u64,
    pub last_sync_ms: u64,
}

/// The keep-alive period in milliseconds.
pub open spec fn keepalive_ms() -> int {
    keepalive_secs() * 1000
}

/// How long a headless session lives without an update: about twenty minutes.
pub open spec fn session_expiry_ms() -> int {
    20int * 60 * 1000
}

/// `now + keepalive_ms()`, held at `u64::MAX`.
pub open spec fn keepalive_after(now: u64) -> u64 {
    if now + keepalive_ms() <= u64::MAX { (now + keepalive_ms()) as u64 } else { u64::MAX }
}

/// The schedule after an event at `now`: a tick syncs and is next due one period later
/// (ticks that come late are not made up); the start and a change sync and leave the tick
/// where it was; leaving changes nothing. The pair is (next tick due, last sync).
pub open spec fn schedule_next(ev: WorkerEvent, due: u64, last: u64, now: u64) -> (u64, u64) {
    match ev {
        WorkerEvent::Tick => (keepalive_after(now), now),
        WorkerEvent::Started | WorkerEvent::Changed => (due, now),
        WorkerEvent::ChannelClosed | WorkerEvent::Stop => (due, last),
    }
}

/// The next tick is due at most one keep-alive period after the last sync.
pub open spec fn keepalive_inv(due: u64, last: u64) -> bool {
    due <= last + keepalive_ms()
}

pub enum SyncModel {
    Nothing,
    DeleteSession(Seq<char>),
    PushSession(Option<Seq<char>>, Presence),
}

impl View for SyncAction {
    type V = SyncModel;

    open spec fn view(&self) -> SyncModel {
        match self {
            SyncAction::Nothing => SyncModel::Nothing,
            SyncAction::DeleteSession(t) => SyncModel::DeleteSession(t@),
            SyncAction::PushSession(t, p) => SyncModel::PushSession(opt_text(*t), *p),
        }
    }
}

/// Bringing the session in line with `np`: nothing playing deletes the session (if any)
/// and forgets it; something playing is pushed to the session held (or a new one).
pub open spec fn sync_next(session: Option<Seq<char>>, np: Option<Presence>) -> (Option<Seq<char>>, SyncModel) {
    match np {
        None => match session {
            Some(t) => (None, SyncModel::DeleteSession(t)),
            None => (None, SyncModel::Nothing),
        },
        Some(p) => (session, SyncModel::PushSession(session, p)),
    }
}

/// After a push: a session token answered becomes the session held; a failure (which the
/// caller logs) leaves the session as it was.
pub open spec fn push_next(session: Option<Seq<char>>, result: Result<Seq<char>, Seq<char>>) -> Option<Seq<char>> {
    match result {
        Ok(t) => Some(t),
        Err(_) => session,
    }
}

impl SessionWorker {
    /// A worker started at `now_ms` that holds no session yet; its first tick is due at
    /// once.
    pub fn new(now_ms: u64) -> (r: Self)
        ensures
            r.session is None,
            r.keepalive_due_ms == now_ms,
            r.last_sync_ms == now_ms,
    {
        SessionWorker { session: None, keepalive_due_ms: now_ms, last_sync_ms: now_ms }
    }

    /// See [`sync_next`].
    pub fn sync(&mut self, np: &Option<Presence>) -> (a: SyncAction)
        ensures
            (opt_text(final(self).session), a@) == sync_next(opt_text(old(self).session), *np),
            final(self).keepalive_due_ms == old(self).keepalive_due_ms,
            final(self).last_sync_ms == old(self).last_sync_ms,
    {
        match np {
            None => match self.session.take() {
                Some(t) => SyncAction::DeleteSession(t),
                None => SyncAction::Nothing,
            },
            Some(p) => SyncAction::PushSession(copy_opt_text(&self.session), p.clone()),
        }
    }

    /// See [`push_next`].
    pub fn push_finished(&mut self, result: Result<String, String>)
        ensures
            opt_text(final(self).session) == push_next(opt_text(old(self).session), match result {
                Ok(t) => Ok(t@),
                Err(e) => Err(e@),
            }),
            final(self).keepalive_due_ms == old(self).keepalive_due_ms,
            final(self).last_sync_ms == old(self).last_sync_ms,
    {
        match result {
            Ok(t) => {
                self.session = Some(t);
            },
            Err(_) => {},
        }
    }

    /// Answers a wake-up at `now_ms`, with `np` the now-playing value current then: the
    /// start, a tick or a change syncs; a closed channel or a stop leaves, handing out the
    /// session to delete. The keep-alive schedule moves as [`schedule_next`] says.
    pub fn on_event(&mut self, ev: WorkerEvent, np: &Option<Presence>, now_ms: u64) -> (step: WorkerStep)
        ensures
            (final(self).keepalive_due_ms, final(self).last_sync_ms)
                == schedule_next(ev, old(self).keepalive_due_ms, old(self).last_sync_ms, now_ms),
            match ev {
                WorkerEvent::Started | WorkerEvent::Tick | WorkerEvent::Changed => step matches WorkerStep::Sync(a)
                    && (opt_text(final(self).session), a@) == sync_next(opt_text(old(self).session), *np),
                WorkerEvent::ChannelClosed | WorkerEvent::Stop => step matches WorkerStep::Exit(t)
                    && opt_text(t) == opt_text(old(self).session) && final(self).session is None,
            },
    {
        match ev {
            WorkerEvent::Started => {
                self.last_sync_ms = now_ms;
                WorkerStep::Sync(self.sync(np))
            },
            WorkerEvent::Tick => {
                self.keepalive_due_ms = now_ms.saturating_add(600_000);
                self.last_sync_ms = now_ms;
                WorkerStep::Sync(self.sync(np))
            },
            WorkerEvent::Changed => {
                self.last_sync_ms = now_ms;
                WorkerStep::Sync(self.sync(np))
            },
            WorkerEvent::ChannelClosed => WorkerStep::Exit(self.session.take()),
            WorkerEvent::Stop => WorkerStep::Exit(self.session.take()),
        }
    }
}

/// The keep-alive schedule: a new worker starts with its tick due at once; every sync at
/// `now` (not before the last one) keeps the next tick due at most one period after it, a
/// tick putting it exactly one period later; so a tick taken when due comes at most ten
/// minutes after the last sync, well inside the session's twenty-minute life.
pub proof fn lemma_keepalive_schedule(ev: WorkerEvent, due: u64, last: u64, now: u64)
    requires
        keepalive_inv(due, last),
        last <= now,
        now + keepalive_ms() <= u64::MAX,
    ensures
        keepalive_inv(now, now),
        keepalive_ms() == 600_000,
        2 * keepalive_ms() <= session_expiry_ms(),
        now <= due ==> now - last <= keepalive_ms(),
        (ev is Started || ev is Tick || ev is Changed) ==> ({
            let (d2, l2) = schedule_next(ev, due, last, now);
            l2 == now && keepalive_inv(d2, l2)
        }),
        ev is Tick ==> schedule_next(ev, due, last, now).0 == now + keepalive_ms(),
{
}

/// With nothing playing, a session is deleted once: the next sync does nothing.
pub proof fn lemma_clear_deletes_once(session: Option<Seq<char>>)
    ensures
        sync_next(sync_next(session, None).0, None) == (None::<Seq<char>>, SyncModel::Nothing),
        session matches Some(t) ==> sync_next(session, None).1 == SyncModel::DeleteSession(t),
{
}

/// A successful push makes its session the one updated by the next push.
pub proof fn lemma_push_then_update(session: Option<Seq<char>>, token: Seq<char>, p: Presence)
    ensures
        sync_next(push_next(session, Ok(token)), Some(p)).1 == SyncModel::PushSession(Some(token), p),
{
}

} // verus!

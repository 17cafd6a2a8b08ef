//! Mobile rich presence through OAuth2 (PKCE) and Discord's headless-sessions API:
//! the login flow, the token store and the access-token policy.
//!
//! The HTTP requests, the file that keeps the tokens and the background worker live with
//! the caller; this module decides what is asked, what is kept and what is answered.

use vstd::prelude::*;
use crate::codec::{base64_url, b64_url_char, lemma_base64_url_alphabet, percent_encoded, pkce_challenge_of, url_query_pairs, url_encode, pkce_challenge, callback_query, random_b64};
use crate::json::opt_text;
use crate::presence::Presence;
use crate::text::{contains_seq, contains_text, same_text, occurs_at, decimal, decimal_text};
use crate::headless::decode_error_msg;

verus! {

// ----------------------------------------------------------------------- constants

pub open spec fn authorize_endpoint() -> Seq<char> {
    "https://discord.com/oauth2/authorize"@
}

pub open spec fn api_base() -> Seq<char> {
    "https://discord.com/api/v10"@
}

/// `openid sdk.social_layer_presence`: the one self-serve scope that can write activities.
pub open spec fn login_scope() -> Seq<char> {
    "openid sdk.social_layer_presence"@
}

/// Headless sessions expire after about twenty minutes without an update; they are
/// refreshed every ten.
pub open spec fn keepalive_secs() -> u64 {
    600
}

/// The keep-alive period of the headless session, in seconds.
pub fn keepalive_period_secs() -> (r: u64)
    ensures
        r == keepalive_secs(),
{
    600
}

/// The token endpoint.
pub fn token_endpoint() -> (r: String)
    ensures
        r@ == api_base() + "/oauth2/token"@,
{
    let mut s = "https://discord.com/api/v10".to_owned();
    s.append("/oauth2/token");
    s
}

/// The endpoint that creates or updates a headless session.
pub fn sessions_endpoint() -> (r: String)
    ensures
        r@ == api_base() + "/users/@me/headless-sessions"@,
{
    let mut s = "https://discord.com/api/v10".to_owned();
    s.append("/users/@me/headless-sessions");
    s
}

/// The endpoint that deletes a headless session.
pub fn delete_session_endpoint() -> (r: String)
    ensures
        r@ == api_base() + "/users/@me/headless-sessions/delete"@,
{
    let mut s = "https://discord.com/api/v10".to_owned();
    s.append("/users/@me/headless-sessions/delete");
    s
}

/// The deep link Discord redirects to after login.
pub open spec fn redirect_uri_for(client_id: Seq<char>) -> Seq<char> {
    "discord-"@ + client_id + ":/authorize/callback"@
}

/// The authorize URL opened in the system browser.
pub open spec fn authorize_url(client_id: Seq<char>, redirect_uri: Seq<char>, state: Seq<char>, challenge: Seq<char>) -> Seq<char> {
    authorize_url_of(client_id, percent_encoded(redirect_uri), percent_encoded(login_scope()), state, challenge)
}

/// The authorize URL, given the percent-encoded redirect URI and scope.
pub open spec fn authorize_url_of(client_id: Seq<char>, encoded_redirect: Seq<char>, encoded_scope: Seq<char>, state: Seq<char>, challenge: Seq<char>) -> Seq<char> {
    authorize_endpoint() + "?client_id="@ + client_id + "&response_type=code&redirect_uri="@
        + encoded_redirect + "&scope="@ + encoded_scope + "&state="@ + state
        + "&code_challenge="@ + challenge + "&code_challenge_method=S256"@
}

/// The authorize URL, given the percent-encoded redirect URI and scope; see [`authorize_url_of`].
pub fn authorize_url_from(client_id: &str, encoded_redirect: &str, encoded_scope: &str, state: &str, challenge: &str) -> (r: String)
    ensures
        r@ == authorize_url_of(client_id@, encoded_redirect@, encoded_scope@, state@, challenge@),
{
    let mut url = "https://discord.com/oauth2/authorize".to_owned();
    url.append("?client_id=");
    url.append(client_id);
    url.append("&response_type=code&redirect_uri=");
    url.append(encoded_redirect);
    url.append("&scope=");
    url.append(encoded_scope);
    url.append("&state=");
    url.append(state);
    url.append("&code_challenge=");
    url.append(challenge);
    url.append("&code_challenge_method=S256");
    url
}

/// The login scope.
pub fn login_scope_text() -> (r: &'static str)
    ensures
        r@ == login_scope(),
{
    "openid sdk.social_layer_presence"
}

// ----------------------------------------------------------------------- types

/// The tokens of a login; `expires_at` is in Unix seconds.
#[derive(Debug)]
pub struct Tokens {
    pub access_token: String,
    pub refresh_token: String,
    pub expires_at: i64,
}

/// What the token endpoint answers; `expires_in` is in seconds.
#[derive(Debug)]
pub struct TokenResponse {
    pub access_token: String,
    pub refresh_token: String,
    pub expires_in: i64,
}

/// A login in progress: the PKCE verifier and the CSRF state sent with it.
#[derive(Debug)]
pub struct Pending {
    pub verifier: String,
    pub state: String,
}

/// A login's tokens by their views.
pub struct TokensModel {
    pub access_token: Seq<char>,
    pub refresh_token: Seq<char>,
    pub expires_at: i64,
}

impl View for Tokens {
    type V = TokensModel;

    open spec fn view(&self) -> TokensModel {
        TokensModel { access_token: self.access_token@, refresh_token: self.refresh_token@, expires_at: self.expires_at }
    }
}

impl Clone for Tokens {
    fn clone(&self) -> (r: Self)
        ensures
            r == *self,
    {
        Tokens { access_token: self.access_token.clone(), refresh_token: self.refresh_token.clone(), expires_at: self.expires_at }
    }
}

/// The OAuth presence state, by views.
pub struct OauthModel {
    pub client_id: Seq<char>,
    pub redirect_uri: Seq<char>,
    pub store_path: Option<Seq<char>>,
    pub tokens: Option<TokensModel>,
    /// `(verifier, state)` of a login in progress.
    pub pending: Option<(Seq<char>, Seq<char>)>,
    pub now_playing: Option<Presence>,
    /// Whether a background worker runs (and holds a stop signal).
    pub worker_running: bool,
}

/// Mobile rich presence through OAuth2 and headless sessions.
#[derive(Debug)]
pub struct OauthPresence {
    client_id: String,
    redirect_uri: String,
    store_path: Option<String>,
    tokens: Option<Tokens>,
    pending: Option<Pending>,
    now_playing: Option<Presence>,
    worker_running: bool,
}

pub open spec fn opt_tokens(t: Option<Tokens>) -> Option<TokensModel> {
    match t {
        Some(t) => Some(t@),
        None => None,
    }
}

pub open spec fn opt_pending(p: Option<Pending>) -> Option<(Seq<char>, Seq<char>)> {
    match p {
        Some(p) => Some((p.verifier@, p.state@)),
        None => None,
    }
}

impl View for OauthPresence {
    type V = OauthModel;

    closed spec fn view(&self) -> OauthModel {
        OauthModel {
            client_id: self.client_id@,
            redirect_uri: self.redirect_uri@,
            store_path: opt_text(self.store_path),
            tokens: opt_tokens(self.tokens),
            pending: opt_pending(self.pending),
            now_playing: self.now_playing,
            worker_running: self.worker_running,
        }
    }
}

// ----------------------------------------------------------------------- model

/// A fresh presence for the application `client_id`.
pub open spec fn oauth_new(client_id: Seq<char>, store_path: Option<Seq<char>>) -> OauthModel {
    OauthModel {
        client_id,
        redirect_uri: redirect_uri_for(client_id),
        store_path,
        tokens: None,
        pending: None,
        now_playing: None,
        worker_running: false,
    }
}

/// Starting the worker: it replaces any previous one, which is told to stop.
pub open spec fn with_worker(m: OauthModel) -> (OauthModel, bool) {
    (OauthModel { worker_running: true, ..m }, m.worker_running)
}

/// The tokens kept for a token response received at `now`.
pub open spec fn tokens_from(resp: TokensModel, now: i64) -> TokensModel {
    TokensModel { access_token: resp.access_token, refresh_token: resp.refresh_token, expires_at: (now + resp.expires_at) as i64 }
}

/// Whether the login's tokens can be kept for a response received at `now` (the expiry
/// time fits an `i64`).
pub open spec fn expiry_fits(now: i64, expires_in: i64) -> bool {
    i64::MIN <= now + expires_in <= i64::MAX
}

/// The view of a token response (with `expires_in` in place of `expires_at`).
pub open spec fn response_view(r: TokenResponse) -> TokensModel {
    TokensModel { access_token: r.access_token@, refresh_token: r.refresh_token@, expires_at: r.expires_in }
}

/// Restoring a saved login: only with a store path and saved tokens, which are then kept
/// and the worker started (the flag says whether a previous one must stop).
pub open spec fn load_saved_next(m: OauthModel, saved: Option<TokensModel>) -> (OauthModel, Option<bool>) {
    match (m.store_path, saved) {
        (Some(_), Some(t)) => {
            let (m1, stop) = with_worker(OauthModel { tokens: Some(t), ..m });
            (m1, Some(stop))
        },
        _ => (m, None),
    }
}

/// Keeping a token response received at `now`.
pub open spec fn with_tokens(m: OauthModel, resp: TokensModel, now: i64) -> OauthModel {
    OauthModel { tokens: Some(tokens_from(resp, now)), ..m }
}

/// Forgetting the login: tokens dropped, worker told to stop (the flag says whether one ran).
pub open spec fn invalidated(m: OauthModel) -> (OauthModel, bool) {
    (OauthModel { tokens: None, worker_running: false, ..m }, m.worker_running)
}

/// A form of the token endpoint: the client id first, then `extra`.
pub open spec fn token_form(client_id: Seq<char>, extra: Seq<(Seq<char>, Seq<char>)>) -> Seq<(Seq<char>, Seq<char>)> {
    seq![("client_id"@, client_id)] + extra
}

/// What a login callback's query carries: the last `code`, the last `state`, and the first
/// `error` or `error_description`.
pub struct CallbackFields {
    pub code: Option<Seq<char>>,
    pub state: Option<Seq<char>>,
    pub error: Option<Seq<char>>,
}

pub open spec fn scan_callback(pairs: Seq<(Seq<char>, Seq<char>)>) -> CallbackFields
    decreases pairs.len(),
{
    if pairs.len() == 0 {
        CallbackFields { code: None, state: None, error: None }
    } else {
        let prev = scan_callback(pairs.drop_last());
        let k = pairs.last().0;
        let v = pairs.last().1;
        if k == "code"@ {
            CallbackFields { code: Some(v), ..prev }
        } else if k == "state"@ {
            CallbackFields { state: Some(v), ..prev }
        } else if (k == "error_description"@ || k == "error"@) && prev.error is None {
            CallbackFields { error: Some(v), ..prev }
        } else {
            prev
        }
    }
}

/// Checking a login callback's query against the login in progress.
///
/// An error that Discord reports, or a missing code, is answered before anything changes.
/// Otherwise the login in progress is consumed (whatever follows); without one, or with a
/// state that differs from the one sent, the login fails. On success the answer is the
/// form of the authorization-code exchange.
pub open spec fn login_check(m: OauthModel, pairs: Seq<(Seq<char>, Seq<char>)>) -> (OauthModel, Result<Seq<(Seq<char>, Seq<char>)>, Seq<char>>) {
    let f = scan_callback(pairs);
    if f.error is Some {
        (m, Err("Discord: "@ + f.error->0))
    } else if f.code is None {
        (m, Err("callback has no code"@))
    } else if m.pending is None {
        (m, Err("no login in progress (start it from the app again)"@))
    } else {
        let m1 = OauthModel { pending: None, ..m };
        let p = m.pending->0;
        if f.state != Some(p.1) {
            (m1, Err("login state mismatch, please try again"@))
        } else {
            (m1, Ok(token_form(m.client_id, seq![
                ("grant_type"@, "authorization_code"@),
                ("code"@, f.code->0),
                ("redirect_uri"@, m.redirect_uri),
                ("code_verifier"@, p.0),
            ])))
        }
    }
}

/// What asking for an access token at `now` leads to: no login, the current token when it
/// is not forced and has more than a minute left, else a refresh with this form.
#[derive(Debug)]
pub enum AccessPlan {
    Ready(String),
    Refresh(Vec<(String, String)>),
}

pub enum AccessPlanModel {
    Ready(Seq<char>),
    Refresh(Seq<(Seq<char>, Seq<char>)>),
}

impl View for AccessPlan {
    type V = AccessPlanModel;

    open spec fn view(&self) -> AccessPlanModel {
        match self {
            AccessPlan::Ready(t) => AccessPlanModel::Ready(t@),
            AccessPlan::Refresh(f) => AccessPlanModel::Refresh(f.deep_view()),
        }
    }
}

pub open spec fn access_plan(m: OauthModel, force_refresh: bool, now: i64) -> Result<AccessPlanModel, Seq<char>> {
    match m.tokens {
        None => Err("not logged in"@),
        Some(t) => if !force_refresh && now < t.expires_at - 60 {
            Ok(AccessPlanModel::Ready(t.access_token))
        } else {
            Ok(AccessPlanModel::Refresh(token_form(m.client_id, seq![
                ("grant_type"@, "refresh_token"@),
                ("refresh_token"@, t.refresh_token),
            ])))
        },
    }
}

/// The outcome of a refresh: the access token or the error; whether the login was
/// forgotten (the refresh token was rejected with `invalid_grant`); whether the worker
/// must be told to stop.
#[derive(Debug)]
pub struct RefreshOutcome {
    pub access: Result<String, String>,
    pub invalidated: bool,
    pub stop_worker: bool,
}

pub open spec fn refresh_result_view(r: Result<String, String>) -> Result<Seq<char>, Seq<char>> {
    match r {
        Ok(t) => Ok(t@),
        Err(e) => Err(e@),
    }
}

pub open spec fn refresh_outcome(m: OauthModel, result: Result<TokensModel, Seq<char>>, now: i64) -> (OauthModel, Result<Seq<char>, Seq<char>>, bool, bool) {
    match result {
        Ok(resp) => (with_tokens(m, resp, now), Ok(resp.access_token), false, false),
        Err(e) => if contains_seq(e, "invalid_grant"@) {
            (invalidated(m).0, Err(e), true, invalidated(m).1)
        } else {
            (m, Err(e), false, false)
        },
    }
}

// ----------------------------------------------------------------------- token replies

/// The canonical reason phrase of an HTTP status, where it has one (`"Bad Request"` for
/// 400).
pub uninterp spec fn http_reason(status: u16) -> Option<Seq<char>>;

/// `reqwest::StatusCode::from_u16`, then `canonical_reason`: the contract claims the result
/// is the named reason phrase of `status` (a valid status code, 100 to 999).
#[verifier::external_body]
fn status_reason(status: u16) -> (r: Option<String>)
    requires
        100 <= status <= 999,
    ensures
        opt_text(r) == http_reason(status),
{
    match reqwest::StatusCode::from_u16(status) {
        Ok(code) => match code.canonical_reason() {
            Some(t) => Some(t.to_owned()),
            None => None,
        },
        Err(_) => None,
    }
}

/// How an HTTP status is written: its number and its reason phrase (or
/// `<unknown status code>`).
pub open spec fn status_display(status: u16) -> Seq<char> {
    decimal(status as nat) + " "@ + match http_reason(status) {
        Some(r) => r,
        None => "<unknown status code>"@,
    }
}

/// The error of a token request that the endpoint refused with `status` and `body`.
pub open spec fn token_error(status: u16, body: Seq<char>) -> Seq<char> {
    "Discord token error "@ + status_display(status) + ": "@ + body
}

/// What the token endpoint's reply with HTTP `status` means, given its `body` and what a
/// successful body read as (`None`: not a token response): a status outside 200..=299 is
/// [`token_error`]; a success must read as a token response, else it fails as
/// [`decode_error_msg`].
pub open spec fn token_outcome(status: u16, body: Seq<char>, parsed: Option<TokensModel>) -> Result<TokensModel, Seq<char>> {
    if 200 <= status <= 299 {
        match parsed {
            Some(t) => Ok(t),
            None => Err(decode_error_msg()),
        }
    } else {
        Err(token_error(status, body))
    }
}

/// How an HTTP status is written; see [`status_display`].
pub fn status_display_text(status: u16) -> (r: String)
    requires
        100 <= status <= 999,
    ensures
        r@ == status_display(status),
{
    let mut s = decimal_text(status as u64);
    s.append(" ");
    match status_reason(status) {
        Some(reason) => s.append(reason.as_str()),
        None => s.append("<unknown status code>"),
    }
    s
}

/// Reads the token endpoint's reply; see [`token_outcome`].
pub fn token_reply(status: u16, body: String, parsed: Option<TokenResponse>) -> (r: Result<TokenResponse, String>)
    requires
        100 <= status <= 999,
    ensures
        ({
            let parsed_view = match parsed {
                Some(t) => Some(response_view(t)),
                None => None,
            };
            match r {
                Ok(t) => token_outcome(status, body@, parsed_view) == Ok::<_, Seq<char>>(response_view(t)),
                Err(e) => token_outcome(status, body@, parsed_view) == Err::<TokensModel, _>(e@),
            }
        }),
{
    if 200 <= status && status <= 299 {
        match parsed {
            Some(t) => Ok(t),
            None => Err("error decoding response body".to_owned()),
        }
    } else {
        let mut e = "Discord token error ".to_owned();
        let shown = status_display_text(status);
        e.append(shown.as_str());
        e.append(": ");
        e.append(body.as_str());
        Err(e)
    }
}

/// A refused token request carries the endpoint's body in its error: a refresh token the
/// endpoint rejects with `invalid_grant` in the body forgets the login.
pub proof fn lemma_refused_grant_forgets_login(m: OauthModel, status: u16, body: Seq<char>, now: i64)
    requires
        !(200 <= status <= 299),
        contains_seq(body, "invalid_grant"@),
    ensures
        ({
            let reply = token_outcome(status, body, None);
            &&& reply is Err
            &&& contains_seq(reply->Err_0, "invalid_grant"@)
            &&& refresh_outcome(m, reply, now).0.tokens is None
            &&& refresh_outcome(m, reply, now).2
        }),
{
    let needle = "invalid_grant"@;
    let prefix = "Discord token error "@ + status_display(status) + ": "@;
    let i = choose|i: int| occurs_at(body, needle, i);
    let e = prefix + body;
    assert(e.subrange(prefix.len() + i, prefix.len() + i + needle.len()) =~= body.subrange(i, i + needle.len()));
    assert(occurs_at(e, needle, prefix.len() + i));
}

// ----------------------------------------------------------------------- operations

fn form_field(k: &str, v: &str) -> (r: (String, String))
    ensures
        r.0@ == k@,
        r.1@ == v@,
{
    (k.to_owned(), v.to_owned())
}

impl OauthPresence {
    /// The redirect URI is always the one derived from the application id.
    #[verifier::type_invariant]
    spec fn redirect_matches_client(self) -> bool {
        self.redirect_uri@ == redirect_uri_for(self.client_id@)
    }

    /// A presence for the Discord application `client_id`; `store_path` is where the
    /// caller keeps the tokens between launches.
    pub fn new(client_id: String, store_path: Option<String>) -> (r: Self)
        ensures
            r@ == oauth_new(client_id@, opt_text(store_path)),
    {
        let mut redirect_uri = "discord-".to_owned();
        redirect_uri.append(client_id.as_str());
        redirect_uri.append(":/authorize/callback");
        OauthPresence {
            client_id,
            redirect_uri,
            store_path,
            tokens: None,
            pending: None,
            now_playing: None,
            worker_running: false,
        }
    }

    /// The application id.
    pub fn client_id(&self) -> (r: &String)
        ensures
            r@ == self@.client_id,
    {
        &self.client_id
    }

    /// The redirect URI of the login: always the deep link derived from the application id.
    pub fn redirect_uri(&self) -> (r: &String)
        ensures
            r@ == self@.redirect_uri,
            r@ == redirect_uri_for(self@.client_id),
    {
        proof {
            use_type_invariant(self);
        }
        &self.redirect_uri
    }

    /// Where the tokens are kept between launches, if anywhere.
    pub fn store_path(&self) -> (r: &Option<String>)
        ensures
            opt_text(*r) == self@.store_path,
    {
        &self.store_path
    }

    /// Whether a login is kept.
    pub fn is_logged_in(&self) -> (r: bool)
        ensures
            r == (self@.tokens is Some),
    {
        self.tokens.is_some()
    }

    /// Whether a background worker runs.
    pub fn worker_running(&self) -> (r: bool)
        ensures
            r == self@.worker_running,
    {
        self.worker_running
    }

    /// The kept tokens, if any.
    pub fn tokens(&self) -> (r: Option<Tokens>)
        ensures
            opt_tokens(r) == self@.tokens,
    {
        match &self.tokens {
            Some(t) => Some(t.clone()),
            None => None,
        }
    }

    /// The latest now-playing presence (none while nothing plays).
    pub fn current_presence(&self) -> (r: Option<Presence>)
        ensures
            r == self@.now_playing,
    {
        match &self.now_playing {
            Some(p) => Some(p.clone()),
            None => None,
        }
    }

    /// The latest "now playing" (none while nothing plays). It is kept while logged out
    /// too, so that the worker can publish it right after a login.
    pub fn update(&mut self, p: Option<Presence>)
        ensures
            final(self)@ == (OauthModel { now_playing: p, ..old(self)@ }),
    {
        proof {
            use_type_invariant(&*self);
        }
        self.now_playing = p;
    }

    /// Starts the background worker (which the caller spawns): returns whether a previous
    /// worker must be told to stop.
    pub fn start_worker(&mut self) -> (stop_previous: bool)
        ensures
            (final(self)@, stop_previous) == with_worker(old(self)@),
    {
        proof {
            use_type_invariant(&*self);
        }
        let was = self.worker_running;
        self.worker_running = true;
        was
    }

    /// Restores a login saved by an earlier launch (read by the caller from the store
    /// path): without a store path, or without saved tokens, nothing changes and `None`
    /// is returned; otherwise the tokens are kept and the worker started, and the answer
    /// says whether a previous worker must be told to stop.
    pub fn load_saved(&mut self, saved: Option<Tokens>) -> (r: Option<bool>)
        ensures
            (final(self)@, r) == load_saved_next(old(self)@, match saved { Some(t) => Some(t@), None => None }),
    {
        proof {
            use_type_invariant(&*self);
        }
        if self.store_path.is_none() {
            return None;
        }
        match saved {
            Some(t) => {
                self.tokens = Some(t);
                Some(self.start_worker())
            },
            None => None,
        }
    }

    /// Step 1 of the login, with the verifier and state given: keeps them as the login in
    /// progress and answers the authorize URL.
    pub fn begin_login_with(&mut self, verifier: String, state: String) -> (url: String)
        ensures
            final(self)@ == (OauthModel { pending: Some((verifier@, state@)), ..old(self)@ }),
            url@ == authorize_url(old(self)@.client_id, old(self)@.redirect_uri, state@, pkce_challenge_of(verifier@)),
    {
        proof {
            use_type_invariant(&*self);
        }
        let challenge = pkce_challenge(verifier.as_str());
        let encoded_redirect = url_encode(self.redirect_uri.as_str());
        let encoded_scope = url_encode(login_scope_text());
        let url = authorize_url_from(self.client_id.as_str(), encoded_redirect.as_str(), encoded_scope.as_str(), state.as_str(), challenge.as_str());
        self.pending = Some(Pending { verifier, state });
        url
    }

    /// Step 1 of the login: a random 32-byte verifier and 16-byte state, both in URL-safe
    /// base64, kept as the login in progress; answers the authorize URL.
    pub fn begin_login(&mut self) -> (url: String)
        ensures
            exists|vb: Seq<u8>, sb: Seq<u8>| {
                &&& vb.len() == 32
                &&& sb.len() == 16
                &&& base64_url(vb).len() == 43
                &&& base64_url(sb).len() == 22
                &&& final(self)@ == (OauthModel { pending: Some((base64_url(vb), base64_url(sb))), ..old(self)@ })
                &&& url@ == authorize_url(old(self)@.client_id, old(self)@.redirect_uri, base64_url(sb), pkce_challenge_of(base64_url(vb)))
            },
            final(self)@.pending matches Some((v, st)) && v.len() == 43 && st.len() == 22
                && (forall|i: int| 0 <= i < v.len() ==> b64_url_char(#[trigger] v[i]))
                && (forall|i: int| 0 <= i < st.len() ==> b64_url_char(#[trigger] st[i])),
    {
        let verifier = random_b64(32);
        let state = random_b64(16);
        let ghost vb = choose|b: Seq<u8>| b.len() == 32 && verifier@ == base64_url(b);
        let ghost sb = choose|b: Seq<u8>| b.len() == 16 && state@ == base64_url(b);
        proof {
            lemma_base64_url_alphabet(vb);
            lemma_base64_url_alphabet(sb);
        }
        let url = self.begin_login_with(verifier, state);
        assert(final(self)@ == (OauthModel { pending: Some((base64_url(vb), base64_url(sb))), ..old(self)@ }));
        url
    }

    /// Step 2 of the login, on the callback's query pairs; see [`login_check`].
    pub fn finish_login_with_pairs(&mut self, pairs: Vec<(String, String)>) -> (r: Result<Vec<(String, String)>, String>)
        ensures
            (final(self)@, refresh_form_view(r)) == login_check(old(self)@, pairs.deep_view()),
    {
        proof {
            use_type_invariant(&*self);
        }
        let n = pairs.len();
        let mut code: Option<String> = None;
        let mut state: Option<String> = None;
        let mut error: Option<String> = None;
        let mut i: usize = 0;
        while i < n
            invariant
                n == pairs.len(),
                i <= n,
                scan_callback(pairs.deep_view().take(i as int)) == (CallbackFields { code: opt_text(code), state: opt_text(state), error: opt_text(error) }),
            decreases n - i,
        {
            let ghost pv = pairs.deep_view();
            assert(pv.take(i + 1).drop_last() =~= pv.take(i as int));
            assert(pv.take(i + 1).last() == pv[i as int]);
            let k = &pairs[i].0;
            let v = &pairs[i].1;
            if same_text(k.as_str(), "code") {
                code = Some(v.clone());
            } else if same_text(k.as_str(), "state") {
                state = Some(v.clone());
            } else if same_text(k.as_str(), "error_description") || same_text(k.as_str(), "error") {
                if error.is_none() {
                    error = Some(v.clone());
                }
            }
            i = i + 1;
        }
        assert(pairs.deep_view().take(n as int) =~= pairs.deep_view());
        match error {
            Some(e) => {
                let mut msg = "Discord: ".to_owned();
                msg.append(e.as_str());
                return Err(msg);
            },
            None => {},
        }
        let code = match code {
            Some(c) => c,
            None => return Err("callback has no code".to_owned()),
        };
        let pending = match &self.pending {
            Some(p) => Pending { verifier: p.verifier.clone(), state: p.state.clone() },
            None => return Err("no login in progress (start it from the app again)".to_owned()),
        };
        self.pending = None;
        let matches = match &state {
            Some(s) => s.as_str().to_owned() == pending.state,
            None => false,
        };
        if !matches {
            return Err("login state mismatch, please try again".to_owned());
        }
        let mut form: Vec<(String, String)> = Vec::new();
        form.push(form_field("client_id", self.client_id.as_str()));
        form.push(form_field("grant_type", "authorization_code"));
        form.push(form_field("code", code.as_str()));
        form.push(form_field("redirect_uri", self.redirect_uri.as_str()));
        form.push(form_field("code_verifier", pending.verifier.as_str()));
        assert(form.deep_view() =~= token_form(self.client_id@, seq![
            ("grant_type"@, "authorization_code"@),
            ("code"@, code@),
            ("redirect_uri"@, self.redirect_uri@),
            ("code_verifier"@, pending.verifier@),
        ]));
        Ok(form)
    }

    /// Step 2 of the login: `url` is the full redirect URL Discord sent back. An unparsable
    /// URL fails with `bad callback URL: ` and the parser's message; otherwise see
    /// [`login_check`]. On success the answer is the form the caller posts to the token
    /// endpoint, then hands the reply to [`OauthPresence::complete_login`].
    pub fn finish_login(&mut self, url: String) -> (r: Result<Vec<(String, String)>, String>)
        ensures
            match url_query_pairs(url@) {
                Err(e) => final(self)@ == old(self)@ && refresh_form_view(r) == Err::<Seq<(Seq<char>, Seq<char>)>, _>("bad callback URL: "@ + e),
                Ok(pairs) => (final(self)@, refresh_form_view(r)) == login_check(old(self)@, pairs),
            },
    {
        match callback_query(url.as_str()) {
            Err(e) => {
                let mut msg = "bad callback URL: ".to_owned();
                msg.append(e.as_str());
                Err(msg)
            },
            Ok(pairs) => self.finish_login_with_pairs(pairs),
        }
    }

    /// Keeps the tokens of a response received at `now` (`expires_at = now + expires_in`)
    /// and returns them, for the caller to write to the store path.
    pub fn store_tokens(&mut self, resp: TokenResponse, now: i64) -> (kept: Tokens)
        requires
            expiry_fits(now, resp.expires_in),
        ensures
            final(self)@ == with_tokens(old(self)@, response_view(resp), now),
            kept@ == tokens_from(response_view(resp), now),
    {
        proof {
            use_type_invariant(&*self);
        }
        let tokens = Tokens {
            access_token: resp.access_token,
            refresh_token: resp.refresh_token,
            expires_at: now + resp.expires_in,
        };
        let kept = tokens.clone();
        self.tokens = Some(tokens);
        kept
    }

    /// Step 3 of the login: the token endpoint's reply to the code exchange, received at
    /// `now`. An error is passed on unchanged; a response is kept and the worker started.
    /// On success the answer is the kept tokens and whether a previous worker must be
    /// told to stop.
    pub fn complete_login(&mut self, reply: Result<TokenResponse, String>, now: i64) -> (r: Result<(Tokens, bool), String>)
        requires
            reply matches Ok(resp) ==> expiry_fits(now, resp.expires_in),
        ensures
            match reply {
                Err(e) => {
                    &&& final(self)@ == old(self)@
                    &&& r matches Err(e2) && e2@ == e@
                },
                Ok(resp) => {
                    let (m, stop) = with_worker(with_tokens(old(self)@, response_view(resp), now));
                    &&& final(self)@ == m
                    &&& r matches Ok((kept, s)) && s == stop && kept@ == tokens_from(response_view(resp), now)
                },
            },
    {
        match reply {
            Err(e) => Err(e),
            Ok(resp) => {
                let kept = self.store_tokens(resp, now);
                let stop = self.start_worker();
                Ok((kept, stop))
            },
        }
    }

    /// Forgets the login (its refresh token was rejected): the caller deletes the stored
    /// tokens, and stops the worker when the answer says so.
    pub fn invalidate(&mut self) -> (stop_worker: bool)
        ensures
            (final(self)@, stop_worker) == invalidated(old(self)@),
    {
        proof {
            use_type_invariant(&*self);
        }
        self.tokens = None;
        let was = self.worker_running;
        self.worker_running = false;
        was
    }

    /// What getting an access token at `now` (Unix seconds) takes; see [`access_plan`].
    pub fn access_token(&self, force_refresh: bool, now: i64) -> (r: Result<AccessPlan, String>)
        ensures
            match r {
                Ok(p) => access_plan(self@, force_refresh, now) == Ok::<_, Seq<char>>(p@),
                Err(e) => access_plan(self@, force_refresh, now) == Err::<AccessPlanModel, _>(e@),
            },
    {
        match &self.tokens {
            None => Err("not logged in".to_owned()),
            Some(t) => {
                let fresh: bool = (now as i128) < (t.expires_at as i128) - 60;
                if !force_refresh && fresh {
                    Ok(AccessPlan::Ready(t.access_token.clone()))
                } else {
                    let mut form: Vec<(String, String)> = Vec::new();
                    form.push(form_field("client_id", self.client_id.as_str()));
                    form.push(form_field("grant_type", "refresh_token"));
                    form.push(form_field("refresh_token", t.refresh_token.as_str()));
                    assert(form.deep_view() =~= token_form(self.client_id@, seq![
                        ("grant_type"@, "refresh_token"@),
                        ("refresh_token"@, t.refresh_token@),
                    ]));
                    Ok(AccessPlan::Refresh(form))
                }
            },
        }
    }

    /// The token endpoint's reply to a refresh, received at `now`; see [`refresh_outcome`].
    pub fn refresh_finished(&mut self, reply: Result<TokenResponse, String>, now: i64) -> (r: RefreshOutcome)
        requires
            reply matches Ok(resp) ==> expiry_fits(now, resp.expires_in),
        ensures
            ({
                let reply_view = match reply {
                    Ok(resp) => Ok(response_view(resp)),
                    Err(e) => Err(e@),
                };
                (final(self)@, refresh_result_view(r.access), r.invalidated, r.stop_worker)
                    == refresh_outcome(old(self)@, reply_view, now)
            }),
    {
        match reply {
            Ok(resp) => {
                let access = resp.access_token.clone();
                self.store_tokens(resp, now);
                RefreshOutcome { access: Ok(access), invalidated: false, stop_worker: false }
            },
            Err(e) => {
                if contains_text(e.as_str(), "invalid_grant") {
                    let stop = self.invalidate();
                    RefreshOutcome { access: Err(e), invalidated: true, stop_worker: stop }
                } else {
                    RefreshOutcome { access: Err(e), invalidated: false, stop_worker: false }
                }
            },
        }
    }
}

/// View of a result carrying a form.
pub open spec fn refresh_form_view(r: Result<Vec<(String, String)>, String>) -> Result<Seq<(Seq<char>, Seq<char>)>, Seq<char>> {
    match r {
        Ok(f) => Ok(f.deep_view()),
        Err(e) => Err(e@),
    }
}

// ----------------------------------------------------------------------- laws

/// The login round trip: with a login in progress for `verifier` and `state`, a callback
/// that reports no error and carries a code consumes the login; it succeeds exactly when
/// the callback's state is the one sent, and then asks to exchange that code with that
/// verifier at the login's redirect URI; otherwise it fails as a state mismatch. The same
/// callback a second time finds no login in progress.
pub proof fn lemma_login_roundtrip(m: OauthModel, verifier: Seq<char>, state: Seq<char>, pairs: Seq<(Seq<char>, Seq<char>)>)
    requires
        scan_callback(pairs).error is None,
        scan_callback(pairs).code is Some,
    ensures
        ({
            let m1 = OauthModel { pending: Some((verifier, state)), ..m };
            let (m2, r) = login_check(m1, pairs);
            &&& m2 == OauthModel { pending: None, ..m }
            &&& (r is Ok <==> scan_callback(pairs).state == Some(state))
            &&& match r {
                Ok(form) => form == token_form(m.client_id, seq![
                    ("grant_type"@, "authorization_code"@),
                    ("code"@, scan_callback(pairs).code->0),
                    ("redirect_uri"@, m.redirect_uri),
                    ("code_verifier"@, verifier),
                ]),
                Err(e) => e == "login state mismatch, please try again"@,
            }
            &&& login_check(m2, pairs) == (m2, Err::<Seq<(Seq<char>, Seq<char>)>, _>("no login in progress (start it from the app again)"@))
        }),
{
}

/// A callback that reports an error, or that carries no code, changes nothing: the login
/// in progress stays and can still be completed.
pub proof fn lemma_rejected_callback_keeps_login(m: OauthModel, pairs: Seq<(Seq<char>, Seq<char>)>)
    requires
        scan_callback(pairs).error is Some || scan_callback(pairs).code is None,
    ensures
        login_check(m, pairs).0 == m,
        login_check(m, pairs).1 is Err,
{
}

/// The access token kept is served, unforced, only while `now` is more than a minute
/// before it expires; at any later time (an expired token included), and whenever a
/// refresh is forced, the plan is a refresh with the kept refresh token. Without a login
/// there is nothing to serve.
pub proof fn lemma_expired_token_refreshed(m: OauthModel, force: bool, now: i64)
    ensures
        m.tokens matches Some(t) ==> {
            let refresh = AccessPlanModel::Refresh(seq![
                ("client_id"@, m.client_id),
                ("grant_type"@, "refresh_token"@),
                ("refresh_token"@, t.refresh_token),
            ]);
            &&& (!force && now < t.expires_at - 60) ==> access_plan(m, force, now) == Ok::<_, Seq<char>>(AccessPlanModel::Ready(t.access_token))
            &&& (force || now >= t.expires_at - 60) ==> access_plan(m, force, now) == Ok::<_, Seq<char>>(refresh)
            &&& access_plan(m, force, now) is Ok
        },
        m.tokens is None ==> access_plan(m, force, now) == Err::<AccessPlanModel, _>("not logged in"@),
{
    if let Some(t) = m.tokens {
        assert(token_form(m.client_id, seq![("grant_type"@, "refresh_token"@), ("refresh_token"@, t.refresh_token)]) =~= seq![
            ("client_id"@, m.client_id),
            ("grant_type"@, "refresh_token"@),
            ("refresh_token"@, t.refresh_token),
        ]);
    }
}

/// Tokens kept at `now` are served as they are until a minute before they expire, unless
/// a refresh is forced; a forced refresh asks with the kept refresh token.
pub proof fn lemma_kept_token_served(m: OauthModel, resp: TokensModel, now: i64, later: i64)
    requires
        expiry_fits(now, resp.expires_at),
        later < now + resp.expires_at - 60,
    ensures
        access_plan(with_tokens(m, resp, now), false, later) == Ok::<_, Seq<char>>(AccessPlanModel::Ready(resp.access_token)),
        access_plan(with_tokens(m, resp, now), true, later) == Ok::<_, Seq<char>>(AccessPlanModel::Refresh(token_form(m.client_id, seq![
            ("grant_type"@, "refresh_token"@),
            ("refresh_token"@, resp.refresh_token),
        ]))),
{
}

/// A refreshed token is answered and kept: asking again within its lifetime serves it.
pub proof fn lemma_refresh_then_served(m: OauthModel, resp: TokensModel, now: i64, later: i64)
    requires
        expiry_fits(now, resp.expires_at),
        later < now + resp.expires_at - 60,
    ensures
        ({
            let (m1, access, invalid, stop) = refresh_outcome(m, Ok(resp), now);
            &&& access == Ok::<_, Seq<char>>(resp.access_token)
            &&& !invalid && !stop
            &&& access_plan(m1, false, later) == Ok::<_, Seq<char>>(AccessPlanModel::Ready(resp.access_token))
        }),
{
}

/// A refresh rejected with `invalid_grant` forgets the login and stops the worker: asking
/// for a token then fails as "not logged in". Any other failure changes nothing.
pub proof fn lemma_refresh_failure(m: OauthModel, e: Seq<char>, now: i64, force: bool, later: i64)
    ensures
        contains_seq(e, "invalid_grant"@) ==> {
            let (m1, access, invalid, stop) = refresh_outcome(m, Err(e), now);
            &&& access == Err::<Seq<char>, _>(e) && invalid && stop == m.worker_running
            &&& m1.tokens is None && !m1.worker_running
            &&& access_plan(m1, force, later) == Err::<AccessPlanModel, _>("not logged in"@)
        },
        !contains_seq(e, "invalid_grant"@) ==> refresh_outcome(m, Err(e), now) == (m, Err::<Seq<char>, Seq<char>>(e), false, false),
{
}

/// A login survives restarts. A presence `a` with store path `path` keeps a token
/// response received at `now`; the tokens it hands out for the store path are what the
/// caller writes there. A new presence for the same application and the same store path,
/// given those tokens back, is logged in with exactly `a`'s tokens, starts its worker
/// (with no earlier one to stop) and serves the same access token until a minute before
/// it expires.
pub proof fn lemma_saved_login_restored(a: OauthModel, path: Seq<char>, resp: TokensModel, now: i64, later: i64)
    requires
        a.store_path == Some(path),
        expiry_fits(now, resp.expires_at),
    ensures
        ({
            let a1 = with_tokens(a, resp, now);
            let kept = tokens_from(resp, now);
            let (b, stop) = load_saved_next(oauth_new(a.client_id, Some(path)), Some(kept));
            &&& a1.tokens == Some(kept)
            &&& b.tokens is Some
            &&& b.tokens == a1.tokens
            &&& b.worker_running
            &&& stop == Some(false)
            &&& b.client_id == a.client_id
            &&& b.redirect_uri == redirect_uri_for(a.client_id)
            &&& b.store_path == Some(path)
            &&& (later < now + resp.expires_at - 60 ==> access_plan(b, false, later) == access_plan(a1, false, later))
            &&& (later < now + resp.expires_at - 60 ==> access_plan(b, false, later) == Ok::<_, Seq<char>>(AccessPlanModel::Ready(resp.access_token)))
        }),
{
}

/// What was reported as playing survives logging in and out: the login's steps keep it, so
/// the worker started by a login publishes it at once.
pub proof fn lemma_now_playing_survives_login(m: OauthModel, np: Option<Presence>, resp: TokensModel, now: i64, pairs: Seq<(Seq<char>, Seq<char>)>)
    ensures
        ({
            let m1 = OauthModel { now_playing: np, ..m };
            &&& login_check(m1, pairs).0.now_playing == np
            &&& with_worker(with_tokens(login_check(m1, pairs).0, resp, now)).0.now_playing == np
            &&& invalidated(m1).0.now_playing == np
        }),
{
}

/// Every operation keeps the application id and the redirect URI derived from it.
pub proof fn lemma_identity_kept(
    m: OauthModel,
    resp: TokensModel,
    now: i64,
    pairs: Seq<(Seq<char>, Seq<char>)>,
    reply: Result<TokensModel, Seq<char>>,
    pending: Option<(Seq<char>, Seq<char>)>,
    np: Option<Presence>,
)
    requires
        m.redirect_uri == redirect_uri_for(m.client_id),
    ensures
        ({
            let after = seq![
                with_worker(m).0,
                with_tokens(m, resp, now),
                invalidated(m).0,
                login_check(m, pairs).0,
                refresh_outcome(m, reply, now).0,
                OauthModel { pending, ..m },
                OauthModel { now_playing: np, ..m },
            ];
            forall|i: int| 0 <= i < after.len() ==> #[trigger] after[i].client_id == m.client_id
                && after[i].redirect_uri == redirect_uri_for(m.client_id)
        }),
{
}

} // verus!

//! What the page reports as playing, and what is shown on Discord for it.

use vstd::prelude::*;
use crate::json::opt_text;

verus! {

/// Rich-presence content reported by the page for the current track.
/// `start`/`end` are Unix times in milliseconds; together they draw the elapsed-time bar.
#[derive(Debug)]
pub struct Presence {
    pub details: String,
    pub state: String,
    pub image: Option<String>,
    pub image_text: Option<String>,
    pub paused: bool,
    pub url: Option<String>,
    pub start: Option<i64>,
    pub end: Option<i64>,
}

/// What the in-page overlay shows for the track that is playing.
#[derive(Debug)]
pub struct NowPlayingMeta {
    pub title: String,
    pub artist: Option<String>,
    pub artwork: Option<String>,
    pub paused: bool,
}

/// Track information sent over the Discord gateway: `game` is shown as details,
/// `platform` as state, `started_at` (Unix ms) drives the elapsed timer.
#[derive(Debug)]
pub struct NowPlaying {
    pub track: String,
    pub game: String,
    pub platform: String,
    pub started_at: i64,
}

/// A copy of an optional string.
pub fn copy_opt_text(o: &Option<String>) -> (r: Option<String>)
    ensures
        r == *o,
{
    match o {
        Some(s) => Some(s.clone()),
        None => None,
    }
}

impl Clone for Presence {
    fn clone(&self) -> (r: Self)
        ensures
            r == *self,
    {
        Presence {
            details: self.details.clone(),
            state: self.state.clone(),
            image: copy_opt_text(&self.image),
            image_text: copy_opt_text(&self.image_text),
            paused: self.paused,
            url: copy_opt_text(&self.url),
            start: self.start,
            end: self.end,
        }
    }
}

impl Clone for NowPlayingMeta {
    fn clone(&self) -> (r: Self)
        ensures
            r == *self,
    {
        NowPlayingMeta {
            title: self.title.clone(),
            artist: copy_opt_text(&self.artist),
            artwork: copy_opt_text(&self.artwork),
            paused: self.paused,
        }
    }
}

impl Clone for NowPlaying {
    fn clone(&self) -> (r: Self)
        ensures
            r == *self,
    {
        NowPlaying {
            track: self.track.clone(),
            game: self.game.clone(),
            platform: self.platform.clone(),
            started_at: self.started_at,
        }
    }
}

/// The state line shown for a presence: prefixed with `"Paused - "` while paused.
pub open spec fn status_line(p: Presence) -> Seq<char> {
    if p.paused {
        "Paused - "@ + p.state@
    } else {
        p.state@
    }
}

/// The elapsed-time bar of a presence: only while playing and only with a start time;
/// the end time is added when there is one.
pub open spec fn time_bar(p: Presence) -> Option<(i64, Option<i64>)> {
    if !p.paused && p.start is Some {
        Some((p.start->0, p.end))
    } else {
        None
    }
}

impl Presence {
    /// The state line: `"Paused - {state}"` while paused, else `state`.
    pub fn state_text(&self) -> (r: String)
        ensures
            r@ == status_line(*self),
    {
        if self.paused {
            let mut s = "Paused - ".to_owned();
            s.append(self.state.as_str());
            s
        } else {
            self.state.clone()
        }
    }

    /// The elapsed-time bar, if any: `(start, end)`.
    pub fn time_bar(&self) -> (r: Option<(i64, Option<i64>)>)
        ensures
            r == time_bar(*self),
    {
        if !self.paused {
            match self.start {
                Some(s) => Some((s, self.end)),
                None => None,
            }
        } else {
            None
        }
    }
}

/// The activity shown through Discord's desktop IPC for a presence: shown as
/// "Listening to `name`", with the page URL behind both the details line and the image.
#[derive(Debug)]
pub struct DesktopActivity {
    pub name: String,
    pub details: String,
    pub details_url: Option<String>,
    pub state: String,
    pub large_image: Option<String>,
    pub large_text: Option<String>,
    pub large_url: Option<String>,
    pub timestamps: Option<(i64, Option<i64>)>,
}

/// Name under which the activity is listed.
pub open spec fn app_name() -> Seq<char> {
    "KHInsider"@
}

/// The desktop activity for a presence.
pub open spec fn desktop_activity_of(p: Presence) -> (Seq<char>, Seq<char>, Option<Seq<char>>, Seq<char>, Option<Seq<char>>, Option<Seq<char>>, Option<Seq<char>>, Option<(i64, Option<i64>)>) {
    (app_name(), p.details@, opt_text(p.url), status_line(p), opt_text(p.image), opt_text(p.image_text), opt_text(p.url), time_bar(p))
}

impl DesktopActivity {
    pub open spec fn fields(self) -> (Seq<char>, Seq<char>, Option<Seq<char>>, Seq<char>, Option<Seq<char>>, Option<Seq<char>>, Option<Seq<char>>, Option<(i64, Option<i64>)>) {
        (self.name@, self.details@, opt_text(self.details_url), self.state@, opt_text(self.large_image), opt_text(self.large_text), opt_text(self.large_url), self.timestamps)
    }
}

/// Builds the desktop activity for `p`.
pub fn desktop_activity(p: &Presence) -> (a: DesktopActivity)
    ensures
        a.fields() == desktop_activity_of(*p),
{
    DesktopActivity {
        name: "KHInsider".to_owned(),
        details: p.details.clone(),
        details_url: copy_opt_text(&p.url),
        state: p.state_text(),
        large_image: copy_opt_text(&p.image),
        large_text: copy_opt_text(&p.image_text),
        large_url: copy_opt_text(&p.url),
        timestamps: p.time_bar(),
    }
}

/// The connection to Discord's desktop IPC socket, as far as the presence logic sees it.
/// A missing connection is opened on the next update; a failed update drops it.
#[derive(Debug)]
pub struct RpcLink {
    pub connected: bool,
}

/// Opening the connection: it is there exactly when opening succeeded.
pub open spec fn link_after_connect(ok: bool) -> bool {
    ok
}

/// Sending an activity: a failure drops the connection.
pub open spec fn link_after_update(connected: bool, ok: bool) -> bool {
    connected && ok
}

impl RpcLink {
    pub fn new() -> (r: Self)
        ensures
            !r.connected,
    {
        RpcLink { connected: false }
    }

    /// Whether an update must first open the connection.
    pub fn needs_connect(&self) -> (r: bool)
        ensures
            r == !self.connected,
    {
        !self.connected
    }

    /// Records the outcome of opening the connection; returns whether the update goes on.
    pub fn connect_finished(&mut self, ok: bool) -> (go_on: bool)
        ensures
            final(self).connected == link_after_connect(ok),
            go_on == ok,
    {
        self.connected = ok;
        ok
    }

    /// Records the outcome of sending an activity: a failure drops the connection.
    pub fn update_finished(&mut self, ok: bool)
        ensures
            final(self).connected == link_after_update(old(self).connected, ok),
    {
        if !ok {
            self.connected = false;
        }
    }

    /// Clearing: returns whether there was a connection to clear and close; none remains.
    pub fn clear(&mut self) -> (had: bool)
        ensures
            had == old(self).connected,
            !final(self).connected,
    {
        let had = self.connected;
        self.connected = false;
        had
    }
}

/// Discord not running, or a connection that died, is retried on the next update: after a
/// failed open or a failed send the next update opens the connection again; after a
/// successful send it does not.
pub proof fn lemma_failed_link_retried(connected: bool)
    ensures
        !link_after_connect(false),
        !link_after_update(connected, false),
        link_after_update(link_after_connect(true), true),
{
}

/// A report replaces whatever was kept.
pub open spec fn store_report(current: Option<NowPlayingMeta>, meta: NowPlayingMeta) -> Option<NowPlayingMeta> {
    Some(meta)
}

/// Reading gives what is kept.
pub open spec fn store_get(current: Option<NowPlayingMeta>) -> Option<NowPlayingMeta> {
    current
}

/// Reading right after a report gives back exactly what was reported, whatever was kept
/// before; before any report there is nothing.
pub proof fn lemma_get_after_report(current: Option<NowPlayingMeta>, meta: NowPlayingMeta)
    ensures
        store_get(store_report(current, meta)) == Some(meta),
        store_get(None) is None,
{
}

/// The latest now-playing information, kept so that a freshly loaded page can show
/// what is still playing in the background.
#[derive(Debug)]
pub struct NowPlayingStore {
    pub current: Option<NowPlayingMeta>,
}

impl NowPlayingStore {
    pub fn new() -> (r: Self)
        ensures
            r.current is None,
    {
        NowPlayingStore { current: None }
    }

    /// Stores `meta` as the latest report and returns the copy to broadcast to the page.
    pub fn report_now_playing_meta(&mut self, meta: NowPlayingMeta) -> (r: NowPlayingMeta)
        ensures
            final(self).current == store_report(old(self).current, meta),
            r == meta,
    {
        let out = meta.clone();
        self.current = Some(meta);
        out
    }

    /// The latest report, if any.
    pub fn get_now_playing(&self) -> (r: Option<NowPlayingMeta>)
        ensures
            r == store_get(self.current),
    {
        match &self.current {
            Some(m) => Some(m.clone()),
            None => None,
        }
    }
}

} // verus!

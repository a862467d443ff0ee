//! The Discord presence client's decisions: when the presence is shown,
//! when the connection is (re)made, what the activity says, and what a sync
//! reports. Talking to Discord itself is left to the caller, which performs
//! each returned step and reports its outcome.

use crate::capture::{is_web_link, join2};
use crate::clock::now_unix;
use crate::config::{DEFAULT_ICON_KEY, DEFAULT_PRESENCE_MESSAGE, DISCORD_CLIENT_ID};
use crate::detection::ClipStudioDetection;
use crate::settings::Settings;
use crate::text::{starts_with, take_chars, take_prefix_chars, trim, trim_spec};
use vstd::prelude::*;
use vstd::utf8::encode_utf8;

verus! {

/// Hover text of the activity's large image.
pub const ACTIVITY_LARGE_TEXT: &'static str = "Clip Studio Paint";

/// Second line shown when the document name is shown but unknown.
pub const UNNAMED_DOCUMENT_STATE: &'static str = "Working on an illustration";

/// Second line shown when the document name is hidden.
pub const HIDDEN_DOCUMENT_STATE: &'static str = "Making art";

/// Most characters Discord takes in an activity text.
pub const MAX_ACTIVITY_TEXT_CHARS: usize = 128;

/// Most bytes a button link may have.
pub const MAX_BUTTON_URL_BYTES: usize = 512;

/// What a sync reports: whether the presence is published, and why not.
#[derive(Debug)]
pub struct PresenceState {
    pub connected: bool,
    pub error: Option<String>,
}

impl PresenceState {
    /// Not connected, no error: the presence is not shown.
    pub fn hidden() -> (res: Self)
        ensures
            !res.connected,
            res.error is None,
    {
        PresenceState { connected: false, error: None }
    }
}

impl Default for PresenceState {
    fn default() -> (res: Self)
        ensures
            !res.connected,
            res.error is None,
    {
        PresenceState::hidden()
    }
}

/// The client's memory between syncs: whether a Discord connection is
/// open, the application id it was opened for, and since when the
/// presence has been shown.
#[derive(Debug)]
pub struct PresenceClient {
    pub connected: bool,
    pub client_id: String,
    pub active_since: Option<i64>,
}

/// The client as plain values.
pub struct PresenceClientView {
    pub connected: bool,
    pub client_id: Seq<char>,
    pub active_since: Option<i64>,
}

impl View for PresenceClient {
    type V = PresenceClientView;

    open spec fn view(&self) -> PresenceClientView {
        PresenceClientView {
            connected: self.connected,
            client_id: self.client_id@,
            active_since: self.active_since,
        }
    }
}

/// The first step of a sync.
#[derive(Debug, PartialEq, Eq, Structural)]
pub enum SyncStart {
    /// Hide the presence: clear the published activity when a connection
    /// is open, and report `PresenceState::hidden()`.
    Hide { clear_activity: bool },
    /// Drop the current connection (clear its activity and close it) when
    /// one is open, then open a new one and report it to `connect_finished`.
    Connect { close_connection: bool },
    /// The connection is open: publish the activity.
    Publish,
}

/// Whether the presence is shown for an observation.
pub open spec fn presence_shown(only_when_focused: bool, running: bool, focused: bool) -> bool {
    running && (!only_when_focused || focused)
}

impl PresenceClientView {
    /// The client with its connection dropped.
    pub open spec fn disconnected(self) -> PresenceClientView {
        PresenceClientView { connected: false, client_id: Seq::empty(), ..self }
    }

    /// The client after a sync's first step, and that step.
    pub open spec fn start(self, shown: bool) -> (PresenceClientView, SyncStart) {
        if !shown {
            (
                PresenceClientView { active_since: None, ..self },
                SyncStart::Hide { clear_activity: self.connected },
            )
        } else if self.client_id != DISCORD_CLIENT_ID@ || !self.connected {
            (
                PresenceClientView { client_id: DISCORD_CLIENT_ID@, ..self.disconnected() },
                SyncStart::Connect { close_connection: self.connected },
            )
        } else {
            (self, SyncStart::Publish)
        }
    }

    /// The client once opening the connection succeeded or failed.
    pub open spec fn after_connect(self, ok: bool) -> PresenceClientView {
        if ok {
            PresenceClientView { connected: true, ..self }
        } else {
            self
        }
    }

    /// The client once the activity is about to be published at `now`.
    pub open spec fn before_publish(self, now: i64) -> PresenceClientView {
        if self.active_since is None {
            PresenceClientView { active_since: Some(now), ..self }
        } else {
            self
        }
    }

    /// The client once publishing succeeded or failed.
    pub open spec fn after_publish(self, ok: bool) -> PresenceClientView {
        if ok {
            self
        } else {
            self.disconnected()
        }
    }
}

impl PresenceClient {
    /// A client with no connection and no running presence.
    pub fn new() -> (res: Self)
        ensures
            !res.connected,
            res.client_id@ == Seq::<char>::empty(),
            res.active_since is None,
    {
        PresenceClient { connected: false, client_id: String::new(), active_since: None }
    }

    /// Decides the first step of a sync: hide the presence when Clip Studio
    /// Paint is not running (or not focused while only a focused window
    /// counts), reconnect when no connection is open for the application
    /// id, publish otherwise.
    pub fn begin_sync(&mut self, settings: &Settings, detection: &ClipStudioDetection) -> (res:
        SyncStart)
        ensures
            (final(self)@, res) == old(self)@.start(
                presence_shown(settings.only_when_focused, detection.running, detection.focused),
            ),
            res is Hide <==> !detection.running || (settings.only_when_focused
                && !detection.focused),
    {
        let should_show = detection.running && (!settings.only_when_focused || detection.focused);
        if !should_show {
            self.active_since = None;
            return SyncStart::Hide { clear_activity: self.connected };
        }
        let expected_id = DISCORD_CLIENT_ID.to_string();
        let id_matches = self.client_id == expected_id;
        if !id_matches || !self.connected {
            let was_connected = self.connected;
            self.connected = false;
            self.client_id = expected_id;
            return SyncStart::Connect { close_connection: was_connected };
        }
        SyncStart::Publish
    }

    /// Records whether opening the connection succeeded. On failure the sync
    /// ends with the returned state.
    pub fn connect_finished(&mut self, outcome: Result<(), String>) -> (res: Option<PresenceState>)
        ensures
            final(self)@ == old(self)@.after_connect(outcome is Ok),
            outcome is Ok ==> res is None,
            outcome is Err ==> res is Some && !res->0.connected && res->0.error is Some
                && res->0.error->0@ == "Could not connect to Discord: "@ + outcome->Err_0@,
    {
        match outcome {
            Ok(()) => {
                self.connected = true;
                None
            },
            Err(e) => Some(
                PresenceState {
                    connected: false,
                    error: Some(join2("Could not connect to Discord: ", e.as_str())),
                },
            ),
        }
    }

    /// Records whether publishing succeeded and gives the sync's result. On
    /// failure the connection is dropped (the caller clears and closes it).
    pub fn publish_finished(&mut self, outcome: Result<(), String>) -> (res: PresenceState)
        ensures
            final(self)@ == old(self)@.after_publish(outcome is Ok),
            outcome is Ok ==> res.connected && res.error is None,
            outcome is Err ==> !res.connected && res.error is Some && res.error->0@
                == "Could not update Discord: "@ + outcome->Err_0@,
    {
        match outcome {
            Ok(()) => PresenceState { connected: true, error: None },
            Err(e) => {
                self.connected = false;
                self.client_id = String::new();
                PresenceState {
                    connected: false,
                    error: Some(join2("Could not update Discord: ", e.as_str())),
                }
            },
        }
    }
}


/// An activity text: `value` trimmed, or `fallback` when nothing is left,
/// cut to the first 128 characters.
pub open spec fn activity_text_spec(value: Seq<char>, fallback: Seq<char>) -> Seq<char> {
    let text = trim_spec(value);
    take_chars(if text.len() == 0 { fallback } else { text }, MAX_ACTIVITY_TEXT_CHARS as nat)
}

/// The activity text for a setting: its trimmed value, or the fallback when
/// it is blank, at most 128 characters long.
pub fn activity_text(value: &str, fallback: &str) -> (res: String)
    ensures
        res@ == activity_text_spec(value@, fallback@),
        res@.len() <= 128,
{
    let text = trim(value);
    let text = if text.unicode_len() == 0 {
        fallback
    } else {
        text
    };
    take_prefix_chars(text, MAX_ACTIVITY_TEXT_CHARS).to_string()
}

/// The link a share button may carry: the trimmed link when it is a web
/// link of at most 512 bytes.
pub open spec fn button_url_spec(url: Seq<char>) -> Option<Seq<char>> {
    let t = trim_spec(url);
    if encode_utf8(t).len() <= MAX_BUTTON_URL_BYTES && is_web_link(t) {
        Some(t)
    } else {
        None
    }
}

/// The trimmed link when a button may carry it.
pub fn valid_button_url(url: &str) -> (res: Option<&str>)
    ensures
        res is Some <==> button_url_spec(url@) is Some,
        res is Some ==> res->0@ == button_url_spec(url@)->0,
{
    let url = trim(url);
    if url.as_bytes().len() <= MAX_BUTTON_URL_BYTES && (starts_with(url, "https://") || starts_with(
        url,
        "http://",
    )) {
        Some(url)
    } else {
        None
    }
}

/// What the published activity holds: its two lines, its start time, its
/// large image (shown with `ACTIVITY_LARGE_TEXT`) and the link of its share
/// button (labelled `SHARE_BUTTON_LABEL`).
#[derive(Debug)]
pub struct ActivityPlan {
    pub details: String,
    pub state: String,
    pub started_at: Option<i64>,
    pub large_image: Option<String>,
    pub share_url: Option<String>,
}

/// The second line of the activity.
pub open spec fn state_line_spec(show_document_name: bool, title: Option<String>) -> Seq<char> {
    if show_document_name {
        match title {
            Some(t) => if t@.len() > 0 {
                t@
            } else {
                UNNAMED_DOCUMENT_STATE@
            },
            None => UNNAMED_DOCUMENT_STATE@,
        }
    } else {
        HIDDEN_DOCUMENT_STATE@
    }
}

/// The activity described by `plan` matches the settings, the observation,
/// the shared link and the presence start `since`.
pub open spec fn plan_matches(
    plan: ActivityPlan,
    settings: Settings,
    detection: ClipStudioDetection,
    shared_screenshot_url: Option<Seq<char>>,
    since: Option<i64>,
) -> bool {
    let icon = activity_text_spec(settings.icon_key@, DEFAULT_ICON_KEY@);
    &&& plan.details@ == activity_text_spec(settings.presence_message@, DEFAULT_PRESENCE_MESSAGE@)
    &&& plan.state@ == state_line_spec(settings.show_document_name, detection.document_title)
    &&& plan.started_at == if settings.show_elapsed_time {
        since
    } else {
        None
    }
    &&& plan.large_image is Some <==> icon.len() > 0
    &&& plan.large_image is Some ==> plan.large_image->0@ == icon
    &&& plan.share_url is Some <==> (shared_screenshot_url is Some && button_url_spec(
        shared_screenshot_url->0,
    ) is Some)
    &&& plan.share_url is Some ==> plan.share_url->0@ == button_url_spec(
        shared_screenshot_url->0,
    )->0
}

impl PresenceClient {
    /// The activity to publish, with the clock read to start the presence
    /// timer when it is not running yet.
    pub fn activity(
        &mut self,
        settings: &Settings,
        detection: &ClipStudioDetection,
        shared_screenshot_url: Option<&str>,
    ) -> (res: ActivityPlan)
        ensures
            exists|now: i64| final(self)@ == old(self)@.before_publish(now),
            final(self).active_since is Some,
            plan_matches(
                res,
                *settings,
                *detection,
                match shared_screenshot_url {
                    Some(u) => Some(u@),
                    None => None,
                },
                final(self).active_since,
            ),
    {
        let now = now_unix() as i64;
        self.activity_at(settings, detection, shared_screenshot_url, now)
    }

    /// The activity to publish at `now`: the presence timer starts now unless
    /// it is running already.
    pub fn activity_at(
        &mut self,
        settings: &Settings,
        detection: &ClipStudioDetection,
        shared_screenshot_url: Option<&str>,
        now: i64,
    ) -> (res: ActivityPlan)
        ensures
            final(self)@ == old(self)@.before_publish(now),
            final(self).active_since is Some,
            plan_matches(
                res,
                *settings,
                *detection,
                match shared_screenshot_url {
                    Some(u) => Some(u@),
                    None => None,
                },
                final(self).active_since,
            ),
    {
        if self.active_since.is_none() {
            self.active_since = Some(now);
        }
        let details = activity_text(
            settings.presence_message.as_str(),
            DEFAULT_PRESENCE_MESSAGE,
        );
        let state = if settings.show_document_name {
            match &detection.document_title {
                Some(t) => if t.as_str().unicode_len() > 0 {
                    t.clone()
                } else {
                    UNNAMED_DOCUMENT_STATE.to_string()
                },
                None => UNNAMED_DOCUMENT_STATE.to_string(),
            }
        } else {
            HIDDEN_DOCUMENT_STATE.to_string()
        };
        let started_at = if settings.show_elapsed_time {
            self.active_since
        } else {
            None
        };
        let icon_key = activity_text(settings.icon_key.as_str(), DEFAULT_ICON_KEY);
        let large_image = if icon_key.as_str().unicode_len() > 0 {
            Some(icon_key)
        } else {
            None
        };
        let share_url = match shared_screenshot_url {
            Some(u) => match valid_button_url(u) {
                Some(v) => Some(v.to_string()),
                None => None,
            },
            None => None,
        };
        ActivityPlan { details, state, started_at, large_image, share_url }
    }
}


/// A sync after a failed publish reconnects before publishing again.
pub proof fn lemma_failed_publish_reconnects(c: PresenceClientView)
    ensures
        c.after_publish(false).start(true).1 is Connect,
        !c.after_publish(false).connected,
{
}

/// Once a connection opened, later syncs that show the presence publish
/// over it without reconnecting, as long as publishing succeeds.
pub proof fn lemma_open_connection_is_reused(c: PresenceClientView, now: i64)
    ensures
        ({
            let (c1, step) = c.start(true);
            let c2 = if step is Connect {
                c1.after_connect(true)
            } else {
                c1
            };
            let c3 = c2.before_publish(now).after_publish(true);
            c3.start(true).1 == SyncStart::Publish
        }),
{
}

/// Hiding the presence stops its timer and keeps the connection as it was.
pub proof fn lemma_hiding_stops_timer(c: PresenceClientView)
    ensures
        c.start(false).0.active_since is None,
        c.start(false).0.connected == c.connected,
        c.start(false).0.client_id == c.client_id,
        c.start(false).1 == (SyncStart::Hide { clear_activity: c.connected }),
{
}

/// While the presence stays shown, its start time does not move: the timer
/// started by the first publish is kept by every later sync, whatever
/// happens to the connection.
pub proof fn lemma_timer_kept_while_shown(c: PresenceClientView, now: i64, connected: bool, published: bool)
    requires
        c.active_since is Some,
    ensures
        c.start(true).0.before_publish(now).active_since == c.active_since,
        c.start(true).0.after_connect(connected).active_since == c.active_since,
        c.start(true).0.after_publish(published).active_since == c.active_since,
{
}

/// The presence is hidden exactly when Clip Studio Paint is not running,
/// or when only a focused window counts and it is not focused: a running
/// and focused Clip Studio Paint always shows the presence, and with
/// `only_when_focused` off a running one shows it whether focused or not.
pub proof fn lemma_when_presence_is_hidden(
    c: PresenceClientView,
    only_when_focused: bool,
    running: bool,
    focused: bool,
)
    ensures
        c.start(presence_shown(only_when_focused, running, focused)).1 is Hide <==> (!running || (
        only_when_focused && !focused)),
        !(c.start(presence_shown(only_when_focused, true, true)).1 is Hide),
        !(c.start(presence_shown(false, true, focused)).1 is Hide),
        c.start(presence_shown(only_when_focused, false, focused)).1 is Hide,
        c.start(presence_shown(true, running, false)).1 is Hide,
{
}

} // verus!

//! The monitor's state: the settings in force, the last observation of Clip
//! Studio Paint, the Discord connection, the focus statistics and the
//! automatic screenshot schedule, with every transition the monitor, the
//! settings dialog and the capture jobs make on it, and the status
//! snapshot shown to the user.

use crate::capture::{CaptureShareError, ShareResult};
use crate::clock::now_unix;
use crate::detection::{clone_opt_string, ClipStudioDetection, PresenceTiming};
use crate::focus::{sat_add, FocusStats};
use crate::presence::{button_url_spec, plan_matches, ActivityPlan, PresenceState};
use crate::text::trim_spec;
use crate::settings::Settings;
use vstd::prelude::*;

verus! {

/// The automatic screenshot schedule.
#[derive(Debug)]
pub struct AutoCaptureState {
    /// Since when Clip Studio Paint has been focused with automatic capture
    /// on; `None` while the schedule is inactive.
    pub focused_since_unix: Option<u64>,
    /// When the next capture is due.
    pub next_capture_unix: Option<u64>,
    pub upload_in_progress: bool,
    pub last_error: Option<String>,
    /// Counts schedule restarts, so that a capture finishing after its
    /// schedule was abandoned does not schedule another.
    pub session_id: u64,
}

/// What the user sees of the state.
#[derive(Debug)]
pub struct AppStatus {
    pub settings: Settings,
    pub clip_studio_running: bool,
    pub clip_studio_focused: bool,
    pub document_title: Option<String>,
    pub shared_screenshot_url: Option<String>,
    pub discord_connected: bool,
    pub discord_error: Option<String>,
    pub procrastination_percent: Option<u8>,
    pub auto_capture_active: bool,
    pub auto_capture_next_unix: Option<u64>,
    pub auto_capture_uploading: bool,
    pub auto_capture_error: Option<String>,
    pub last_updated_unix: u64,
}

/// The monitor's state.
#[derive(Debug)]
pub struct AppState {
    pub settings: Settings,
    pub detection: ClipStudioDetection,
    pub shared_screenshot_url: Option<String>,
    pub discord_connected: bool,
    pub discord_error: Option<String>,
    pub focus_stats: FocusStats,
    pub auto_capture: AutoCaptureState,
    pub last_document_title: Option<String>,
    pub last_updated_unix: u64,
}

/// An automatic capture to run: the settings it runs with and the schedule
/// session it belongs to.
#[derive(Debug)]
pub struct CaptureRequest {
    pub settings: Settings,
    pub session_id: u64,
}

/// `x + 1`, saturating.
pub open spec fn sat_inc(x: u64) -> u64 {
    sat_add(x, 1)
}

/// `max(x, 1)`.
pub open spec fn at_least_one(x: u64) -> u64 {
    if x < 1 {
        1
    } else {
        x
    }
}

/// The observation the presence uses: a running Clip Studio Paint that
/// reports no document title keeps the last title it reported.
pub open spec fn effective_detection(
    last_title: Option<String>,
    d: ClipStudioDetection,
) -> ClipStudioDetection {
    if d.running && d.document_title is None {
        ClipStudioDetection { document_title: last_title, ..d }
    } else {
        d
    }
}

/// The remembered document title after an observation.
pub open spec fn remembered_title(last_title: Option<String>, d: ClipStudioDetection) -> Option<
    String,
> {
    if !d.running {
        None
    } else if d.document_title is Some {
        d.document_title
    } else {
        last_title
    }
}

impl AppState {
    /// The schedule's due time exists only while the schedule is active.
    pub open spec fn wf(self) -> bool {
        self.auto_capture.next_capture_unix is Some ==> self.auto_capture.focused_since_unix is Some
    }

    /// What the user sees of the state.
    pub open spec fn status_spec(self) -> AppStatus {
        AppStatus {
            settings: self.settings,
            clip_studio_running: self.detection.running,
            clip_studio_focused: self.detection.focused,
            document_title: self.detection.document_title,
            shared_screenshot_url: self.shared_screenshot_url,
            discord_connected: self.discord_connected,
            discord_error: self.discord_error,
            procrastination_percent: self.focus_stats.percent_spec(),
            auto_capture_active: self.auto_capture.focused_since_unix is Some,
            auto_capture_next_unix: self.auto_capture.next_capture_unix,
            auto_capture_uploading: self.auto_capture.upload_in_progress,
            auto_capture_error: self.auto_capture.last_error,
            last_updated_unix: self.last_updated_unix,
        }
    }

    /// The state after a screenshot link was shared at `now`.
    pub open spec fn with_shared_screenshot(self, url: String, now: u64) -> AppState {
        AppState {
            shared_screenshot_url: Some(url),
            auto_capture: AutoCaptureState { last_error: None, ..self.auto_capture },
            last_updated_unix: now,
            ..self
        }
    }

    /// The state after new settings were saved: the schedule starts over.
    pub open spec fn with_settings(self, settings: Settings) -> AppState {
        AppState {
            settings: settings,
            auto_capture: AutoCaptureState {
                focused_since_unix: None,
                next_capture_unix: None,
                session_id: sat_inc(self.auto_capture.session_id),
                ..self.auto_capture
            },
            ..self
        }
    }

    /// The state a fresh start gives, with `settings` in force, at `loaded_at`.
    pub open spec fn initial(settings: Settings, loaded_at: u64) -> AppState {
        AppState {
            settings: settings,
            detection: ClipStudioDetection {
                running: false,
                focused: false,
                document_title: None,
            },
            shared_screenshot_url: None,
            discord_connected: false,
            discord_error: None,
            focus_stats: FocusStats {
                focused_seconds: 0,
                idle_seconds: 0,
                last_sample_unix: loaded_at,
                idle_since_unix: None,
            },
            auto_capture: AutoCaptureState {
                focused_since_unix: None,
                next_capture_unix: None,
                upload_in_progress: false,
                last_error: None,
                session_id: 0,
            },
            last_document_title: None,
            last_updated_unix: loaded_at,
        }
    }

    /// The state at start-up, with the clock read for the load time. The
    /// settings read from the settings file are used when there are any,
    /// the defaults otherwise.
    pub fn load(settings: Option<Settings>) -> (res: AppState)
        ensures
            res.wf(),
            exists|loaded_at: u64| res == AppState::initial(res.settings, loaded_at),
            settings is Some ==> res.settings == settings->0,
            settings is None ==> res.settings.has_default_values(),
    {
        let loaded_at = now_unix();
        AppState::load_at(settings, loaded_at)
    }

    /// The state at start-up at `loaded_at`.
    pub fn load_at(settings: Option<Settings>, loaded_at: u64) -> (res: AppState)
        ensures
            res.wf(),
            res == AppState::initial(res.settings, loaded_at),
            settings is Some ==> res.settings == settings->0,
            settings is None ==> res.settings.has_default_values(),
    {
        let settings = match settings {
            Some(s) => s,
            None => Settings::default(),
        };
        AppState {
            settings,
            detection: ClipStudioDetection::not_running(),
            shared_screenshot_url: None,
            discord_connected: false,
            discord_error: None,
            focus_stats: FocusStats::started_at(loaded_at),
            auto_capture: AutoCaptureState {
                focused_since_unix: None,
                next_capture_unix: None,
                upload_in_progress: false,
                last_error: None,
                session_id: 0,
            },
            last_document_title: None,
            last_updated_unix: loaded_at,
        }
    }

    /// Whether the idle percentage can be computed without overflow.
    pub fn percent_is_defined(&self) -> (res: bool)
        ensures
            res == self.focus_stats.percent_defined(),
    {
        self.focus_stats.percent_is_defined()
    }

    /// The share of idle time in percent.
    pub fn procrastination_percent(&self) -> (res: Option<u8>)
        requires
            self.focus_stats.percent_defined(),
        ensures
            res == self.focus_stats.percent_spec(),
    {
        self.focus_stats.procrastination_percent()
    }

    /// What the user sees of the state.
    pub fn snapshot(&self) -> (res: AppStatus)
        requires
            self.focus_stats.percent_defined(),
        ensures
            res == self.status_spec(),
            res.settings == self.settings,
            res.clip_studio_running == self.detection.running,
            res.clip_studio_focused == self.detection.focused,
            res.document_title == self.detection.document_title,
            res.shared_screenshot_url == self.shared_screenshot_url,
            res.discord_connected == self.discord_connected,
            res.discord_error == self.discord_error,
            res.procrastination_percent == self.focus_stats.percent_spec(),
            res.auto_capture_active == (self.auto_capture.focused_since_unix is Some),
            res.auto_capture_next_unix == self.auto_capture.next_capture_unix,
            res.auto_capture_uploading == self.auto_capture.upload_in_progress,
            res.auto_capture_error == self.auto_capture.last_error,
            res.last_updated_unix == self.last_updated_unix,
    {
        AppStatus {
            settings: self.settings.clone(),
            clip_studio_running: self.detection.running,
            clip_studio_focused: self.detection.focused,
            document_title: clone_opt_string(&self.detection.document_title),
            shared_screenshot_url: clone_opt_string(&self.shared_screenshot_url),
            discord_connected: self.discord_connected,
            discord_error: clone_opt_string(&self.discord_error),
            procrastination_percent: self.focus_stats.procrastination_percent(),
            auto_capture_active: self.auto_capture.focused_since_unix.is_some(),
            auto_capture_next_unix: self.auto_capture.next_capture_unix,
            auto_capture_uploading: self.auto_capture.upload_in_progress,
            auto_capture_error: clone_opt_string(&self.auto_capture.last_error),
            last_updated_unix: self.last_updated_unix,
        }
    }

    /// Shares a screenshot link, with the clock read for the update time.
    pub fn set_shared_screenshot(&mut self, url: String)
        ensures
            old(self).wf() ==> final(self).wf(),
            exists|now: u64| *final(self) == old(self).with_shared_screenshot(url, now),
    {
        let now = now_unix();
        self.set_shared_screenshot_at(url, now);
    }

    /// Shares a screenshot link at `now`: the link is shown in the presence
    /// and any automatic capture error is cleared.
    pub fn set_shared_screenshot_at(&mut self, url: String, now: u64)
        ensures
            old(self).wf() ==> final(self).wf(),
            *final(self) == old(self).with_shared_screenshot(url, now),
    {
        self.shared_screenshot_url = Some(url);
        self.auto_capture.last_error = None;
        self.last_updated_unix = now;
    }

    /// Puts settings that were saved in force; the automatic capture
    /// schedule starts over.
    pub fn commit_settings(&mut self, settings: Settings)
        ensures
            old(self).wf() ==> final(self).wf(),
            *final(self) == old(self).with_settings(settings),
    {
        self.settings = settings;
        self.auto_capture.focused_since_unix = None;
        self.auto_capture.next_capture_unix = None;
        self.auto_capture.session_id = self.auto_capture.session_id.saturating_add(1);
    }

    /// Takes in an observation with the clock read for the statistics and,
    /// when focused, once more for the timing: the remembered title fills
    /// in a missing one, and the focus statistics count the elapsed time.
    /// Returns the observation to publish and its timestamps.
    pub fn observe_detection(&mut self, detection: ClipStudioDetection) -> (res: (
        ClipStudioDetection,
        PresenceTiming,
    ))
        ensures
            old(self).wf() ==> final(self).wf(),
            res.0 == effective_detection(old(self).last_document_title, detection),
            final(self).last_document_title == remembered_title(
                old(self).last_document_title,
                detection,
            ),
            exists|now: u64|
                final(self).focus_stats == old(self).focus_stats.after_sample(
                    detection.running,
                    detection.focused,
                    now,
                ),
            exists|now: u64|
                res.1 == final(self).focus_stats.timing_spec(
                    detection.running,
                    detection.focused,
                    now,
                ),
            final(self).settings == old(self).settings,
            final(self).detection == old(self).detection,
            final(self).shared_screenshot_url == old(self).shared_screenshot_url,
            final(self).discord_connected == old(self).discord_connected,
            final(self).discord_error == old(self).discord_error,
            final(self).auto_capture == old(self).auto_capture,
            final(self).last_updated_unix == old(self).last_updated_unix,
    {
        let detection = self.remember_title(detection);
        self.focus_stats.update(&detection);
        let timing = self.focus_stats.presence_timing(&detection);
        (detection, timing)
    }

    /// Takes in an observation made at `now`.
    pub fn observe_detection_at(&mut self, detection: ClipStudioDetection, now: u64) -> (res: (
        ClipStudioDetection,
        PresenceTiming,
    ))
        ensures
            old(self).wf() ==> final(self).wf(),
            res.0 == effective_detection(old(self).last_document_title, detection),
            *final(self) == (AppState {
                last_document_title: remembered_title(old(self).last_document_title, detection),
                focus_stats: old(self).focus_stats.after_sample(
                    detection.running,
                    detection.focused,
                    now,
                ),
                ..*old(self)
            }),
            res.1 == final(self).focus_stats.timing_spec(detection.running, detection.focused, now),
    {
        let detection = self.remember_title(detection);
        self.focus_stats.update_at(&detection, now);
        let timing = self.focus_stats.presence_timing_at(&detection, now);
        (detection, timing)
    }

    fn remember_title(&mut self, detection: ClipStudioDetection) -> (res: ClipStudioDetection)
        ensures
            res == effective_detection(old(self).last_document_title, detection),
            *final(self) == (AppState {
                last_document_title: remembered_title(old(self).last_document_title, detection),
                ..*old(self)
            }),
    {
        let mut detection = detection;
        if !detection.running {
            self.last_document_title = None;
        } else if detection.document_title.is_some() {
            self.last_document_title = clone_opt_string(&detection.document_title);
        } else {
            detection.document_title = clone_opt_string(&self.last_document_title);
        }
        detection
    }

    /// The state after recording an observation and a sync's outcome.
    pub open spec fn with_presence(
        self,
        detection: ClipStudioDetection,
        presence: PresenceState,
        now: u64,
    ) -> AppState {
        AppState {
            detection: detection,
            discord_connected: presence.connected,
            discord_error: presence.error,
            last_updated_unix: now,
            ..self
        }
    }

    /// Records the observation and the outcome of a presence sync, with the
    /// clock read for the update time.
    pub fn record_presence(&mut self, detection: ClipStudioDetection, presence: PresenceState)
        ensures
            old(self).wf() ==> final(self).wf(),
            exists|now: u64|
                *final(self) == old(self).with_presence(detection, presence, now),
    {
        let now = now_unix();
        self.record_presence_at(detection, presence, now);
    }

    /// Records the observation and the outcome of a presence sync at `now`.
    pub fn record_presence_at(
        &mut self,
        detection: ClipStudioDetection,
        presence: PresenceState,
        now: u64,
    )
        ensures
            old(self).wf() ==> final(self).wf(),
            *final(self) == old(self).with_presence(detection, presence, now),
    {
        self.detection = detection;
        self.discord_connected = presence.connected;
        self.discord_error = presence.error;
        self.last_updated_unix = now;
    }

    /// Whether a tick at `now` with `settings` can run without overflow.
    pub open spec fn tick_defined(self, settings: Settings, now: u64) -> bool {
        settings.auto_capture_screenshot && self.detection.focused
            && self.auto_capture.focused_since_unix is None ==> now + at_least_one(
            settings.auto_capture_initial_delay_seconds,
        ) <= u64::MAX
    }

    /// The state after an automatic capture tick at `now`. With automatic
    /// capture off or Clip Studio Paint unfocused the schedule is dropped
    /// (a new session when it was active); when focus begins the first
    /// capture is scheduled after the initial delay (at least a second);
    /// when a capture is due and none is uploading, one starts.
    pub open spec fn after_tick(self, settings: Settings, now: u64) -> AppState {
        self.after_tick_due(
            settings,
            now,
            (now + at_least_one(settings.auto_capture_initial_delay_seconds)) as u64,
        )
    }

    /// The state after a tick whose first due time, when the schedule
    /// starts, is the largest time there is if the initial delay would
    /// carry past it.
    pub open spec fn after_tick_saturating(self, settings: Settings, now: u64) -> AppState {
        self.after_tick_due(
            settings,
            now,
            sat_add(now, at_least_one(settings.auto_capture_initial_delay_seconds)),
        )
    }

    /// The state after a tick at `now` that schedules a starting schedule's
    /// first capture at `first_due`.
    pub open spec fn after_tick_due(self, settings: Settings, now: u64, first_due: u64) -> AppState {
        let ac = self.auto_capture;
        if !settings.auto_capture_screenshot || !self.detection.focused {
            let was_active = ac.focused_since_unix is Some || ac.next_capture_unix is Some;
            AppState {
                auto_capture: AutoCaptureState {
                    focused_since_unix: None,
                    next_capture_unix: None,
                    session_id: if was_active {
                        sat_inc(ac.session_id)
                    } else {
                        ac.session_id
                    },
                    ..ac
                },
                last_updated_unix: if was_active {
                    now
                } else {
                    self.last_updated_unix
                },
                ..self
            }
        } else if ac.focused_since_unix is None {
            AppState {
                auto_capture: AutoCaptureState {
                    focused_since_unix: Some(now),
                    next_capture_unix: Some(first_due),
                    session_id: sat_inc(ac.session_id),
                    ..ac
                },
                last_updated_unix: now,
                ..self
            }
        } else if self.capture_due(now) {
            AppState {
                auto_capture: AutoCaptureState {
                    upload_in_progress: true,
                    last_error: None,
                    ..ac
                },
                last_updated_unix: now,
                ..self
            }
        } else {
            self
        }
    }

    /// A capture is due at `now` and none is uploading.
    pub open spec fn capture_due(self, now: u64) -> bool {
        &&& self.auto_capture.next_capture_unix matches Some(next) && now >= next
        &&& !self.auto_capture.upload_in_progress
    }

    /// Whether a tick at `now` with `settings` starts a capture.
    pub open spec fn tick_starts_capture(self, settings: Settings, now: u64) -> bool {
        &&& settings.auto_capture_screenshot
        &&& self.detection.focused
        &&& self.auto_capture.focused_since_unix is Some
        &&& self.capture_due(now)
    }

    /// Runs an automatic capture tick with the clock read for its time. A
    /// starting schedule whose first due time would carry past the largest
    /// time there is gets that largest time as its due time.
    pub fn maybe_start_auto_capture(&mut self, settings: &Settings) -> (res: Option<
        CaptureRequest,
    >)
        ensures
            old(self).wf() ==> final(self).wf(),
            exists|now: u64|
                *final(self) == old(self).after_tick_saturating(*settings, now) && (res is Some
                    <==> old(self).tick_starts_capture(*settings, now)),
            res is Some ==> res->0.settings == *settings && res->0.session_id
                == old(self).auto_capture.session_id,
    {
        let now = now_unix();
        self.tick_saturating(settings, now)
    }

    /// Runs an automatic capture tick at `now` and returns the capture to
    /// run, if one starts.
    pub fn maybe_start_auto_capture_at(&mut self, settings: &Settings, now: u64) -> (res: Option<
        CaptureRequest,
    >)
        requires
            old(self).tick_defined(*settings, now),
        ensures
            old(self).wf() ==> final(self).wf(),
            *final(self) == old(self).after_tick(*settings, now),
            res is Some <==> old(self).tick_starts_capture(*settings, now),
            res is Some ==> res->0.settings == *settings && res->0.session_id
                == old(self).auto_capture.session_id,
    {
        self.tick_saturating(settings, now)
    }

    fn tick_saturating(&mut self, settings: &Settings, now: u64) -> (res: Option<CaptureRequest>)
        ensures
            old(self).wf() ==> final(self).wf(),
            *final(self) == old(self).after_tick_saturating(*settings, now),
            old(self).tick_defined(*settings, now) ==> *final(self) == old(self).after_tick(
                *settings,
                now,
            ),
            res is Some <==> old(self).tick_starts_capture(*settings, now),
            res is Some ==> res->0.settings == *settings && res->0.session_id
                == old(self).auto_capture.session_id,
    {
        if !settings.auto_capture_screenshot || !self.detection.focused {
            let was_active = self.auto_capture.focused_since_unix.is_some()
                || self.auto_capture.next_capture_unix.is_some();
            self.auto_capture.focused_since_unix = None;
            self.auto_capture.next_capture_unix = None;
            if was_active {
                self.auto_capture.session_id = self.auto_capture.session_id.saturating_add(1);
                self.last_updated_unix = now;
            }
            return None;
        }
        if self.auto_capture.focused_since_unix.is_none() {
            let delay = if settings.auto_capture_initial_delay_seconds < 1 {
                1
            } else {
                settings.auto_capture_initial_delay_seconds
            };
            self.auto_capture.session_id = self.auto_capture.session_id.saturating_add(1);
            self.auto_capture.focused_since_unix = Some(now);
            self.auto_capture.next_capture_unix = Some(now.saturating_add(delay));
            self.last_updated_unix = now;
            return None;
        }
        let due = match self.auto_capture.next_capture_unix {
            Some(next) => now >= next,
            None => false,
        };
        if due && !self.auto_capture.upload_in_progress {
            self.auto_capture.upload_in_progress = true;
            self.auto_capture.last_error = None;
            self.last_updated_unix = now;
            return Some(
                CaptureRequest {
                    settings: settings.clone(),
                    session_id: self.auto_capture.session_id,
                },
            );
        }
        None
    }
}

impl AppState {
    /// Whether a capture of `request` finishing at `finished_at` schedules
    /// the next one: its session is still the current one and the schedule
    /// is active.
    pub open spec fn finish_reschedules(self, request: CaptureRequest) -> bool {
        self.auto_capture.session_id == request.session_id
            && self.auto_capture.focused_since_unix is Some
    }

    /// The next due time after a capture of `request` finished at
    /// `finished_at`: the capture interval (at least a second) later.
    pub open spec fn next_due(request: CaptureRequest, finished_at: u64) -> int {
        finished_at + at_least_one(request.settings.auto_capture_interval_seconds)
    }

    /// `new` is this state after a capture of `request`, with `outcome`,
    /// was recorded at `finished_at`, the next capture being due at `due`
    /// when the capture schedules one: its link is shared, or its error is
    /// kept; the upload is over; nothing else changes.
    pub open spec fn capture_finished(
        self,
        new: AppState,
        outcome: Result<ShareResult, CaptureShareError>,
        request: CaptureRequest,
        finished_at: u64,
        due: u64,
    ) -> bool {
        &&& new.settings == self.settings
        &&& new.detection == self.detection
        &&& new.focus_stats == self.focus_stats
        &&& new.discord_connected == self.discord_connected
        &&& new.discord_error == self.discord_error
        &&& new.last_document_title == self.last_document_title
        &&& new.auto_capture.focused_since_unix == self.auto_capture.focused_since_unix
        &&& new.auto_capture.session_id == self.auto_capture.session_id
        &&& !new.auto_capture.upload_in_progress
        &&& new.last_updated_unix == finished_at
        &&& outcome is Ok ==> new.shared_screenshot_url == Some(outcome->Ok_0.url)
            && new.auto_capture.last_error is None
        &&& outcome is Err ==> new.shared_screenshot_url == self.shared_screenshot_url
            && new.auto_capture.last_error is Some && new.auto_capture.last_error->0@
            == outcome->Err_0.message_spec()
        &&& new.auto_capture.next_capture_unix == if self.finish_reschedules(request) {
            Some(due)
        } else {
            self.auto_capture.next_capture_unix
        }
    }

    /// Records a finished automatic capture, with the clock read for the
    /// finishing time. When the next due time would carry past the largest
    /// time there is, the next capture is due at that largest time.
    pub fn finish_auto_capture(
        &mut self,
        outcome: Result<ShareResult, CaptureShareError>,
        request: &CaptureRequest,
    )
        requires
            outcome matches Err(e) ==> e.statuses_valid(),
        ensures
            old(self).wf() ==> final(self).wf(),
            old(self).capture_finished(
                *final(self),
                outcome,
                *request,
                final(self).last_updated_unix,
                sat_add(
                    final(self).last_updated_unix,
                    at_least_one(request.settings.auto_capture_interval_seconds),
                ),
            ),
    {
        let finished_at = now_unix();
        self.finish_saturating(outcome, request, finished_at);
    }

    /// Records an automatic capture that finished at `finished_at`: its link
    /// is shared, or its error is kept; the upload is over; and when its
    /// session is still the current one and the schedule is active, the
    /// next capture is due the capture interval (at least a second) later.
    pub fn finish_auto_capture_at(
        &mut self,
        outcome: Result<ShareResult, CaptureShareError>,
        request: &CaptureRequest,
        finished_at: u64,
    )
        requires
            outcome matches Err(e) ==> e.statuses_valid(),
            old(self).finish_reschedules(*request) ==> AppState::next_due(*request, finished_at)
                <= u64::MAX,
        ensures
            old(self).wf() ==> final(self).wf(),
            final(self).settings == old(self).settings,
            final(self).detection == old(self).detection,
            final(self).focus_stats == old(self).focus_stats,
            final(self).discord_connected == old(self).discord_connected,
            final(self).discord_error == old(self).discord_error,
            final(self).last_document_title == old(self).last_document_title,
            final(self).auto_capture.focused_since_unix == old(self).auto_capture.focused_since_unix,
            final(self).auto_capture.session_id == old(self).auto_capture.session_id,
            !final(self).auto_capture.upload_in_progress,
            final(self).last_updated_unix == finished_at,
            outcome is Ok ==> final(self).shared_screenshot_url == Some(outcome->Ok_0.url)
                && final(self).auto_capture.last_error is None,
            outcome is Err ==> final(self).shared_screenshot_url == old(self).shared_screenshot_url
                && final(self).auto_capture.last_error is Some
                && final(self).auto_capture.last_error->0@ == outcome->Err_0.message_spec(),
            final(self).auto_capture.next_capture_unix == if old(self).finish_reschedules(
                *request,
            ) {
                Some(AppState::next_due(*request, finished_at) as u64)
            } else {
                old(self).auto_capture.next_capture_unix
            },
    {
        self.finish_saturating(outcome, request, finished_at);
    }

    fn finish_saturating(
        &mut self,
        outcome: Result<ShareResult, CaptureShareError>,
        request: &CaptureRequest,
        finished_at: u64,
    )
        requires
            outcome matches Err(e) ==> e.statuses_valid(),
        ensures
            old(self).wf() ==> final(self).wf(),
            old(self).capture_finished(
                *final(self),
                outcome,
                *request,
                finished_at,
                sat_add(finished_at, at_least_one(request.settings.auto_capture_interval_seconds)),
            ),
    {
        match outcome {
            Ok(result) => {
                self.shared_screenshot_url = Some(result.url);
                self.auto_capture.last_error = None;
            },
            Err(error) => {
                self.auto_capture.last_error = Some(error.message());
            },
        }
        self.auto_capture.upload_in_progress = false;
        if self.auto_capture.session_id == request.session_id
            && self.auto_capture.focused_since_unix.is_some() {
            let interval = if request.settings.auto_capture_interval_seconds < 1 {
                1
            } else {
                request.settings.auto_capture_interval_seconds
            };
            self.auto_capture.next_capture_unix = Some(finished_at.saturating_add(interval));
        }
        self.last_updated_unix = finished_at;
    }
}

/// A shared screenshot link is what the next snapshot shows, with no
/// automatic capture error.
pub proof fn lemma_shared_link_is_shown(s: AppState, url: String, now: u64)
    ensures
        s.with_shared_screenshot(url, now).status_spec().shared_screenshot_url == Some(url),
        s.with_shared_screenshot(url, now).status_spec().auto_capture_error is None,
        s.with_shared_screenshot(url, now).status_spec().last_updated_unix == now,
{
}

/// Saved settings are what the next snapshot shows, and the automatic
/// capture schedule is inactive until the next tick.
pub proof fn lemma_saved_settings_are_shown(s: AppState, settings: Settings)
    ensures
        s.with_settings(settings).status_spec().settings == settings,
        !s.with_settings(settings).status_spec().auto_capture_active,
        s.with_settings(settings).status_spec().auto_capture_next_unix is None,
{
}

/// The schedule session never goes back: saving settings and ticks only
/// move it forward, and a finished capture keeps it (see
/// `finish_auto_capture_at`).
pub proof fn lemma_session_never_decreases(s: AppState, settings: Settings, now: u64)
    ensures
        s.with_settings(settings).auto_capture.session_id >= s.auto_capture.session_id,
        s.after_tick(settings, now).auto_capture.session_id >= s.auto_capture.session_id,
        s.auto_capture.session_id < u64::MAX ==> s.with_settings(settings).auto_capture.session_id
            > s.auto_capture.session_id,
{
}

/// At most one automatic upload runs at a time: no tick starts a capture
/// while one is uploading, and the upload stays marked until it finishes.
pub proof fn lemma_one_upload_at_a_time(s: AppState, settings: Settings, now: u64)
    requires
        s.auto_capture.upload_in_progress,
    ensures
        !s.tick_starts_capture(settings, now),
        s.after_tick(settings, now).auto_capture.upload_in_progress,
{
}

/// A capture whose schedule was abandoned (new settings were saved while
/// it ran) does not schedule another when it finishes.
pub proof fn lemma_abandoned_capture_not_rescheduled(
    s: AppState,
    settings: Settings,
    request: CaptureRequest,
)
    requires
        request.session_id == s.auto_capture.session_id,
        s.auto_capture.session_id < u64::MAX,
    ensures
        !s.with_settings(settings).finish_reschedules(request),
{
}

/// With automatic capture off, or Clip Studio Paint unfocused, a tick
/// leaves the schedule inactive and starts no capture.
pub proof fn lemma_tick_when_off_is_inactive(s: AppState, settings: Settings, now: u64)
    requires
        !settings.auto_capture_screenshot || !s.detection.focused,
    ensures
        !s.after_tick(settings, now).status_spec().auto_capture_active,
        s.after_tick(settings, now).auto_capture.next_capture_unix is None,
        !s.tick_starts_capture(settings, now),
{
}

/// When focus begins, the first capture is scheduled strictly later than
/// the tick, so no capture starts in the tick that began the schedule nor
/// in another tick at the same time.
pub proof fn lemma_first_capture_waits(s: AppState, settings: Settings, now: u64)
    requires
        settings.auto_capture_screenshot,
        s.detection.focused,
        s.auto_capture.focused_since_unix is None,
        s.tick_defined(settings, now),
    ensures
        !s.tick_starts_capture(settings, now),
        s.after_tick(settings, now).auto_capture.next_capture_unix matches Some(next) && next > now,
        !s.after_tick(settings, now).tick_starts_capture(settings, now),
{
}

/// A shared screenshot link reaches the presence: once it is shared, the
/// activity built from the state's link carries it, trimmed, on its share
/// button whenever it is a web link a button may carry.
pub proof fn lemma_shared_link_is_published(
    s: AppState,
    url: String,
    now: u64,
    plan: ActivityPlan,
    settings: Settings,
    detection: ClipStudioDetection,
    since: Option<i64>,
)
    requires
        plan_matches(
            plan,
            settings,
            detection,
            match s.with_shared_screenshot(url, now).shared_screenshot_url {
                Some(u) => Some(u@),
                None => None,
            },
            since,
        ),
        button_url_spec(url@) is Some,
    ensures
        plan.share_url is Some,
        plan.share_url->0@ == trim_spec(url@),
{
}

/// A running observation that reports a document title makes that title
/// the remembered one and is published as it is, whatever was remembered
/// before; a running observation without a title is published with the
/// remembered title and keeps it; a stopped Clip Studio Paint forgets it.
pub proof fn lemma_last_reported_title_is_remembered(
    last: Option<String>,
    d: ClipStudioDetection,
)
    ensures
        d.running && d.document_title is Some ==> remembered_title(last, d) == d.document_title
            && effective_detection(last, d) == d,
        d.running && d.document_title is None ==> remembered_title(last, d) == last
            && effective_detection(last, d).document_title == last,
        !d.running ==> remembered_title(last, d) is None && effective_detection(last, d) == d,
        effective_detection(last, d).running == d.running,
        effective_detection(last, d).focused == d.focused,
{
}

/// Of two titled observations followed by an untitled one while Clip
/// Studio Paint runs, the untitled one is published with the second title.
pub proof fn lemma_latest_title_fills_in(
    last: Option<String>,
    d1: ClipStudioDetection,
    d2: ClipStudioDetection,
    d3: ClipStudioDetection,
)
    requires
        d1.running && d1.document_title is Some,
        d2.running && d2.document_title is Some,
        d3.running && d3.document_title is None,
    ensures
        ({
            let r1 = remembered_title(last, d1);
            let r2 = remembered_title(r1, d2);
            &&& r2 == d2.document_title
            &&& effective_detection(r2, d3).document_title == d2.document_title
        }),
{
}

/// The snapshot shows the state as it is: the observation recorded last
/// (whether Clip Studio Paint runs, whether it is focused, its title), the
/// Discord outcome, the shared link and the schedule.
pub proof fn lemma_status_shows_recorded_presence(
    s: AppState,
    d: ClipStudioDetection,
    p: PresenceState,
    now: u64,
)
    ensures
        ({
            let st = s.with_presence(d, p, now).status_spec();
            &&& st.clip_studio_running == d.running
            &&& st.clip_studio_focused == d.focused
            &&& st.document_title == d.document_title
            &&& st.discord_connected == p.connected
            &&& st.discord_error == p.error
            &&& st.last_updated_unix == now
            &&& st.settings == s.settings
            &&& st.shared_screenshot_url == s.shared_screenshot_url
            &&& st.procrastination_percent == s.focus_stats.percent_spec()
            &&& st.auto_capture_active == (s.auto_capture.focused_since_unix is Some)
            &&& st.auto_capture_next_unix == s.auto_capture.next_capture_unix
            &&& st.auto_capture_uploading == s.auto_capture.upload_in_progress
            &&& st.auto_capture_error == s.auto_capture.last_error
        }),
{
}

/// When focus begins at `t` with automatic capture on, the schedule starts
/// at `t` and a capture starts at the first tick at or after `t` plus the
/// initial delay (at least a second), and at no earlier tick.
pub proof fn lemma_capture_due_after_initial_delay(
    s: AppState,
    settings: Settings,
    t: u64,
    later: u64,
)
    requires
        settings.auto_capture_screenshot,
        s.detection.focused,
        s.auto_capture.focused_since_unix is None,
        !s.auto_capture.upload_in_progress,
        t + at_least_one(settings.auto_capture_initial_delay_seconds) <= u64::MAX,
    ensures
        ({
            let due = t + at_least_one(settings.auto_capture_initial_delay_seconds);
            let s1 = s.after_tick(settings, t);
            &&& s1.auto_capture.focused_since_unix == Some(t)
            &&& s1.auto_capture.next_capture_unix == Some(due as u64)
            &&& s1.last_updated_unix == t
            &&& s1.tick_starts_capture(settings, later) <==> later >= due
        }),
{
}

/// Observations count the time between them: an idle observation at `t1`
/// followed by a focused one at `t2` adds `t1` minus the previous sample
/// time to the idle seconds and `t2 - t1` to the focused seconds.
pub proof fn lemma_observations_count_elapsed(f: FocusStats, t1: u64, t2: u64)
    requires
        f.last_sample_unix <= t1 <= t2,
        f.idle_seconds + (t1 - f.last_sample_unix) <= u64::MAX,
        f.focused_seconds + (t2 - t1) <= u64::MAX,
    ensures
        ({
            let f2 = f.after_sample(true, false, t1).after_sample(true, true, t2);
            &&& f2.idle_seconds == f.idle_seconds + (t1 - f.last_sample_unix)
            &&& f2.focused_seconds == f.focused_seconds + (t2 - t1)
            &&& f2.last_sample_unix == t2
        }),
{
}

} // verus!

use clip_studio_presence::app_state::{AppState, CaptureRequest};
use clip_studio_presence::capture::{CaptureShareError, ShareResult};
use clip_studio_presence::detection::ClipStudioDetection;
use clip_studio_presence::presence::PresenceState;
use clip_studio_presence::settings::Settings;

fn focused(title: Option<&str>) -> ClipStudioDetection {
    ClipStudioDetection {
        running: true,
        focused: true,
        document_title: title.map(|t| t.to_string()),
    }
}

fn capturing(delay: u64, interval: u64) -> Settings {
    let mut s = Settings::default();
    s.auto_capture_screenshot = true;
    s.auto_capture_initial_delay_seconds = delay;
    s.auto_capture_interval_seconds = interval;
    s
}

fn focused_state() -> AppState {
    let mut st = AppState::load_at(None, 100);
    st.record_presence_at(focused(Some("page.clip")), PresenceState::hidden(), 100);
    st
}

#[test]
fn load_uses_defaults_without_settings() {
    let st = AppState::load_at(None, 42);
    assert_eq!(st.settings, Settings::default());
    assert_eq!(st.last_updated_unix, 42);
    assert_eq!(st.focus_stats.last_sample_unix, 42);
    assert!(!st.detection.running);
    assert_eq!(st.auto_capture.session_id, 0);
    let status = st.snapshot();
    assert_eq!(status.procrastination_percent, None);
    assert!(!status.auto_capture_active);
    assert_eq!(status.shared_screenshot_url, None);
}

#[test]
fn load_keeps_read_settings() {
    let mut s = Settings::default();
    s.rpc_name = "Sketching".to_string();
    let st = AppState::load_at(Some(s.clone()), 7);
    assert_eq!(st.settings, s);
    let now_loaded = AppState::load(None);
    assert!(now_loaded.last_updated_unix > 1_600_000_000);
}

#[test]
fn shared_link_is_in_the_next_snapshot() {
    let mut st = AppState::load_at(None, 1);
    st.auto_capture.last_error = Some("earlier failure".to_string());
    st.set_shared_screenshot_at("https://example.org/a.png".to_string(), 50);
    let status = st.snapshot();
    assert_eq!(status.shared_screenshot_url.as_deref(), Some("https://example.org/a.png"));
    assert_eq!(status.auto_capture_error, None);
    assert_eq!(status.last_updated_unix, 50);
    st.set_shared_screenshot("https://example.org/b.png".to_string());
    assert_eq!(st.snapshot().shared_screenshot_url.as_deref(), Some("https://example.org/b.png"));
}

#[test]
fn saved_settings_are_in_force_and_restart_the_schedule() {
    let mut st = focused_state();
    let settings = capturing(5, 60);
    assert!(st.maybe_start_auto_capture_at(&settings, 200).is_none());
    assert!(st.snapshot().auto_capture_active);
    let session = st.auto_capture.session_id;
    let mut other = Settings::default();
    other.idle_message = "Away".to_string();
    st.commit_settings(other.clone());
    let status = st.snapshot();
    assert_eq!(status.settings, other);
    assert!(!status.auto_capture_active);
    assert_eq!(status.auto_capture_next_unix, None);
    assert_eq!(st.auto_capture.session_id, session + 1);
}

#[test]
fn schedule_starts_after_initial_delay() {
    let mut st = focused_state();
    let settings = capturing(5, 60);
    assert!(st.maybe_start_auto_capture_at(&settings, 200).is_none());
    assert_eq!(st.auto_capture.focused_since_unix, Some(200));
    assert_eq!(st.auto_capture.next_capture_unix, Some(205));
    assert_eq!(st.auto_capture.session_id, 1);
    assert_eq!(st.last_updated_unix, 200);
    assert!(st.maybe_start_auto_capture_at(&settings, 204).is_none());
    let request = st.maybe_start_auto_capture_at(&settings, 205).expect("capture due");
    assert_eq!(request.session_id, 1);
    assert_eq!(request.settings, settings);
    assert!(st.auto_capture.upload_in_progress);
    assert!(st.snapshot().auto_capture_uploading);
}

#[test]
fn zero_delay_waits_one_second() {
    let mut st = focused_state();
    let settings = capturing(0, 0);
    assert!(st.maybe_start_auto_capture_at(&settings, 300).is_none());
    assert_eq!(st.auto_capture.next_capture_unix, Some(301));
    assert!(st.maybe_start_auto_capture_at(&settings, 300).is_none());
}

#[test]
fn one_upload_at_a_time() {
    let mut st = focused_state();
    let settings = capturing(1, 60);
    st.maybe_start_auto_capture_at(&settings, 10);
    assert!(st.maybe_start_auto_capture_at(&settings, 20).is_some());
    assert!(st.maybe_start_auto_capture_at(&settings, 30).is_none());
    assert!(st.auto_capture.upload_in_progress);
}

#[test]
fn turning_capture_off_drops_the_schedule() {
    let mut st = focused_state();
    st.maybe_start_auto_capture_at(&capturing(1, 60), 10);
    let session = st.auto_capture.session_id;
    assert!(st.maybe_start_auto_capture_at(&Settings::default(), 15).is_none());
    assert_eq!(st.auto_capture.focused_since_unix, None);
    assert_eq!(st.auto_capture.next_capture_unix, None);
    assert_eq!(st.auto_capture.session_id, session + 1);
    assert_eq!(st.last_updated_unix, 15);
    assert!(st.maybe_start_auto_capture_at(&Settings::default(), 16).is_none());
    assert_eq!(st.auto_capture.session_id, session + 1);
    assert_eq!(st.last_updated_unix, 15);
}

#[test]
fn finished_capture_shares_and_reschedules() {
    let mut st = focused_state();
    let settings = capturing(1, 60);
    st.maybe_start_auto_capture_at(&settings, 10);
    let request = st.maybe_start_auto_capture_at(&settings, 11).unwrap();
    st.finish_auto_capture_at(
        Ok(ShareResult { url: "https://h.example/x.png".to_string() }),
        &request,
        40,
    );
    assert!(!st.auto_capture.upload_in_progress);
    assert_eq!(st.shared_screenshot_url.as_deref(), Some("https://h.example/x.png"));
    assert_eq!(st.auto_capture.next_capture_unix, Some(100));
    assert_eq!(st.last_updated_unix, 40);
}

#[test]
fn failed_capture_keeps_its_message() {
    let mut st = focused_state();
    let settings = capturing(1, 0);
    st.maybe_start_auto_capture_at(&settings, 10);
    let request = st.maybe_start_auto_capture_at(&settings, 11).unwrap();
    st.finish_auto_capture_at(Err(CaptureShareError::WindowNotFound), &request, 12);
    assert_eq!(
        st.auto_capture.last_error.as_deref(),
        Some("Clip Studio Paint window was not found.")
    );
    assert_eq!(st.auto_capture.next_capture_unix, Some(13));
    assert_eq!(st.shared_screenshot_url, None);
}

#[test]
fn abandoned_capture_is_not_rescheduled() {
    let mut st = focused_state();
    let settings = capturing(1, 60);
    st.maybe_start_auto_capture_at(&settings, 10);
    let request = st.maybe_start_auto_capture_at(&settings, 11).unwrap();
    st.commit_settings(settings.clone());
    st.finish_auto_capture_at(
        Ok(ShareResult { url: "https://h.example/y.png".to_string() }),
        &request,
        20,
    );
    assert_eq!(st.auto_capture.next_capture_unix, None);
    assert!(!st.auto_capture.upload_in_progress);
    let stale = CaptureRequest { settings, session_id: 999 };
    st.finish_auto_capture_at(Err(CaptureShareError::CaptureFailed), &stale, 21);
    assert_eq!(st.auto_capture.next_capture_unix, None);
}

#[test]
fn clock_reading_finish_records_outcome() {
    let mut st = focused_state();
    let settings = capturing(1, 60);
    st.maybe_start_auto_capture(&settings);
    let due = st.auto_capture.next_capture_unix.unwrap();
    let request = st.maybe_start_auto_capture_at(&settings, due).unwrap();
    st.finish_auto_capture(Err(CaptureShareError::AppCacheDir), &request);
    assert!(!st.auto_capture.upload_in_progress);
    assert_eq!(
        st.auto_capture.last_error.as_deref(),
        Some("Could not access the app cache directory.")
    );
    assert!(st.auto_capture.next_capture_unix.unwrap() > due);
}

#[test]
fn missing_title_is_remembered_while_running() {
    let mut st = AppState::load_at(None, 100);
    let (d, _) = st.observe_detection_at(focused(Some("a.clip")), 110);
    assert_eq!(d.document_title.as_deref(), Some("a.clip"));
    let (d, timing) = st.observe_detection_at(focused(None), 120);
    assert_eq!(d.document_title.as_deref(), Some("a.clip"));
    assert_eq!(st.focus_stats.focused_seconds, 20);
    assert_eq!(timing.drawing_started_at, Some(100));
    let stopped = ClipStudioDetection { running: false, focused: false, document_title: None };
    let (d, _) = st.observe_detection_at(stopped, 130);
    assert_eq!(d.document_title, None);
    assert_eq!(st.last_document_title, None);
    let (d, _) = st.observe_detection_at(focused(None), 140);
    assert_eq!(d.document_title, None);
}

#[test]
fn presence_outcome_is_recorded() {
    let mut st = AppState::load_at(None, 100);
    let outcome = PresenceState { connected: false, error: Some("no Discord".to_string()) };
    st.record_presence_at(focused(Some("b.clip")), outcome, 130);
    let status = st.snapshot();
    assert!(status.clip_studio_running);
    assert!(status.clip_studio_focused);
    assert_eq!(status.document_title.as_deref(), Some("b.clip"));
    assert!(!status.discord_connected);
    assert_eq!(status.discord_error.as_deref(), Some("no Discord"));
    assert_eq!(status.last_updated_unix, 130);
}

#[test]
fn snapshot_reports_idle_share() {
    let mut st = AppState::load_at(None, 0);
    let idle = ClipStudioDetection { running: true, focused: false, document_title: None };
    st.observe_detection_at(idle, 30);
    st.observe_detection_at(focused(None), 40);
    assert_eq!(st.procrastination_percent(), Some(75));
    assert_eq!(st.snapshot().procrastination_percent, Some(75));
}

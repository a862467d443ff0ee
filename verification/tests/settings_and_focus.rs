use clip_studio_presence::config::{
    DEFAULT_AUTO_CAPTURE_INITIAL_DELAY_SECONDS, DEFAULT_AUTO_CAPTURE_INTERVAL_SECONDS,
    DEFAULT_ICON_KEY, DEFAULT_PRESENCE_MESSAGE, DISCORD_CLIENT_ID,
};
use clip_studio_presence::detection::{ClipStudioDetection, PresenceTiming};
use clip_studio_presence::focus::FocusStats;
use clip_studio_presence::settings::Settings;

fn detection(running: bool, focused: bool) -> ClipStudioDetection {
    ClipStudioDetection { running, focused, document_title: None }
}

fn stats(focused: u64, idle: u64) -> FocusStats {
    FocusStats {
        focused_seconds: focused,
        idle_seconds: idle,
        last_sample_unix: 1000,
        idle_since_unix: None,
    }
}

#[test]
fn default_settings_hold_the_configured_defaults() {
    let s = Settings::default();
    assert_eq!(s.discord_client_id, DISCORD_CLIENT_ID);
    assert_eq!(s.presence_message, DEFAULT_PRESENCE_MESSAGE);
    assert_eq!(s.icon_key, DEFAULT_ICON_KEY);
    assert_eq!(s.auto_capture_initial_delay_seconds, DEFAULT_AUTO_CAPTURE_INITIAL_DELAY_SECONDS);
    assert_eq!(s.auto_capture_interval_seconds, DEFAULT_AUTO_CAPTURE_INTERVAL_SECONDS);
    assert!(!s.rpc_name_from_document);
    assert_eq!(s.party_size, 0);
    assert_eq!(s.party_max, 0);
    assert!(s.show_document_name);
    assert!(s.show_elapsed_time);
    assert!(s.show_procrastination_percent);
    assert!(!s.only_when_focused);
}

#[test]
fn settings_clone_keeps_every_field() {
    let mut s = Settings::default();
    s.presence_message = "Inking pages".to_string();
    s.party_size = 3;
    s.custom_timestamp_end = -5;
    assert_eq!(s.clone(), s);
}

#[test]
fn focused_sample_counts_elapsed_time() {
    let mut f = stats(10, 5);
    f.idle_since_unix = Some(900);
    f.update_at(&detection(true, true), 1030);
    assert_eq!(f.focused_seconds, 40);
    assert_eq!(f.idle_seconds, 5);
    assert_eq!(f.last_sample_unix, 1030);
    assert_eq!(f.idle_since_unix, None);
}

#[test]
fn idle_sample_records_since_when() {
    let mut f = stats(10, 5);
    f.update_at(&detection(true, false), 1020);
    assert_eq!(f.idle_seconds, 25);
    assert_eq!(f.idle_since_unix, Some(1000));
    f.update_at(&detection(true, false), 1050);
    assert_eq!(f.idle_seconds, 55);
    assert_eq!(f.idle_since_unix, Some(1000));
}

#[test]
fn not_running_resets_statistics() {
    let mut f = stats(10, 5);
    f.idle_since_unix = Some(3);
    f.update_at(&detection(false, false), 2000);
    assert_eq!(f.focused_seconds, 0);
    assert_eq!(f.idle_seconds, 0);
    assert_eq!(f.idle_since_unix, None);
    assert_eq!(f.last_sample_unix, 2000);
    assert_eq!(f.procrastination_percent(), None);
}

#[test]
fn clock_going_back_counts_nothing() {
    let mut f = stats(10, 5);
    f.update_at(&detection(true, true), 900);
    assert_eq!(f.focused_seconds, 10);
    assert_eq!(f.idle_seconds, 5);
    assert_eq!(f.last_sample_unix, 900);
}

#[test]
fn counters_saturate() {
    let mut f = stats(u64::MAX - 1, 0);
    f.update_at(&detection(true, true), 1010);
    assert_eq!(f.focused_seconds, u64::MAX);
}

#[test]
fn percent_is_rounded_half_up() {
    assert_eq!(stats(2, 1).procrastination_percent(), Some(33));
    assert_eq!(stats(1, 2).procrastination_percent(), Some(67));
    assert_eq!(stats(1, 1).procrastination_percent(), Some(50));
    assert_eq!(stats(0, 7).procrastination_percent(), Some(100));
    assert_eq!(stats(7, 0).procrastination_percent(), Some(0));
    assert_eq!(stats(199, 1).procrastination_percent(), Some(1));
    assert_eq!(stats(0, 0).procrastination_percent(), None);
}

#[test]
fn percent_definedness_excludes_overflow() {
    assert!(stats(5, 5).percent_is_defined());
    assert!(!stats(u64::MAX, u64::MAX).percent_is_defined());
    assert!(stats(0, u64::MAX / 200).percent_is_defined());
    assert!(!stats(0, u64::MAX / 100).percent_is_defined());
}

#[test]
fn presence_timing_follows_focus() {
    let mut f = stats(30, 0);
    f.idle_since_unix = Some(777);
    assert_eq!(
        f.presence_timing_at(&detection(true, true), 1000),
        PresenceTiming { drawing_started_at: Some(970), procrastinating_since: None }
    );
    assert_eq!(
        f.presence_timing_at(&detection(true, false), 1000),
        PresenceTiming { drawing_started_at: None, procrastinating_since: Some(777) }
    );
    assert_eq!(f.presence_timing_at(&detection(false, false), 1000), PresenceTiming::default());
    assert_eq!(
        stats(5000, 0).presence_timing_at(&detection(true, true), 1000).drawing_started_at,
        Some(0)
    );
}

#[test]
fn clock_reading_update_samples_now() {
    let mut f = stats(0, 0);
    f.update(&detection(true, true));
    assert!(f.last_sample_unix > 1_600_000_000);
    assert!(f.focused_seconds > 1_000_000);
    let t = f.presence_timing(&detection(true, true));
    assert!(t.drawing_started_at.is_some());
}

#[test]
fn reset_forgets_counted_time() {
    let mut f = stats(10, 20);
    f.idle_since_unix = Some(1);
    f.reset();
    assert_eq!(f.focused_seconds, 0);
    assert_eq!(f.idle_seconds, 0);
    assert_eq!(f.idle_since_unix, None);
    assert_eq!(f.last_sample_unix, 1000);
}

#[test]
fn percent_grows_with_idle_and_falls_with_focus() {
    let pct = |f: u64, i: u64| stats(f, i).procrastination_percent().unwrap_or(0);
    for f in 0..40u64 {
        for i in 0..40u64 {
            assert!(pct(f, i) <= pct(f, i + 1));
            if f + i > 0 {
                assert!(pct(f, i) >= pct(f + 1, i));
            }
        }
    }
    assert!(pct(u64::MAX, 1) <= pct(u64::MAX, 2));
    assert!(pct(u64::MAX - 10, 5) <= pct(u64::MAX - 10, 20));
}

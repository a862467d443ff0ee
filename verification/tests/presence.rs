use clip_studio_presence::app_state::AppState;
use clip_studio_presence::config::{DEFAULT_ICON_KEY, DEFAULT_PRESENCE_MESSAGE, DISCORD_CLIENT_ID};
use clip_studio_presence::detection::ClipStudioDetection;
use clip_studio_presence::presence::{
    activity_text, valid_button_url, PresenceClient, SyncStart, HIDDEN_DOCUMENT_STATE,
    UNNAMED_DOCUMENT_STATE,
};
use clip_studio_presence::settings::Settings;

fn running(focused: bool, title: Option<&str>) -> ClipStudioDetection {
    ClipStudioDetection { running: true, focused, document_title: title.map(|t| t.to_string()) }
}

#[test]
fn activity_text_trims_and_falls_back() {
    assert_eq!(activity_text("  Inking \n", "fallback"), "Inking");
    assert_eq!(activity_text(" \t ", "fallback"), "fallback");
    assert_eq!(activity_text("", "  spaced  "), "  spaced  ");
    assert_eq!(activity_text("\u{3000}Colouring\u{a0}", "x"), "Colouring");
}

#[test]
fn activity_text_is_cut_to_128_characters() {
    let long: String = std::iter::repeat('é').take(200).collect();
    let text = activity_text(&long, "x");
    assert_eq!(text.chars().count(), 128);
    assert!(text.chars().all(|c| c == 'é'));
    let exact: String = std::iter::repeat('a').take(128).collect();
    assert_eq!(activity_text(&exact, "x"), exact);
}

#[test]
fn button_links_are_checked() {
    assert_eq!(valid_button_url("  https://a.example/x  "), Some("https://a.example/x"));
    assert_eq!(valid_button_url("http://a.example"), Some("http://a.example"));
    assert_eq!(valid_button_url("ftp://a.example"), None);
    assert_eq!(valid_button_url("HTTPS://a.example"), None);
    let long = format!("https://{}", "a".repeat(504));
    assert_eq!(long.len(), 512);
    assert_eq!(valid_button_url(&long), Some(long.as_str()));
    let too_long = format!("https://{}", "a".repeat(505));
    assert_eq!(valid_button_url(&too_long), None);
    let multibyte = format!("https://{}", "é".repeat(253));
    assert_eq!(multibyte.chars().count(), 261);
    assert_eq!(valid_button_url(&multibyte), None);
}

#[test]
fn hidden_when_not_running_or_unfocused() {
    let mut client = PresenceClient::new();
    client.active_since = Some(5);
    let settings = Settings::default();
    let stopped = ClipStudioDetection { running: false, focused: false, document_title: None };
    assert_eq!(client.begin_sync(&settings, &stopped), SyncStart::Hide { clear_activity: false });
    assert_eq!(client.active_since, None);
    let mut focused_only = Settings::default();
    focused_only.only_when_focused = true;
    client.connected = true;
    assert_eq!(
        client.begin_sync(&focused_only, &running(false, None)),
        SyncStart::Hide { clear_activity: true }
    );
    assert!(client.connected);
    assert_ne!(client.begin_sync(&settings, &running(false, None)), SyncStart::Hide { clear_activity: true });
}

#[test]
fn connection_is_made_then_reused() {
    let mut client = PresenceClient::new();
    let settings = Settings::default();
    let d = running(true, Some("a.clip"));
    assert_eq!(client.begin_sync(&settings, &d), SyncStart::Connect { close_connection: false });
    assert_eq!(client.client_id, DISCORD_CLIENT_ID);
    assert!(client.connect_finished(Ok(())).is_none());
    assert!(client.connected);
    client.activity_at(&settings, &d, None, 1000);
    let state = client.publish_finished(Ok(()));
    assert!(state.connected);
    assert_eq!(state.error, None);
    assert_eq!(client.begin_sync(&settings, &d), SyncStart::Publish);
}

#[test]
fn other_application_id_reconnects() {
    let mut client = PresenceClient::new();
    client.connected = true;
    client.client_id = "another-application".to_string();
    let step = client.begin_sync(&Settings::default(), &running(true, None));
    assert_eq!(step, SyncStart::Connect { close_connection: true });
    assert!(!client.connected);
    assert_eq!(client.client_id, DISCORD_CLIENT_ID);
}

#[test]
fn failed_connection_reports_error() {
    let mut client = PresenceClient::new();
    client.begin_sync(&Settings::default(), &running(true, None));
    let state = client.connect_finished(Err("pipe not found".to_string())).unwrap();
    assert!(!state.connected);
    assert_eq!(state.error.as_deref(), Some("Could not connect to Discord: pipe not found"));
    assert!(!client.connected);
}

#[test]
fn failed_publish_disconnects_and_reconnects_next_time() {
    let mut client = PresenceClient::new();
    let settings = Settings::default();
    let d = running(true, None);
    client.begin_sync(&settings, &d);
    client.connect_finished(Ok(()));
    client.activity_at(&settings, &d, None, 10);
    let state = client.publish_finished(Err("broken pipe".to_string()));
    assert!(!state.connected);
    assert_eq!(state.error.as_deref(), Some("Could not update Discord: broken pipe"));
    assert!(!client.connected);
    assert_eq!(client.client_id, "");
    assert_eq!(client.begin_sync(&settings, &d), SyncStart::Connect { close_connection: false });
}

#[test]
fn activity_describes_settings_and_document() {
    let mut client = PresenceClient::new();
    let mut settings = Settings::default();
    settings.presence_message = "  Painting  ".to_string();
    let plan = client.activity_at(&settings, &running(true, Some("cover.clip")), Some(" https://h.example/s.png "), 500);
    assert_eq!(plan.details, "Painting");
    assert_eq!(plan.state, "cover.clip");
    assert_eq!(plan.started_at, Some(500));
    assert_eq!(plan.large_image.as_deref(), Some(DEFAULT_ICON_KEY));
    assert_eq!(plan.share_url.as_deref(), Some("https://h.example/s.png"));
    let plan = client.activity_at(&Settings::default(), &running(true, Some("")), Some("not a link"), 900);
    assert_eq!(plan.details, DEFAULT_PRESENCE_MESSAGE);
    assert_eq!(plan.state, UNNAMED_DOCUMENT_STATE);
    assert_eq!(plan.started_at, Some(500));
    assert_eq!(plan.share_url, None);
}

#[test]
fn activity_options_hide_parts() {
    let mut client = PresenceClient::new();
    let mut settings = Settings::default();
    settings.show_document_name = false;
    settings.show_elapsed_time = false;
    settings.icon_key = "   ".to_string();
    let plan = client.activity_at(&settings, &running(true, Some("secret.clip")), None, 7);
    assert_eq!(plan.state, HIDDEN_DOCUMENT_STATE);
    assert_eq!(plan.started_at, None);
    assert_eq!(plan.large_image.as_deref(), Some(DEFAULT_ICON_KEY));
    assert_eq!(client.active_since, Some(7));
    let plan = client.activity_at(&settings, &running(true, None), None, 8);
    assert_eq!(plan.state, HIDDEN_DOCUMENT_STATE);
}

#[test]
fn timer_survives_reconnects_and_stops_when_hidden() {
    let mut client = PresenceClient::new();
    let settings = Settings::default();
    let d = running(true, None);
    client.begin_sync(&settings, &d);
    client.connect_finished(Ok(()));
    client.activity_at(&settings, &d, None, 100);
    client.publish_finished(Err("x".to_string()));
    client.begin_sync(&settings, &d);
    client.connect_finished(Ok(()));
    let plan = client.activity_at(&settings, &d, None, 200);
    assert_eq!(plan.started_at, Some(100));
    let stopped = ClipStudioDetection { running: false, focused: false, document_title: None };
    client.begin_sync(&settings, &stopped);
    assert_eq!(client.active_since, None);
    let plan = client.activity(&settings, &d, None);
    assert!(plan.started_at.unwrap() > 1_600_000_000);
}

#[test]
fn shared_link_reaches_the_share_button() {
    let mut st = AppState::load_at(None, 1);
    st.set_shared_screenshot_at(" https://h.uguu.se/shot.png ".to_string(), 2);
    let mut client = PresenceClient::new();
    let plan = client.activity_at(
        &st.settings,
        &running(true, None),
        st.shared_screenshot_url.as_deref(),
        3,
    );
    assert_eq!(plan.share_url.as_deref(), Some("https://h.uguu.se/shot.png"));
}

//! Build-time defaults of the application: the Discord application the
//! presence is published under and the initial value of every setting.

use vstd::prelude::*;

verus! {

/// Discord application id under which the presence is published. It is
/// empty: no application id is configured, so every connection to Discord
/// is opened for the empty id.
pub const DISCORD_CLIENT_ID: &'static str = "";

/// Default Discord activity type.
pub const DEFAULT_ACTIVITY_TYPE: &'static str = "playing";

/// Default way Discord displays the status line.
pub const DEFAULT_STATUS_DISPLAY_TYPE: &'static str = "name";

/// Default activity name.
pub const DEFAULT_RPC_NAME: &'static str = "Clip Studio Paint";

/// Default first line of the presence.
pub const DEFAULT_PRESENCE_MESSAGE: &'static str = "Drawing in Clip Studio Paint";

/// Default link of the first line.
pub const DEFAULT_PRESENCE_URL: &'static str = "";

/// Default message while Clip Studio Paint is not focused.
pub const DEFAULT_IDLE_MESSAGE: &'static str = "Procrastinating";

/// Default second line of the presence.
pub const DEFAULT_STATE_TEXT: &'static str = "";

/// Default link of the second line.
pub const DEFAULT_STATE_URL: &'static str = "";

/// Default large image asset key.
pub const DEFAULT_ICON_KEY: &'static str = "icon_1";

/// Default large image hover text.
pub const DEFAULT_ICON_TEXT: &'static str = "Clip Studio Paint";

/// Default large image link.
pub const DEFAULT_ICON_URL: &'static str = "";

/// Default small image asset key.
pub const DEFAULT_SMALL_ICON_KEY: &'static str = "";

/// Default small image hover text.
pub const DEFAULT_SMALL_ICON_TEXT: &'static str = "";

/// Default small image link.
pub const DEFAULT_SMALL_ICON_URL: &'static str = "";

/// Default label of the first custom button.
pub const DEFAULT_BUTTON_1_LABEL: &'static str = "";

/// Default link of the first custom button.
pub const DEFAULT_BUTTON_1_URL: &'static str = "";

/// Default label of the second custom button.
pub const DEFAULT_BUTTON_2_LABEL: &'static str = "";

/// Default link of the second custom button.
pub const DEFAULT_BUTTON_2_URL: &'static str = "";

/// Whether a colour lookup table is applied to screenshots by default.
pub const DEFAULT_APPLY_SCREENSHOT_LUT: bool = false;

/// Default path of the screenshot lookup table.
pub const DEFAULT_SCREENSHOT_LUT_PATH: &'static str = "";

/// Whether screenshots are captured automatically by default.
pub const DEFAULT_AUTO_CAPTURE_SCREENSHOT: bool = false;

/// Default delay, in seconds of focus, before the first automatic capture.
pub const DEFAULT_AUTO_CAPTURE_INITIAL_DELAY_SECONDS: u64 = 60;

/// Default interval, in seconds, between automatic captures.
pub const DEFAULT_AUTO_CAPTURE_INTERVAL_SECONDS: u64 = 300;

/// Default timestamp mode.
pub const DEFAULT_TIMESTAMP_MODE: &'static str = "elapsed";

/// Default start of a custom timestamp range.
pub const DEFAULT_CUSTOM_TIMESTAMP_START: i64 = 0;

/// Default end of a custom timestamp range.
pub const DEFAULT_CUSTOM_TIMESTAMP_END: i64 = 0;

/// Whether the application registers itself to start on boot by default.
pub const DEFAULT_START_ON_BOOT: bool = false;

/// Seconds the monitor waits between two samples of Clip Studio Paint.
pub const MONITOR_INTERVAL_SECONDS: u64 = 3;

/// Label of the presence button that links to the shared screenshot.
pub const SHARE_BUTTON_LABEL: &'static str = "See what I'm working on";

} // verus!

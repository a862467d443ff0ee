//! The user's settings, their defaults, and a value-preserving copy.

use crate::config::{
    DEFAULT_ACTIVITY_TYPE,
    DEFAULT_APPLY_SCREENSHOT_LUT,
    DEFAULT_AUTO_CAPTURE_INITIAL_DELAY_SECONDS,
    DEFAULT_AUTO_CAPTURE_INTERVAL_SECONDS,
    DEFAULT_AUTO_CAPTURE_SCREENSHOT,
    DEFAULT_BUTTON_1_LABEL,
    DEFAULT_BUTTON_1_URL,
    DEFAULT_BUTTON_2_LABEL,
    DEFAULT_BUTTON_2_URL,
    DEFAULT_CUSTOM_TIMESTAMP_END,
    DEFAULT_CUSTOM_TIMESTAMP_START,
    DEFAULT_ICON_KEY,
    DEFAULT_ICON_TEXT,
    DEFAULT_ICON_URL,
    DEFAULT_IDLE_MESSAGE,
    DEFAULT_PRESENCE_MESSAGE,
    DEFAULT_PRESENCE_URL,
    DEFAULT_RPC_NAME,
    DEFAULT_SCREENSHOT_LUT_PATH,
    DEFAULT_SMALL_ICON_KEY,
    DEFAULT_SMALL_ICON_TEXT,
    DEFAULT_SMALL_ICON_URL,
    DEFAULT_START_ON_BOOT,
    DEFAULT_STATE_TEXT,
    DEFAULT_STATE_URL,
    DEFAULT_STATUS_DISPLAY_TYPE,
    DEFAULT_TIMESTAMP_MODE,
    DISCORD_CLIENT_ID,
};
use vstd::prelude::*;

verus! {

/// Everything the user can configure. A field missing from the settings
/// file takes the value that `Settings::default` gives it.
#[derive(Debug, PartialEq, Eq)]
pub struct Settings {
    pub discord_client_id: String,
    pub activity_type: String,
    pub status_display_type: String,
    pub rpc_name: String,
    pub rpc_name_from_document: bool,
    pub presence_message: String,
    pub presence_url: String,
    pub idle_message: String,
    pub state_text: String,
    pub state_url: String,
    pub icon_key: String,
    pub icon_text: String,
    pub icon_url: String,
    pub small_icon_key: String,
    pub small_icon_text: String,
    pub small_icon_url: String,
    pub button_1_label: String,
    pub button_1_url: String,
    pub button_2_label: String,
    pub button_2_url: String,
    pub apply_screenshot_lut: bool,
    pub screenshot_lut_path: String,
    pub auto_capture_screenshot: bool,
    pub auto_capture_initial_delay_seconds: u64,
    pub auto_capture_interval_seconds: u64,
    pub timestamp_mode: String,
    pub custom_timestamp_start: i64,
    pub custom_timestamp_end: i64,
    pub party_size: u32,
    pub party_max: u32,
    pub show_document_name: bool,
    pub show_elapsed_time: bool,
    pub show_procrastination_percent: bool,
    pub start_on_boot: bool,
    pub only_when_focused: bool,
}

impl Settings {
    /// Every field holds its default value.
    pub open spec fn has_default_values(self) -> bool {
        &&& self.discord_client_id@ == DISCORD_CLIENT_ID@
        &&& self.activity_type@ == DEFAULT_ACTIVITY_TYPE@
        &&& self.status_display_type@ == DEFAULT_STATUS_DISPLAY_TYPE@
        &&& self.rpc_name@ == DEFAULT_RPC_NAME@
        &&& self.rpc_name_from_document == false
        &&& self.presence_message@ == DEFAULT_PRESENCE_MESSAGE@
        &&& self.presence_url@ == DEFAULT_PRESENCE_URL@
        &&& self.idle_message@ == DEFAULT_IDLE_MESSAGE@
        &&& self.state_text@ == DEFAULT_STATE_TEXT@
        &&& self.state_url@ == DEFAULT_STATE_URL@
        &&& self.icon_key@ == DEFAULT_ICON_KEY@
        &&& self.icon_text@ == DEFAULT_ICON_TEXT@
        &&& self.icon_url@ == DEFAULT_ICON_URL@
        &&& self.small_icon_key@ == DEFAULT_SMALL_ICON_KEY@
        &&& self.small_icon_text@ == DEFAULT_SMALL_ICON_TEXT@
        &&& self.small_icon_url@ == DEFAULT_SMALL_ICON_URL@
        &&& self.button_1_label@ == DEFAULT_BUTTON_1_LABEL@
        &&& self.button_1_url@ == DEFAULT_BUTTON_1_URL@
        &&& self.button_2_label@ == DEFAULT_BUTTON_2_LABEL@
        &&& self.button_2_url@ == DEFAULT_BUTTON_2_URL@
        &&& self.apply_screenshot_lut == DEFAULT_APPLY_SCREENSHOT_LUT
        &&& self.screenshot_lut_path@ == DEFAULT_SCREENSHOT_LUT_PATH@
        &&& self.auto_capture_screenshot == DEFAULT_AUTO_CAPTURE_SCREENSHOT
        &&& self.auto_capture_initial_delay_seconds == DEFAULT_AUTO_CAPTURE_INITIAL_DELAY_SECONDS
        &&& self.auto_capture_interval_seconds == DEFAULT_AUTO_CAPTURE_INTERVAL_SECONDS
        &&& self.timestamp_mode@ == DEFAULT_TIMESTAMP_MODE@
        &&& self.custom_timestamp_start == DEFAULT_CUSTOM_TIMESTAMP_START
        &&& self.custom_timestamp_end == DEFAULT_CUSTOM_TIMESTAMP_END
        &&& self.party_size == 0
        &&& self.party_max == 0
        &&& self.show_document_name == true
        &&& self.show_elapsed_time == true
        &&& self.show_procrastination_percent == true
        &&& self.start_on_boot == DEFAULT_START_ON_BOOT
        &&& self.only_when_focused == false
    }
}

impl Default for Settings {
    fn default() -> (res: Self)
        ensures
            res.has_default_values(),
    {
        Settings {
            discord_client_id: default_discord_client_id(),
            activity_type: default_activity_type(),
            status_display_type: default_status_display_type(),
            rpc_name: default_rpc_name(),
            rpc_name_from_document: false,
            presence_message: default_presence_message(),
            presence_url: default_presence_url(),
            idle_message: default_idle_message(),
            state_text: default_state_text(),
            state_url: default_state_url(),
            icon_key: default_icon_key(),
            icon_text: default_icon_text(),
            icon_url: default_icon_url(),
            small_icon_key: default_small_icon_key(),
            small_icon_text: default_small_icon_text(),
            small_icon_url: default_small_icon_url(),
            button_1_label: default_button_1_label(),
            button_1_url: default_button_1_url(),
            button_2_label: default_button_2_label(),
            button_2_url: default_button_2_url(),
            apply_screenshot_lut: default_apply_screenshot_lut(),
            screenshot_lut_path: default_screenshot_lut_path(),
            auto_capture_screenshot: default_auto_capture_screenshot(),
            auto_capture_initial_delay_seconds: default_auto_capture_initial_delay_seconds(),
            auto_capture_interval_seconds: default_auto_capture_interval_seconds(),
            timestamp_mode: default_timestamp_mode(),
            custom_timestamp_start: default_custom_timestamp_start(),
            custom_timestamp_end: default_custom_timestamp_end(),
            party_size: 0,
            party_max: 0,
            show_document_name: default_true(),
            show_elapsed_time: default_true(),
            show_procrastination_percent: default_true(),
            start_on_boot: default_start_on_boot(),
            only_when_focused: false,
        }
    }
}

impl Clone for Settings {
    fn clone(&self) -> (res: Self)
        ensures
            res == *self,
    {
        Settings {
            discord_client_id: self.discord_client_id.clone(),
            activity_type: self.activity_type.clone(),
            status_display_type: self.status_display_type.clone(),
            rpc_name: self.rpc_name.clone(),
            rpc_name_from_document: self.rpc_name_from_document,
            presence_message: self.presence_message.clone(),
            presence_url: self.presence_url.clone(),
            idle_message: self.idle_message.clone(),
            state_text: self.state_text.clone(),
            state_url: self.state_url.clone(),
            icon_key: self.icon_key.clone(),
            icon_text: self.icon_text.clone(),
            icon_url: self.icon_url.clone(),
            small_icon_key: self.small_icon_key.clone(),
            small_icon_text: self.small_icon_text.clone(),
            small_icon_url: self.small_icon_url.clone(),
            button_1_label: self.button_1_label.clone(),
            button_1_url: self.button_1_url.clone(),
            button_2_label: self.button_2_label.clone(),
            button_2_url: self.button_2_url.clone(),
            apply_screenshot_lut: self.apply_screenshot_lut,
            screenshot_lut_path: self.screenshot_lut_path.clone(),
            auto_capture_screenshot: self.auto_capture_screenshot,
            auto_capture_initial_delay_seconds: self.auto_capture_initial_delay_seconds,
            auto_capture_interval_seconds: self.auto_capture_interval_seconds,
            timestamp_mode: self.timestamp_mode.clone(),
            custom_timestamp_start: self.custom_timestamp_start,
            custom_timestamp_end: self.custom_timestamp_end,
            party_size: self.party_size,
            party_max: self.party_max,
            show_document_name: self.show_document_name,
            show_elapsed_time: self.show_elapsed_time,
            show_procrastination_percent: self.show_procrastination_percent,
            start_on_boot: self.start_on_boot,
            only_when_focused: self.only_when_focused,
        }
    }
}

fn default_discord_client_id() -> (res: String)
    ensures
        res@ == DISCORD_CLIENT_ID@,
{
    DISCORD_CLIENT_ID.to_string()
}

fn default_activity_type() -> (res: String)
    ensures
        res@ == DEFAULT_ACTIVITY_TYPE@,
{
    DEFAULT_ACTIVITY_TYPE.to_string()
}

fn default_status_display_type() -> (res: String)
    ensures
        res@ == DEFAULT_STATUS_DISPLAY_TYPE@,
{
    DEFAULT_STATUS_DISPLAY_TYPE.to_string()
}

fn default_rpc_name() -> (res: String)
    ensures
        res@ == DEFAULT_RPC_NAME@,
{
    DEFAULT_RPC_NAME.to_string()
}

fn default_presence_message() -> (res: String)
    ensures
        res@ == DEFAULT_PRESENCE_MESSAGE@,
{
    DEFAULT_PRESENCE_MESSAGE.to_string()
}

fn default_presence_url() -> (res: String)
    ensures
        res@ == DEFAULT_PRESENCE_URL@,
{
    DEFAULT_PRESENCE_URL.to_string()
}

fn default_idle_message() -> (res: String)
    ensures
        res@ == DEFAULT_IDLE_MESSAGE@,
{
    DEFAULT_IDLE_MESSAGE.to_string()
}

fn default_state_text() -> (res: String)
    ensures
        res@ == DEFAULT_STATE_TEXT@,
{
    DEFAULT_STATE_TEXT.to_string()
}

fn default_state_url() -> (res: String)
    ensures
        res@ == DEFAULT_STATE_URL@,
{
    DEFAULT_STATE_URL.to_string()
}

fn default_icon_key() -> (res: String)
    ensures
        res@ == DEFAULT_ICON_KEY@,
{
    DEFAULT_ICON_KEY.to_string()
}

fn default_icon_text() -> (res: String)
    ensures
        res@ == DEFAULT_ICON_TEXT@,
{
    DEFAULT_ICON_TEXT.to_string()
}

fn default_icon_url() -> (res: String)
    ensures
        res@ == DEFAULT_ICON_URL@,
{
    DEFAULT_ICON_URL.to_string()
}

fn default_small_icon_key() -> (res: String)
    ensures
        res@ == DEFAULT_SMALL_ICON_KEY@,
{
    DEFAULT_SMALL_ICON_KEY.to_string()
}

fn default_small_icon_text() -> (res: String)
    ensures
        res@ == DEFAULT_SMALL_ICON_TEXT@,
{
    DEFAULT_SMALL_ICON_TEXT.to_string()
}

fn default_small_icon_url() -> (res: String)
    ensures
        res@ == DEFAULT_SMALL_ICON_URL@,
{
    DEFAULT_SMALL_ICON_URL.to_string()
}

fn default_button_1_label() -> (res: String)
    ensures
        res@ == DEFAULT_BUTTON_1_LABEL@,
{
    DEFAULT_BUTTON_1_LABEL.to_string()
}

fn default_button_1_url() -> (res: String)
    ensures
        res@ == DEFAULT_BUTTON_1_URL@,
{
    DEFAULT_BUTTON_1_URL.to_string()
}

fn default_button_2_label() -> (res: String)
    ensures
        res@ == DEFAULT_BUTTON_2_LABEL@,
{
    DEFAULT_BUTTON_2_LABEL.to_string()
}

fn default_button_2_url() -> (res: String)
    ensures
        res@ == DEFAULT_BUTTON_2_URL@,
{
    DEFAULT_BUTTON_2_URL.to_string()
}

fn default_apply_screenshot_lut() -> (res: bool)
    ensures
        res == DEFAULT_APPLY_SCREENSHOT_LUT,
{
    DEFAULT_APPLY_SCREENSHOT_LUT
}

fn default_screenshot_lut_path() -> (res: String)
    ensures
        res@ == DEFAULT_SCREENSHOT_LUT_PATH@,
{
    DEFAULT_SCREENSHOT_LUT_PATH.to_string()
}

fn default_auto_capture_screenshot() -> (res: bool)
    ensures
        res == DEFAULT_AUTO_CAPTURE_SCREENSHOT,
{
    DEFAULT_AUTO_CAPTURE_SCREENSHOT
}

fn default_auto_capture_initial_delay_seconds() -> (res: u64)
    ensures
        res == DEFAULT_AUTO_CAPTURE_INITIAL_DELAY_SECONDS,
{
    DEFAULT_AUTO_CAPTURE_INITIAL_DELAY_SECONDS
}

fn default_auto_capture_interval_seconds() -> (res: u64)
    ensures
        res == DEFAULT_AUTO_CAPTURE_INTERVAL_SECONDS,
{
    DEFAULT_AUTO_CAPTURE_INTERVAL_SECONDS
}

fn default_timestamp_mode() -> (res: String)
    ensures
        res@ == DEFAULT_TIMESTAMP_MODE@,
{
    DEFAULT_TIMESTAMP_MODE.to_string()
}

fn default_custom_timestamp_start() -> (res: i64)
    ensures
        res == DEFAULT_CUSTOM_TIMESTAMP_START,
{
    DEFAULT_CUSTOM_TIMESTAMP_START
}

fn default_custom_timestamp_end() -> (res: i64)
    ensures
        res == DEFAULT_CUSTOM_TIMESTAMP_END,
{
    DEFAULT_CUSTOM_TIMESTAMP_END
}

fn default_true() -> (res: bool)
    ensures
        res == true,
{
    true
}

fn default_start_on_boot() -> (res: bool)
    ensures
        res == DEFAULT_START_ON_BOOT,
{
    DEFAULT_START_ON_BOOT
}

} // verus!

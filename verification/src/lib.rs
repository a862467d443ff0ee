//! Verified core of a desktop helper that publishes Discord Rich Presence
//! while Clip Studio Paint runs: settings, focus statistics, the monitor's
//! state, the presence client's decisions, auto-capture scheduling, update
//! checks, upload replies and the start-on-boot registry steps.

pub mod text;

pub mod config;
pub mod detection;
pub mod settings;
pub mod clock;
pub mod focus;
pub mod capture;
pub mod utf16;
pub mod presence;
pub mod app_state;
pub mod updates;
pub mod startup;

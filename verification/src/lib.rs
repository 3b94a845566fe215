//! Verified core of a small Bevy streaming/compositing application: the
//! profile components, the application state and schedule rules, the
//! diagnostics switches, the keyboard settings and the development tools.

pub mod app_state;
pub mod components;
pub mod devmode;
pub mod diagnostics;
pub mod systemsets;
pub mod user_input;

//! Command-backed hardware and service controls: output parsing, command
//! construction and the state machines behind the control popovers.

pub mod text;
pub mod modes;
pub mod command;
pub mod asus;
pub mod systemd;
pub mod config;
pub mod widgets;
pub mod panel;
pub mod fan_panel;
pub mod graphics_panel;
pub mod service_toggle;

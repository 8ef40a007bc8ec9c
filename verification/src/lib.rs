//! The verified core of a tray widget that shows how much of a subscription's
//! usage limits is used: what is fetched, when, and how it is shown.

pub mod cpu_temp;
pub mod double;
pub mod duration;
pub mod fetch;
pub mod icon;
pub mod instant;
pub mod log;
pub mod notify;
pub mod panel;
pub mod poll;
pub mod registry;
pub mod single_instance;
pub mod text;
pub mod tray;
pub mod usage;

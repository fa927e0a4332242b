//! The core of a desktop weather widget: a background poller publishes
//! snapshots of the current weather through a bounded channel, and a
//! per-tick update loop drains them and decides what the screen shows.
//!
//! Everything here is plain data and decisions. Network access, timers,
//! threads, windowing and number formatting belong to the program that
//! links this library.

pub mod camera_plugin;
pub mod channel;
pub mod forecast;
pub mod icons;
pub mod poller;
pub mod render_plugin;
pub mod snapshot;
pub mod update;

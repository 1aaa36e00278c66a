//! Verified core of a headless daemon for a grid of programmable keys:
//! page navigation, the optimistic entity-state cache, the event loop's
//! decisions, the device session state machine and the pixel pipeline.

pub mod strings;
pub mod table;
pub mod error;
pub mod config;
pub mod event;
pub mod page;
pub mod daemon;
pub mod device;
pub mod render;
pub mod state;
pub mod action;

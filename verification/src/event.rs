//! The events that the daemon's parts exchange.

use std::sync::Arc;
use vstd::prelude::*;
use crate::config::schema::AppConfig;

verus! {

/// One event on the bus.
#[derive(Debug, Clone)]
pub enum DeckEvent {
    /// A key went down.
    ButtonDown(u8),
    /// A key came up.
    ButtonUp(u8),
    /// The device was opened.
    DeviceConnected,
    /// The device was lost.
    DeviceDisconnected,
    /// A new configuration snapshot was loaded.
    ConfigReloaded(Arc<AppConfig>),
    /// Open the named page.
    NavigateTo(String),
    /// Return to the page below.
    NavigateBack,
    /// Return to the home page.
    NavigateHome,
    /// Draw every key of the current page.
    RenderAll,
    /// Draw one key.
    RenderButton(u8),
    /// Stop the daemon.
    Shutdown,
}

} // verus!

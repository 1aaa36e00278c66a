//! What a change of the configuration file leads to.

use std::sync::Arc;
use vstd::prelude::*;
use crate::config::schema::AppConfig;
use crate::error::DeckError;
use crate::event::DeckEvent;

verus! {

/// Milliseconds of quiet after which a burst of changes counts as one.
pub const DEBOUNCE_MILLIS: u64 = 500;

/// How many change notices may wait to be handled.
pub const CHANGE_QUEUE: usize = 16;

/// Decides what follows an attempt to load the changed file: a snapshot
/// that loaded is published as a whole, and a failure publishes nothing,
/// so that the snapshot in use stays.
pub fn reload_event(loaded: Result<AppConfig, DeckError>) -> (event: Option<DeckEvent>)
    ensures
        match loaded {
            Ok(config) => event matches Some(DeckEvent::ConfigReloaded(fresh)) && *fresh == config,
            Err(_) => event is None,
        },
{
    match loaded {
        Ok(config) => Some(DeckEvent::ConfigReloaded(Arc::new(config))),
        Err(_) => None,
    }
}

} // verus!

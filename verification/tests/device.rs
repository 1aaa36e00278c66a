use deckd::device::{
    pick_device, DeviceInput, DeviceManager, KeyStates, SessionAction, SessionInput, SessionState,
    POLL_RATE_HZ,
};
use deckd::error::DeckError;
use deckd::event::DeckEvent;

fn is_disconnect(action: &SessionAction) -> bool {
    matches!(action, SessionAction::Publish(DeckEvent::DeviceDisconnected))
}

#[test]
fn read_error_disconnects_once_then_waits() {
    let interval = 2500;
    let mut session = DeviceManager::new(interval);
    assert_eq!(session.state(), SessionState::Discovering);

    let actions = session.advance(SessionInput::Found);
    assert_eq!(actions.len(), 3);
    assert!(matches!(actions[0], SessionAction::StoreHandle));
    assert!(matches!(actions[1], SessionAction::Publish(DeckEvent::DeviceConnected)));
    assert!(matches!(actions[2], SessionAction::ReadInput));
    assert_eq!(session.state(), SessionState::Connected);

    // Some presses and releases arrive; they do not touch the session.
    let mut keys = KeyStates::new();
    let mut downs = 0;
    for _ in 0..4 {
        for pressed in [true, false] {
            let report = DeviceInput::ButtonStateChange(vec![pressed]);
            for event in keys.update(&report) {
                if matches!(event, DeckEvent::ButtonDown(0)) {
                    downs += 1;
                }
            }
        }
    }
    assert_eq!(downs, 4);
    assert_eq!(session.state(), SessionState::Connected);

    let actions = session.advance(SessionInput::ReadFailed(DeckError::Hid("gone".to_string())));
    assert_eq!(actions.iter().filter(|a| is_disconnect(a)).count(), 1);
    assert_eq!(actions.len(), 3);
    assert!(matches!(actions[0], SessionAction::ClearHandle));
    assert!(is_disconnect(&actions[1]));
    assert!(matches!(actions[2], SessionAction::Wait(ms) if ms == interval));
    assert_eq!(session.state(), SessionState::Backoff);

    // Nothing but the end of the wait starts a new attempt.
    for early in [
        SessionInput::Found,
        SessionInput::NotFound(DeckError::NoDevice),
        SessionInput::ReadFailed(DeckError::Hid("again".to_string())),
    ] {
        let actions = session.advance(early);
        assert!(actions.is_empty());
        assert_eq!(session.state(), SessionState::Backoff);
    }

    let actions = session.advance(SessionInput::BackoffElapsed);
    assert_eq!(actions.len(), 1);
    assert!(matches!(actions[0], SessionAction::Discover));
    assert_eq!(session.state(), SessionState::Discovering);
    assert_eq!(session.reconnect_interval_ms(), interval);
}

#[test]
fn no_device_waits_and_retries() {
    let mut session = DeviceManager::new(2000);
    let actions = session.advance(SessionInput::NotFound(DeckError::NoDevice));
    assert_eq!(actions.len(), 1);
    assert!(matches!(actions[0], SessionAction::Wait(2000)));
    assert_eq!(session.state(), SessionState::Backoff);
    let actions = session.advance(SessionInput::BackoffElapsed);
    assert!(matches!(actions[0], SessionAction::Discover));
}

#[test]
fn cancellation_stops_from_any_state() {
    let mut discovering = DeviceManager::new(1);
    assert!(discovering.advance(SessionInput::Cancelled).is_empty());
    assert_eq!(discovering.state(), SessionState::Stopped);

    let mut connected = DeviceManager::new(1);
    connected.advance(SessionInput::Found);
    assert!(connected.advance(SessionInput::Cancelled).is_empty());
    assert_eq!(connected.state(), SessionState::Stopped);

    let mut backoff = DeviceManager::new(1);
    backoff.advance(SessionInput::NotFound(DeckError::NoDevice));
    assert!(backoff.advance(SessionInput::Cancelled).is_empty());
    assert_eq!(backoff.state(), SessionState::Stopped);

    assert!(backoff.advance(SessionInput::BackoffElapsed).is_empty());
    assert!(backoff.advance(SessionInput::Found).is_empty());
    assert_eq!(backoff.state(), SessionState::Stopped);
}

#[test]
fn first_device_is_picked() {
    assert_eq!(pick_device(&vec![]), Err(DeckError::NoDevice));
    assert_eq!(pick_device(&vec!["A1".to_string()]), Ok(0));
    assert_eq!(pick_device(&vec!["B2".to_string(), "A1".to_string()]), Ok(0));
}

#[test]
fn only_changed_keys_give_events() {
    let mut keys = KeyStates::new();
    let events = keys.update(&DeviceInput::ButtonStateChange(vec![false, true, false]));
    assert_eq!(events.len(), 1);
    assert!(matches!(events[0], DeckEvent::ButtonDown(1)));

    // The same report again changes nothing.
    assert!(keys.update(&DeviceInput::ButtonStateChange(vec![false, true, false])).is_empty());

    // A second key goes down while the first is held.
    let events = keys.update(&DeviceInput::ButtonStateChange(vec![true, true, false]));
    assert_eq!(events.len(), 1);
    assert!(matches!(events[0], DeckEvent::ButtonDown(0)));

    // Other reports neither publish nor forget.
    assert!(keys.update(&DeviceInput::NoData).is_empty());
    assert!(keys.update(&DeviceInput::Other).is_empty());

    let events = keys.update(&DeviceInput::ButtonStateChange(vec![false, false, true]));
    assert_eq!(events.len(), 3);
    assert!(matches!(events[0], DeckEvent::ButtonUp(0)));
    assert!(matches!(events[1], DeckEvent::ButtonUp(1)));
    assert!(matches!(events[2], DeckEvent::ButtonDown(2)));

    // A shorter report forgets the keys it does not reach.
    assert!(keys.update(&DeviceInput::ButtonStateChange(vec![])).is_empty());
    let events = keys.update(&DeviceInput::ButtonStateChange(vec![false, false, true]));
    assert_eq!(events.len(), 1);
    assert!(matches!(events[0], DeckEvent::ButtonDown(2)));
}

#[test]
fn key_index_wraps_at_a_byte() {
    let mut pressed = vec![false; 258];
    pressed[256] = true;
    pressed[257] = true;
    let mut keys = KeyStates::new();
    let events = keys.update(&DeviceInput::ButtonStateChange(pressed));
    assert_eq!(events.len(), 2);
    assert!(matches!(events[0], DeckEvent::ButtonDown(0)));
    assert!(matches!(events[1], DeckEvent::ButtonDown(1)));
}

#[test]
fn poll_rate_is_sixty_hertz() {
    assert_eq!(POLL_RATE_HZ, 60);
}

//! The device session: discover, connect, read, and after a disconnect
//! wait before discovering again.
//!
//! The session's owner opens the device, reads from it and sleeps outside
//! this library. It reports what happened to `DeviceManager::advance` and
//! carries out the actions that come back, in order. While it reads, it
//! hands every input report to `KeyStates::update`, which says which key
//! events to publish.

use vstd::prelude::*;
use crate::error::DeckError;
use crate::event::DeckEvent;

verus! {

/// How often per second the raw input state is sampled.
pub const POLL_RATE_HZ: u8 = 60;

/// Where the session stands.
#[derive(Debug, Clone, Copy, PartialEq, Eq, Structural)]
pub enum SessionState {
    /// Looking for a device; the next report is `Found` or `NotFound`.
    Discovering,
    /// The device is open and being read.
    Connected,
    /// Waiting out the reconnect interval.
    Backoff,
    /// Cancelled; nothing more happens.
    Stopped,
}

/// What the session's owner reports.
#[derive(Debug)]
pub enum SessionInput {
    /// The cancellation signal fired.
    Cancelled,
    /// A device was found and opened.
    Found,
    /// No device was found, or the one found could not be opened.
    NotFound(DeckError),
    /// Reading from the device failed.
    ReadFailed(DeckError),
    /// The reconnect interval has passed.
    BackoffElapsed,
}

/// What the session's owner is to do next.
#[derive(Debug)]
pub enum SessionAction {
    /// Enumerate the attached devices and open the first.
    Discover,
    /// Put the open device into the shared cell.
    StoreHandle,
    /// Empty the shared cell.
    ClearHandle,
    /// Publish an event on the bus.
    Publish(DeckEvent),
    /// Read input until reading fails or the session is cancelled.
    ReadInput,
    /// Sleep for this many milliseconds, unless cancelled first.
    Wait(u64),
}

/// The state after a report. A report that the state does not expect
/// changes nothing.
pub open spec fn next_state(state: SessionState, input: SessionInput) -> SessionState {
    match (state, input) {
        (SessionState::Stopped, _) => SessionState::Stopped,
        (_, SessionInput::Cancelled) => SessionState::Stopped,
        (SessionState::Discovering, SessionInput::Found) => SessionState::Connected,
        (SessionState::Discovering, SessionInput::NotFound(_)) => SessionState::Backoff,
        (SessionState::Connected, SessionInput::ReadFailed(_)) => SessionState::Backoff,
        (SessionState::Backoff, SessionInput::BackoffElapsed) => SessionState::Discovering,
        _ => state,
    }
}

/// The actions after a report, in the order in which they are carried
/// out.
pub open spec fn actions_of(state: SessionState, input: SessionInput, interval_ms: u64) -> Seq<
    SessionAction,
> {
    match (state, input) {
        (SessionState::Stopped, _) => seq![],
        (_, SessionInput::Cancelled) => seq![],
        (SessionState::Discovering, SessionInput::Found) => seq![
            SessionAction::StoreHandle,
            SessionAction::Publish(DeckEvent::DeviceConnected),
            SessionAction::ReadInput,
        ],
        (SessionState::Discovering, SessionInput::NotFound(_)) => seq![
            SessionAction::Wait(interval_ms),
        ],
        (SessionState::Connected, SessionInput::ReadFailed(_)) => seq![
            SessionAction::ClearHandle,
            SessionAction::Publish(DeckEvent::DeviceDisconnected),
            SessionAction::Wait(interval_ms),
        ],
        (SessionState::Backoff, SessionInput::BackoffElapsed) => seq![SessionAction::Discover],
        _ => seq![],
    }
}

/// How many of the actions publish `DeviceDisconnected`.
pub open spec fn disconnects_in(actions: Seq<SessionAction>) -> nat
    decreases actions.len(),
{
    if actions.len() == 0 {
        0
    } else {
        let rest = disconnects_in(actions.drop_last());
        if actions.last() == SessionAction::Publish(DeckEvent::DeviceDisconnected) {
            rest + 1
        } else {
            rest
        }
    }
}

/// A failed read while connected publishes the disconnect exactly once,
/// ends in a wait of the whole reconnect interval, and leaves the session
/// in backoff, where nothing but the end of that wait makes it discover
/// again.
pub proof fn lemma_disconnect_once_then_wait(error: DeckError, interval_ms: u64, later: SessionInput)
    ensures
        disconnects_in(
            actions_of(SessionState::Connected, SessionInput::ReadFailed(error), interval_ms),
        ) == 1,
        actions_of(
            SessionState::Connected,
            SessionInput::ReadFailed(error),
            interval_ms,
        ).last() == SessionAction::Wait(interval_ms),
        next_state(SessionState::Connected, SessionInput::ReadFailed(error))
            == SessionState::Backoff,
        actions_of(SessionState::Backoff, later, interval_ms).contains(SessionAction::Discover)
            ==> later is BackoffElapsed,
        next_state(SessionState::Backoff, later) == SessionState::Discovering ==> later
            is BackoffElapsed,
{
    let actions = actions_of(
        SessionState::Connected,
        SessionInput::ReadFailed(error),
        interval_ms,
    );
    let two = actions.drop_last();
    let one = two.drop_last();
    assert(one.drop_last() =~= Seq::<SessionAction>::empty());
    reveal_with_fuel(disconnects_in, 4);
    assert(two.last() == SessionAction::Publish(DeckEvent::DeviceDisconnected));
    assert(one.last() == SessionAction::ClearHandle);
    assert(disconnects_in(one.drop_last()) == 0);
    let l = actions_of(SessionState::Backoff, later, interval_ms);
    if l.contains(SessionAction::Discover) {
        let i = choose|i: int| 0 <= i < l.len() && l[i] == SessionAction::Discover;
        assert(l.len() > 0);
    }
}

/// Cancellation stops the session from any state, and a stopped session
/// stays stopped and asks for nothing more.
pub proof fn lemma_cancellation_is_final(state: SessionState, later: SessionInput, interval_ms: u64)
    ensures
        next_state(state, SessionInput::Cancelled) == SessionState::Stopped,
        actions_of(state, SessionInput::Cancelled, interval_ms) == Seq::<SessionAction>::empty(),
        next_state(SessionState::Stopped, later) == SessionState::Stopped,
        actions_of(SessionState::Stopped, later, interval_ms) == Seq::<SessionAction>::empty(),
{
}

/// The session's state and the interval between two attempts.
#[derive(Debug)]
pub struct DeviceManager {
    state: SessionState,
    reconnect_interval_ms: u64,
}

impl DeviceManager {
    /// Where the session stands.
    pub closed spec fn spec_state(&self) -> SessionState {
        self.state
    }

    /// The milliseconds between two attempts to find the device.
    pub closed spec fn spec_interval(&self) -> u64 {
        self.reconnect_interval_ms
    }

    /// A session that is about to discover. Its owner starts with
    /// `SessionAction::Discover`.
    pub fn new(reconnect_interval_ms: u64) -> (manager: Self)
        ensures
            manager.spec_state() == SessionState::Discovering,
            manager.spec_interval() == reconnect_interval_ms,
    {
        DeviceManager { state: SessionState::Discovering, reconnect_interval_ms }
    }

    /// Where the session stands.
    pub fn state(&self) -> (state: SessionState)
        ensures
            state == self.spec_state(),
    {
        self.state
    }

    /// The milliseconds between two attempts to find the device.
    pub fn reconnect_interval_ms(&self) -> (millis: u64)
        ensures
            millis == self.spec_interval(),
    {
        self.reconnect_interval_ms
    }

    /// Takes a report and says what to do next. Cancellation stops the
    /// session from any state, with nothing left to do.
    pub fn advance(&mut self, input: SessionInput) -> (actions: Vec<SessionAction>)
        ensures
            final(self).spec_state() == next_state(old(self).spec_state(), input),
            final(self).spec_interval() == old(self).spec_interval(),
            actions@ == actions_of(old(self).spec_state(), input, old(self).spec_interval()),
    {
        let mut actions: Vec<SessionAction> = Vec::new();
        match self.state {
            SessionState::Stopped => {},
            SessionState::Discovering => match input {
                SessionInput::Cancelled => {
                    self.state = SessionState::Stopped;
                },
                SessionInput::Found => {
                    self.state = SessionState::Connected;
                    actions.push(SessionAction::StoreHandle);
                    actions.push(SessionAction::Publish(DeckEvent::DeviceConnected));
                    actions.push(SessionAction::ReadInput);
                },
                SessionInput::NotFound(_) => {
                    self.state = SessionState::Backoff;
                    actions.push(SessionAction::Wait(self.reconnect_interval_ms));
                },
                _ => {},
            },
            SessionState::Connected => match input {
                SessionInput::Cancelled => {
                    self.state = SessionState::Stopped;
                },
                SessionInput::ReadFailed(_) => {
                    self.state = SessionState::Backoff;
                    actions.push(SessionAction::ClearHandle);
                    actions.push(SessionAction::Publish(DeckEvent::DeviceDisconnected));
                    actions.push(SessionAction::Wait(self.reconnect_interval_ms));
                },
                _ => {},
            },
            SessionState::Backoff => match input {
                SessionInput::Cancelled => {
                    self.state = SessionState::Stopped;
                },
                SessionInput::BackoffElapsed => {
                    self.state = SessionState::Discovering;
                    actions.push(SessionAction::Discover);
                },
                _ => {},
            },
        }
        assert(actions@ =~= actions_of(old(self).spec_state(), input, old(self).spec_interval()));
        actions
    }
}

/// Picks the device to open among those found, given by their serial
/// numbers: the first, whatever the others are. With none attached there
/// is no device.
pub fn pick_device(serials: &Vec<String>) -> (picked: Result<usize, DeckError>)
    ensures
        serials@.len() == 0 ==> picked == Err::<usize, DeckError>(DeckError::NoDevice),
        serials@.len() > 0 ==> picked == Ok::<usize, DeckError>(0usize),
{
    if serials.len() == 0 {
        Err(DeckError::NoDevice)
    } else {
        Ok(0)
    }
}

/// One decoded input report.
#[derive(Debug, Clone, PartialEq, Eq)]
pub enum DeviceInput {
    /// The device had nothing to say.
    NoData,
    /// The pressed state of every key, by key index.
    ButtonStateChange(Vec<bool>),
    /// Input of a kind that this daemon does not handle.
    Other,
}

/// The event for a key that changed. A key index is a byte: an index
/// above 255 wraps.
pub open spec fn key_event(index: int, pressed: bool) -> DeckEvent {
    if pressed {
        DeckEvent::ButtonDown((index % 256) as u8)
    } else {
        DeckEvent::ButtonUp((index % 256) as u8)
    }
}

/// Whether the key `index` counts as pressed in `known`: a key that
/// `known` does not reach is not pressed.
pub open spec fn was_pressed(known: Seq<bool>, index: int) -> bool {
    0 <= index < known.len() && known[index]
}

/// The events for the keys whose decoded state differs from the known
/// one, in key order: button-down for a key now pressed, button-up for
/// one now released.
pub open spec fn changes(known: Seq<bool>, decoded: Seq<bool>) -> Seq<DeckEvent>
    decreases decoded.len(),
{
    if decoded.len() == 0 {
        seq![]
    } else {
        let index = decoded.len() - 1;
        let before = changes(known, decoded.drop_last());
        if decoded[index] != was_pressed(known, index) {
            before.push(key_event(index, decoded[index]))
        } else {
            before
        }
    }
}

/// The pressed state of every key as last decoded.
#[derive(Debug, Clone, PartialEq, Eq)]
pub struct KeyStates {
    pressed: Vec<bool>,
}

impl View for KeyStates {
    type V = Seq<bool>;

    closed spec fn view(&self) -> Seq<bool> {
        self.pressed@
    }
}

/// The known states after a report: a button report replaces them, any
/// other report leaves them.
pub open spec fn states_after(known: Seq<bool>, input: DeviceInput) -> Seq<bool> {
    match input {
        DeviceInput::ButtonStateChange(decoded) => decoded@,
        _ => known,
    }
}

/// The events of a report: the changes that a button report brings, and
/// none for any other report.
pub open spec fn events_of(known: Seq<bool>, input: DeviceInput) -> Seq<DeckEvent> {
    match input {
        DeviceInput::ButtonStateChange(decoded) => changes(known, decoded@),
        _ => seq![],
    }
}

impl KeyStates {
    /// The states at the start of a session: no key is pressed.
    pub fn new() -> (states: Self)
        ensures
            states@ == Seq::<bool>::empty(),
    {
        KeyStates { pressed: Vec::new() }
    }

    /// Takes one input report and gives the events to publish: one for
    /// each key whose pressed state differs from its decoded value.
    pub fn update(&mut self, input: &DeviceInput) -> (events: Vec<DeckEvent>)
        ensures
            events@ == events_of(old(self)@, *input),
            final(self)@ == states_after(old(self)@, *input),
    {
        let mut events: Vec<DeckEvent> = Vec::new();
        match input {
            DeviceInput::ButtonStateChange(decoded) => {
                let mut next: Vec<bool> = Vec::new();
                let mut i: usize = 0;
                while i < decoded.len()
                    invariant
                        i <= decoded@.len(),
                        self.pressed@ == old(self)@,
                        next@ == decoded@.take(i as int),
                        events@ == changes(old(self)@, decoded@.take(i as int)),
                    decreases decoded@.len() - i,
                {
                    let now = decoded[i];
                    let before = i < self.pressed.len() && self.pressed[i];
                    proof {
                        assert(decoded@.take(i + 1).drop_last() == decoded@.take(i as int));
                        assert(decoded@.take(i + 1).last() == now);
                        assert(decoded@.take(i + 1) == decoded@.take(i as int).push(now));
                    }
                    if now != before {
                        let key: u8 = (i % 256) as u8;
                        if now {
                            events.push(DeckEvent::ButtonDown(key));
                        } else {
                            events.push(DeckEvent::ButtonUp(key));
                        }
                    }
                    next.push(now);
                    i += 1;
                }
                assert(decoded@.take(decoded@.len() as int) == decoded@);
                self.pressed = next;
            },
            _ => {},
        }
        events
    }
}

} // verus!

//! The event loop's decisions: what each event does to the daemon's
//! state, and which work it starts.
//!
//! The loop itself waits, spawns tasks and talks to the device outside
//! this library. It hands every input to `step` and carries out the
//! effects that come back, in order.

use std::sync::Arc;
use vstd::prelude::*;
use crate::config::schema::{ActionConfig, AppConfig, ButtonConfig, ButtonDefaults};
use crate::event::DeckEvent;
use crate::page::{first_button, PageManager, PageStack};
use crate::strings::{owned, str_eq};
use crate::table::StringMap;

verus! {

/// How many events the bus retains for a subscriber that has fallen behind.
pub const CHANNEL_CAPACITY: usize = 64;

/// The number of keys of the device.
pub const NUM_KEYS: u8 = 15;

/// Seconds between two polls of the external state.
pub const STATE_POLL_SECS: u64 = 5;

/// Seconds to wait after an action on an entity-bound key before the
/// page is drawn again from polled state.
pub const SETTLE_DELAY_SECS: u64 = 3;

/// Seconds that shutdown waits for background tasks.
pub const SHUTDOWN_TIMEOUT_SECS: u64 = 5;

/// Work that the loop starts on the daemon's behalf.
#[derive(Debug)]
pub enum Effect<'a> {
    /// Draw one key at once from the given states, without polling.
    RenderOptimistic {
        key: u8,
        button: &'a ButtonConfig,
        defaults: &'a ButtonDefaults,
        states: StringMap<String>,
    },
    /// Run an action off the loop. Where `resync` is set, wait the settle
    /// delay after it and publish `RenderAll`.
    RunAction { key: u8, action: &'a ActionConfig, resync: bool },
    /// Set the display brightness, if the device is there.
    SetBrightness(u8),
    /// Publish an event on the bus.
    Publish(DeckEvent),
    /// Make the snapshot the current configuration.
    StoreConfig(Arc<AppConfig>),
    /// Poll the states of the page's entities and draw all its keys.
    RenderPage { page_id: String },
    /// Poll the state of the key's entity and draw the key.
    RenderKey { key: u8, button: &'a ButtonConfig, defaults: &'a ButtonDefaults },
}

/// An effect as a mathematical value.
pub enum EffectView {
    RenderOptimistic {
        key: u8,
        button: ButtonConfig,
        defaults: ButtonDefaults,
        states: Map<Seq<char>, Seq<char>>,
    },
    RunAction { key: u8, action: ActionConfig, resync: bool },
    SetBrightness(u8),
    Publish(DeckEvent),
    StoreConfig(AppConfig),
    RenderPage { page_id: Seq<char> },
    RenderKey { key: u8, button: ButtonConfig, defaults: ButtonDefaults },
}

impl<'a> View for Effect<'a> {
    type V = EffectView;

    open spec fn view(&self) -> EffectView {
        match self {
            Effect::RenderOptimistic { key, button, defaults, states } => {
                EffectView::RenderOptimistic {
                    key: *key,
                    button: **button,
                    defaults: **defaults,
                    states: states.texts(),
                }
            },
            Effect::RunAction { key, action, resync } => EffectView::RunAction {
                key: *key,
                action: **action,
                resync: *resync,
            },
            Effect::SetBrightness(percent) => EffectView::SetBrightness(*percent),
            Effect::Publish(event) => EffectView::Publish(*event),
            Effect::StoreConfig(config) => EffectView::StoreConfig(**config),
            Effect::RenderPage { page_id } => EffectView::RenderPage { page_id: page_id@ },
            Effect::RenderKey { key, button, defaults } => EffectView::RenderKey {
                key: *key,
                button: **button,
                defaults: **defaults,
            },
        }
    }
}

/// The effects of a list as mathematical values.
pub open spec fn effect_views(effects: Seq<Effect<'_>>) -> Seq<EffectView> {
    effects.map_values(|e: Effect<'_>| e@)
}

/// The state to predict for an entity whose key was pressed: "off" where
/// the last known state is "on", and "on" otherwise, also where no state
/// is known.
pub open spec fn flipped(current: Option<Seq<char>>) -> Seq<char> {
    if current == Some("on"@) {
        "off"@
    } else {
        "on"@
    }
}

/// The button that the current page of `pages` shows at `key`.
pub open spec fn button_at(config: AppConfig, pages: PageStack, key: u8) -> Option<ButtonConfig> {
    match config.pages.lookup(pages.current()) {
        Some(page) => first_button(page.buttons@, key),
        None => None,
    }
}

/// The navigator after an event.
pub open spec fn next_pages(event: DeckEvent, config: AppConfig, pages: PageStack) -> PageStack {
    match event {
        DeckEvent::ConfigReloaded(fresh) => {
            let renamed = pages.set_home_page(fresh.deckd.home_page@);
            if fresh.pages.has(renamed.current()) {
                renamed
            } else {
                renamed.go_home()
            }
        },
        DeckEvent::NavigateTo(id) => if config.pages.has(id@) {
            pages.navigate_to(id@)
        } else {
            pages
        },
        DeckEvent::NavigateBack => pages.go_back(),
        DeckEvent::NavigateHome => pages.go_home(),
        _ => pages,
    }
}

/// The state cache after an event: a key press on an entity-bound button
/// flips the entity's entry, and nothing else changes the cache.
pub open spec fn next_cache(
    event: DeckEvent,
    config: AppConfig,
    pages: PageStack,
    cache: Map<Seq<char>, Seq<char>>,
) -> Map<Seq<char>, Seq<char>> {
    match event {
        DeckEvent::ButtonDown(key) => match button_at(config, pages, key) {
            Some(button) => match button.state_entity {
                Some(entity) => cache.insert(
                    entity@,
                    flipped(
                        if cache.contains_key(entity@) {
                            Some(cache[entity@])
                        } else {
                            None
                        },
                    ),
                ),
                None => cache,
            },
            None => cache,
        },
        _ => cache,
    }
}

/// The effects of a key press on `button`.
pub open spec fn press_effects(
    key: u8,
    button: ButtonConfig,
    defaults: ButtonDefaults,
    cache_after: Map<Seq<char>, Seq<char>>,
) -> Seq<EffectView> {
    let render = if button.state_entity is Some {
        seq![
            EffectView::RenderOptimistic { key, button, defaults, states: cache_after },
        ]
    } else {
        seq![]
    };
    let action = match button.on_press {
        Some(action) => seq![
            EffectView::RunAction { key, action, resync: button.state_entity is Some },
        ],
        None => seq![],
    };
    render + action
}

/// The effects of an event, in the order in which the loop carries them
/// out.
pub open spec fn effects_of(
    event: DeckEvent,
    config: AppConfig,
    pages: PageStack,
    cache: Map<Seq<char>, Seq<char>>,
) -> Seq<EffectView> {
    match event {
        DeckEvent::ButtonDown(key) => match button_at(config, pages, key) {
            Some(button) => press_effects(
                key,
                button,
                config.deckd.defaults,
                next_cache(event, config, pages, cache),
            ),
            None => seq![],
        },
        DeckEvent::ButtonUp(_) => seq![],
        DeckEvent::DeviceConnected => seq![
            EffectView::SetBrightness(config.deckd.brightness),
            EffectView::Publish(DeckEvent::RenderAll),
        ],
        DeckEvent::DeviceDisconnected => seq![],
        DeckEvent::ConfigReloaded(fresh) => seq![
            EffectView::StoreConfig(*fresh),
            EffectView::Publish(DeckEvent::RenderAll),
        ],
        DeckEvent::NavigateTo(id) => if config.pages.has(id@) {
            seq![EffectView::Publish(DeckEvent::RenderAll)]
        } else {
            seq![]
        },
        DeckEvent::NavigateBack => if pages.can_go_back() {
            seq![EffectView::Publish(DeckEvent::RenderAll)]
        } else {
            seq![]
        },
        DeckEvent::NavigateHome => seq![EffectView::Publish(DeckEvent::RenderAll)],
        DeckEvent::RenderAll => if config.pages.has(pages.current()) {
            seq![EffectView::RenderPage { page_id: pages.current() }]
        } else {
            seq![]
        },
        DeckEvent::RenderButton(key) => match button_at(config, pages, key) {
            Some(button) => seq![
                EffectView::RenderKey { key, button, defaults: config.deckd.defaults },
            ],
            None => seq![],
        },
        DeckEvent::Shutdown => seq![],
    }
}

/// After a reload whose snapshot lacks the current page, the current
/// page is the snapshot's home page, whatever was on the stack.
pub proof fn lemma_reload_without_current_page(
    fresh: Arc<AppConfig>,
    config: AppConfig,
    pages: PageStack,
)
    requires
        !fresh.pages.has(pages.current()),
    ensures
        next_pages(DeckEvent::ConfigReloaded(fresh), config, pages).current()
            == fresh.deckd.home_page@,
        next_pages(DeckEvent::ConfigReloaded(fresh), config, pages).stack.len() == 1,
{
}

/// A reload whose snapshot has the current page leaves the stack as it
/// is.
pub proof fn lemma_reload_with_current_page(
    fresh: Arc<AppConfig>,
    config: AppConfig,
    pages: PageStack,
)
    requires
        fresh.pages.has(pages.current()),
    ensures
        next_pages(DeckEvent::ConfigReloaded(fresh), config, pages).stack == pages.stack,
{
}

/// No event empties the page stack.
pub proof fn lemma_stack_never_empty(event: DeckEvent, config: AppConfig, pages: PageStack)
    requires
        pages.stack.len() >= 1,
    ensures
        next_pages(event, config, pages).stack.len() >= 1,
{
}

/// No event removes an entry from the state cache: entries are added or
/// overwritten, never deleted.
pub proof fn lemma_cache_keeps_its_entries(
    event: DeckEvent,
    config: AppConfig,
    pages: PageStack,
    cache: Map<Seq<char>, Seq<char>>,
    entity: Seq<char>,
)
    requires
        cache.contains_key(entity),
    ensures
        next_cache(event, config, pages, cache).contains_key(entity),
{
}

/// A key press on a button bound to an entity of which no state is
/// cached predicts that the entity is on.
pub proof fn lemma_first_press_predicts_on(
    config: AppConfig,
    pages: PageStack,
    cache: Map<Seq<char>, Seq<char>>,
    key: u8,
)
    requires
        button_at(config, pages, key) is Some,
        button_at(config, pages, key).unwrap().state_entity is Some,
        !cache.contains_key(button_at(config, pages, key).unwrap().state_entity.unwrap()@),
    ensures
        ({
            let entity = button_at(config, pages, key).unwrap().state_entity.unwrap()@;
            let after = next_cache(DeckEvent::ButtonDown(key), config, pages, cache);
            after.contains_key(entity) && after[entity] == "on"@
        }),
{
}

/// What an event asks of the loop.
#[derive(Debug)]
pub struct Outcome<'a> {
    /// The work to start, in order.
    pub effects: Vec<Effect<'a>>,
    /// Whether the daemon is to stop.
    pub shutdown: bool,
}

/// Flips the cached state of `entity`: the prediction shown until the
/// next poll. An entity with no cached state is predicted to be on.
pub fn predict(cache: &mut StringMap<String>, entity: &str)
    ensures
        final(cache).texts() == old(cache).texts().insert(
            entity@,
            flipped(
                if old(cache).texts().contains_key(entity@) {
                    Some(old(cache).texts()[entity@])
                } else {
                    None
                },
            ),
        ),
{
    let is_on = match cache.text(entity) {
        Some(state) => str_eq(state, "on"),
        None => false,
    };
    let prediction = if is_on {
        owned("off")
    } else {
        owned("on")
    };
    cache.set_text(owned(entity), prediction);
}

/// Brings the navigator in line with a fresh snapshot: the snapshot
/// names the home page, and where it lacks the current page the
/// navigator goes home.
pub fn apply_reload(pages: &mut PageManager, fresh: &AppConfig)
    ensures
        final(pages)@ == next_pages(DeckEvent::ConfigReloaded(Arc::new(*fresh)), *fresh, old(pages)@),
        !fresh.pages.has(old(pages)@.current()) ==> final(pages)@.current()
            == fresh.deckd.home_page@,
        fresh.pages.has(old(pages)@.current()) ==> final(pages)@.stack == old(pages)@.stack,
        final(pages)@.home == fresh.deckd.home_page@,
{
    pages.set_home_page(fresh.deckd.home_page.as_str());
    if !fresh.pages.contains_key(pages.current_page()) {
        pages.go_home();
    }
}

/// Handles one event: updates the navigator and the state cache, and
/// says which work the loop is to start and whether the daemon stops.
///
/// `config` is the current snapshot. A reload does not replace it here:
/// the first effect of a reload is to store the fresh snapshot, and the
/// loop passes that one from then on.
pub fn handle_event<'a>(
    event: DeckEvent,
    config: &'a AppConfig,
    pages: &mut PageManager,
    cache: &mut StringMap<String>,
) -> (out: Outcome<'a>)
    ensures
        out.shutdown == (event is Shutdown),
        final(pages)@ == next_pages(event, *config, old(pages)@),
        final(cache).texts() == next_cache(event, *config, old(pages)@, old(cache).texts()),
        effect_views(out.effects@) == effects_of(
            event,
            *config,
            old(pages)@,
            old(cache).texts(),
        ),
{
    let mut effects: Vec<Effect<'a>> = Vec::new();
    let mut shutdown = false;
    match event {
        DeckEvent::ButtonDown(key) => {
            match pages.button_for_key(config, key) {
                Some(button) => {
                    match &button.state_entity {
                        Some(entity) => {
                            predict(cache, entity.as_str());
                            let states = cache.duplicate();
                            effects.push(
                                Effect::RenderOptimistic {
                                    key,
                                    button,
                                    defaults: &config.deckd.defaults,
                                    states,
                                },
                            );
                        },
                        None => {},
                    }
                    match &button.on_press {
                        Some(action) => {
                            effects.push(
                                Effect::RunAction {
                                    key,
                                    action,
                                    resync: button.state_entity.is_some(),
                                },
                            );
                        },
                        None => {},
                    }
                },
                None => {},
            }
        },
        DeckEvent::ButtonUp(_) => {},
        DeckEvent::DeviceConnected => {
            effects.push(Effect::SetBrightness(config.deckd.brightness));
            effects.push(Effect::Publish(DeckEvent::RenderAll));
        },
        DeckEvent::DeviceDisconnected => {},
        DeckEvent::ConfigReloaded(fresh) => {
            apply_reload(pages, &fresh);
            effects.push(Effect::StoreConfig(fresh));
            effects.push(Effect::Publish(DeckEvent::RenderAll));
        },
        DeckEvent::NavigateTo(page_id) => {
            if config.pages.contains_key(page_id.as_str()) {
                pages.navigate_to(page_id.as_str());
                effects.push(Effect::Publish(DeckEvent::RenderAll));
            }
        },
        DeckEvent::NavigateBack => {
            if pages.go_back() {
                effects.push(Effect::Publish(DeckEvent::RenderAll));
            }
        },
        DeckEvent::NavigateHome => {
            pages.go_home();
            effects.push(Effect::Publish(DeckEvent::RenderAll));
        },
        DeckEvent::RenderAll => {
            if config.pages.contains_key(pages.current_page()) {
                effects.push(Effect::RenderPage { page_id: owned(pages.current_page()) });
            }
        },
        DeckEvent::RenderButton(key) => {
            match pages.button_for_key(config, key) {
                Some(button) => {
                    effects.push(
                        Effect::RenderKey { key, button, defaults: &config.deckd.defaults },
                    );
                },
                None => {},
            }
        },
        DeckEvent::Shutdown => {
            shutdown = true;
        },
    }
    assert(effect_views(effects@) =~= effects_of(
        event,
        *config,
        old(pages)@,
        old(cache).texts(),
    ));
    Outcome { effects, shutdown }
}

/// Whether some button of the list is bound to an external entity.
pub open spec fn any_stateful(buttons: Seq<ButtonConfig>) -> bool {
    exists|i: int| 0 <= i < buttons.len() && (#[trigger] buttons[i]).state_entity is Some
}

/// Whether the page `page_id` of `config` shows external state.
pub open spec fn page_is_stateful(config: AppConfig, page_id: Seq<char>) -> bool {
    match config.pages.lookup(page_id) {
        Some(page) => any_stateful(page.buttons@),
        None => false,
    }
}

/// Whether the page `page_id` has a button bound to an external entity,
/// so that its tiles can change without a key press.
pub fn has_stateful_button(config: &AppConfig, page_id: &str) -> (stateful: bool)
    ensures
        stateful == page_is_stateful(*config, page_id@),
{
    match config.pages.get(page_id) {
        Some(page) => {
            let mut i: usize = 0;
            while i < page.buttons.len()
                invariant
                    i <= page.buttons@.len(),
                    config.pages.lookup(page_id@) == Some(*page),
                    forall|j: int| 0 <= j < i ==> page.buttons@[j].state_entity is None,
                decreases page.buttons@.len() - i,
            {
                if page.buttons[i].state_entity.is_some() {
                    assert(page.buttons@[i as int].state_entity is Some);
                    return true;
                }
                i += 1;
            }
            false
        },
        None => false,
    }
}

/// The entity ids of a list of buttons, in the order of the buttons; an
/// entity that several buttons name occurs as often.
pub open spec fn entities_of(buttons: Seq<ButtonConfig>) -> Seq<Seq<char>>
    decreases buttons.len(),
{
    if buttons.len() == 0 {
        seq![]
    } else {
        let rest = entities_of(buttons.drop_last());
        match buttons.last().state_entity {
            Some(entity) => rest.push(entity@),
            None => rest,
        }
    }
}

/// The ids of the entities that the buttons of page `page_id` are bound
/// to, in the order of the buttons. Empty where the page is not there.
pub fn collect_state_entities(config: &AppConfig, page_id: &str) -> (entities: Vec<String>)
    ensures
        entities@.map_values(|e: String| e@) == (match config.pages.lookup(page_id@) {
            Some(page) => entities_of(page.buttons@),
            None => seq![],
        }),
{
    let mut entities: Vec<String> = Vec::new();
    match config.pages.get(page_id) {
        Some(page) => {
            let mut i: usize = 0;
            while i < page.buttons.len()
                invariant
                    i <= page.buttons@.len(),
                    entities@.map_values(|e: String| e@) == entities_of(
                        page.buttons@.take(i as int),
                    ),
                decreases page.buttons@.len() - i,
            {
                proof {
                    assert(page.buttons@.take(i + 1).drop_last() == page.buttons@.take(i as int));
                }
                match &page.buttons[i].state_entity {
                    Some(entity) => {
                        let ghost before = entities@;
                        entities.push(entity.clone());
                        assert(entities@.map_values(|e: String| e@) == before.map_values(
                            |e: String| e@,
                        ).push(entity@));
                    },
                    None => {},
                }
                i += 1;
            }
            assert(page.buttons@.take(page.buttons@.len() as int) == page.buttons@);
        },
        None => {
            assert(entities@.map_values(|e: String| e@) == Seq::<Seq<char>>::empty());
        },
    }
    entities
}

/// What the loop's wait ended with.
#[derive(Debug)]
pub enum LoopInput {
    /// The cancellation signal fired.
    Cancelled,
    /// The process was interrupted from outside.
    Interrupt,
    /// The poll timer ticked.
    PollTick,
    /// The bus delivered an event.
    Received(DeckEvent),
    /// The loop fell behind the bus and missed this many events.
    Lagged(u64),
    /// The bus has no publisher left.
    Closed,
}

/// What the loop does after an input.
#[derive(Debug)]
pub struct Step<'a> {
    /// The work to start, in order.
    pub effects: Vec<Effect<'a>>,
    /// Whether the loop ends. The loop that ends fires the cancellation
    /// signal, whatever made it end.
    pub stop: bool,
}

/// The event of an input, if it brings one.
pub open spec fn input_event(input: LoopInput) -> Option<DeckEvent> {
    match input {
        LoopInput::Received(event) => Some(event),
        _ => None,
    }
}

/// Whether the loop ends on an input: on cancellation, on an interrupt,
/// when the bus is closed, and on a shutdown event. A lag does not end
/// it.
pub open spec fn stops(input: LoopInput) -> bool {
    match input {
        LoopInput::Cancelled => true,
        LoopInput::Interrupt => true,
        LoopInput::PollTick => false,
        LoopInput::Received(event) => event is Shutdown,
        LoopInput::Lagged(_) => false,
        LoopInput::Closed => true,
    }
}

/// The effects of an input.
pub open spec fn step_effects(
    input: LoopInput,
    config: AppConfig,
    pages: PageStack,
    cache: Map<Seq<char>, Seq<char>>,
) -> Seq<EffectView> {
    match input {
        LoopInput::PollTick => if page_is_stateful(config, pages.current()) {
            seq![EffectView::Publish(DeckEvent::RenderAll)]
        } else {
            seq![]
        },
        LoopInput::Received(event) => effects_of(event, config, pages, cache),
        _ => seq![],
    }
}

/// One turn of the event loop: takes what the wait ended with and says
/// what the loop does. Only an event changes the navigator or the cache.
/// A lag is no error: the loop goes on with the next event.
pub fn step<'a>(
    input: LoopInput,
    config: &'a AppConfig,
    pages: &mut PageManager,
    cache: &mut StringMap<String>,
) -> (out: Step<'a>)
    ensures
        out.stop == stops(input),
        effect_views(out.effects@) == step_effects(
            input,
            *config,
            old(pages)@,
            old(cache).texts(),
        ),
        match input_event(input) {
            Some(event) => {
                &&& final(pages)@ == next_pages(event, *config, old(pages)@)
                &&& final(cache).texts() == next_cache(
                    event,
                    *config,
                    old(pages)@,
                    old(cache).texts(),
                )
            },
            None => {
                &&& final(pages)@ == old(pages)@
                &&& final(cache).texts() == old(cache).texts()
            },
        },
{
    match input {
        LoopInput::Cancelled => Step { effects: Vec::new(), stop: true },
        LoopInput::Interrupt => Step { effects: Vec::new(), stop: true },
        LoopInput::PollTick => {
            let mut effects: Vec<Effect<'a>> = Vec::new();
            if has_stateful_button(config, pages.current_page()) {
                effects.push(Effect::Publish(DeckEvent::RenderAll));
            }
            assert(effect_views(effects@) =~= step_effects(
                input,
                *config,
                old(pages)@,
                old(cache).texts(),
            ));
            Step { effects, stop: false }
        },
        LoopInput::Received(event) => {
            let out = handle_event(event, config, pages, cache);
            Step { effects: out.effects, stop: out.shutdown }
        },
        LoopInput::Lagged(_) => Step { effects: Vec::new(), stop: false },
        LoopInput::Closed => Step { effects: Vec::new(), stop: true },
    }
}

} // verus!

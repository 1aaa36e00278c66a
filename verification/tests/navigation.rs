use deckd::config::schema::{
    ActionConfig, AppConfig, ButtonConfig, ButtonDefaults, DeckdConfig, PageConfig,
};
use deckd::daemon::{apply_reload, handle_event, Effect};
use deckd::action::{plan_action, ActionPlan};
use deckd::event::DeckEvent;
use deckd::page::{find_button, PageManager};
use deckd::table::StringMap;
use std::sync::Arc;

fn button(key: u8) -> ButtonConfig {
    ButtonConfig {
        key,
        label: None,
        icon: None,
        background: None,
        text_color: None,
        on_background: None,
        on_text_color: None,
        font_size: None,
        font: None,
        state_entity: None,
        on_press: None,
    }
}

fn config(home: &str, pages: Vec<(&str, Vec<ButtonConfig>)>) -> AppConfig {
    let mut table: StringMap<PageConfig> = StringMap::new();
    for (id, buttons) in pages {
        table.insert(id.to_string(), PageConfig { name: id.to_uppercase(), buttons });
    }
    AppConfig {
        deckd: DeckdConfig {
            brightness: 80,
            reconnect_interval_ms: 2000,
            home_page: home.to_string(),
            defaults: ButtonDefaults::default(),
        },
        pages: table,
    }
}

#[test]
fn navigation_stack() {
    let mut pm = PageManager::new("home");
    assert_eq!(pm.current_page(), "home");

    pm.navigate_to("lights");
    assert_eq!(pm.current_page(), "lights");

    pm.navigate_to("scenes");
    assert_eq!(pm.current_page(), "scenes");

    assert!(pm.go_back());
    assert_eq!(pm.current_page(), "lights");

    pm.go_home();
    assert_eq!(pm.current_page(), "home");

    // Can't go back from home.
    assert!(!pm.go_back());
}

#[test]
fn navigate_then_back_restores_height() {
    let mut pm = PageManager::new("home");
    pm.navigate_to("a");
    let before = pm.depth();
    assert_eq!(before, 2);
    let ids = ["b", "c", "b", "b", "d"];
    for id in ids {
        pm.navigate_to(id);
    }
    assert_eq!(pm.depth(), before + ids.len());
    for _ in ids {
        assert!(pm.go_back());
    }
    assert_eq!(pm.depth(), before);
    assert_eq!(pm.current_page(), "a");
}

#[test]
fn go_back_on_single_page_is_no_op() {
    let mut pm = PageManager::new("home");
    assert_eq!(pm.depth(), 1);
    assert!(!pm.go_back());
    assert_eq!(pm.depth(), 1);
    assert_eq!(pm.current_page(), "home");
}

#[test]
fn repeated_navigation_grows_the_stack() {
    let mut pm = PageManager::new("home");
    pm.navigate_to("home");
    pm.navigate_to("home");
    assert_eq!(pm.depth(), 3);
}

#[test]
fn set_home_page_keeps_the_stack() {
    let mut pm = PageManager::new("home");
    pm.navigate_to("lights");
    pm.set_home_page("start");
    assert_eq!(pm.current_page(), "lights");
    assert_eq!(pm.depth(), 2);
    pm.go_home();
    assert_eq!(pm.current_page(), "start");
    assert_eq!(pm.depth(), 1);
}

#[test]
fn button_lookup_takes_first_match() {
    let mut first = button(3);
    first.label = Some("first".to_string());
    let mut second = button(3);
    second.label = Some("second".to_string());
    let cfg = config("home", vec![("home", vec![button(0), first, second])]);
    let pm = PageManager::new("home");
    let found = pm.button_for_key(&cfg, 3).unwrap();
    assert_eq!(found.label.as_deref(), Some("first"));
    assert!(pm.button_for_key(&cfg, 4).is_none());
    assert!(pm.current_page_config(&cfg).is_some());
    let page = cfg.pages.get("home").unwrap();
    assert_eq!(find_button(page, 0).unwrap().key, 0);
}

#[test]
fn button_lookup_on_missing_page() {
    let cfg = config("home", vec![("home", vec![button(0)])]);
    let mut pm = PageManager::new("home");
    pm.navigate_to("gone");
    assert!(pm.current_page_config(&cfg).is_none());
    assert!(pm.button_for_key(&cfg, 0).is_none());
}

#[test]
fn reload_without_current_page_goes_home() {
    let mut pm = PageManager::new("home");
    pm.navigate_to("lights");
    let fresh = config("start", vec![("start", vec![]), ("other", vec![])]);
    apply_reload(&mut pm, &fresh);
    assert_eq!(pm.current_page(), "start");
    assert_eq!(pm.depth(), 1);
}

#[test]
fn reload_with_current_page_stays() {
    let mut pm = PageManager::new("home");
    pm.navigate_to("lights");
    let fresh = config("start", vec![("start", vec![]), ("lights", vec![])]);
    apply_reload(&mut pm, &fresh);
    assert_eq!(pm.current_page(), "lights");
    assert_eq!(pm.depth(), 2);
    pm.go_home();
    assert_eq!(pm.current_page(), "start");
}

#[test]
fn reload_event_stores_config_and_renders() {
    let old = config("home", vec![("home", vec![]), ("lights", vec![])]);
    let mut pm = PageManager::new("home");
    pm.navigate_to("lights");
    let mut cache: StringMap<String> = StringMap::new();
    let fresh = Arc::new(config("main", vec![("main", vec![])]));
    let out = handle_event(DeckEvent::ConfigReloaded(fresh.clone()), &old, &mut pm, &mut cache);
    assert!(!out.shutdown);
    assert_eq!(out.effects.len(), 2);
    match &out.effects[0] {
        Effect::StoreConfig(stored) => assert!(Arc::ptr_eq(stored, &fresh)),
        other => panic!("unexpected effect {:?}", other),
    }
    assert!(matches!(out.effects[1], Effect::Publish(DeckEvent::RenderAll)));
    assert_eq!(pm.current_page(), "main");
}

#[test]
fn button_down_navigates_and_renders() {
    let mut go = button(0);
    go.on_press = Some(ActionConfig::Navigate { page: "b".to_string() });
    let cfg = config("home", vec![("home", vec![go]), ("b", vec![])]);
    let mut pm = PageManager::new("home");
    let mut cache: StringMap<String> = StringMap::new();

    let out = handle_event(DeckEvent::ButtonDown(0), &cfg, &mut pm, &mut cache);
    assert_eq!(out.effects.len(), 1);
    let published = match &out.effects[0] {
        Effect::RunAction { key, action, resync } => {
            assert_eq!(*key, 0);
            assert!(!*resync);
            match plan_action(action).unwrap() {
                ActionPlan::Publish(event) => event,
                other => panic!("unexpected plan {:?}", other),
            }
        }
        other => panic!("unexpected effect {:?}", other),
    };
    assert!(matches!(&published, DeckEvent::NavigateTo(id) if id == "b"));
    assert_eq!(pm.current_page(), "home");

    let out = handle_event(published, &cfg, &mut pm, &mut cache);
    assert_eq!(pm.current_page(), "b");
    assert_eq!(out.effects.len(), 1);
    assert!(matches!(out.effects[0], Effect::Publish(DeckEvent::RenderAll)));
    assert!(!out.shutdown);
}

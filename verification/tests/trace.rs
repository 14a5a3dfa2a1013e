use browser_shell::progress::Fraction;
use browser_shell::shell::{BrowserShell, Effect, Event, LoadEvent};
use browser_shell::theme::Stylesheet;

fn report(value: f64) -> Event {
    Event::ProgressChanged(Fraction::from_bits(value.to_bits()))
}

fn load(phase: LoadEvent, can_go_back: bool) -> Event {
    Event::LoadChanged { phase, can_go_back }
}

fn uri(address: &str) -> Event {
    Event::UriChanged(String::from(address))
}

fn theme(name: &str, prefer_dark: bool) -> Event {
    Event::ThemeChanged { theme_name: String::from(name), prefer_dark }
}

fn reset_after_half_a_second() -> Effect {
    Effect::ScheduleProgressReset { delay_ms: 500 }
}

#[test]
fn empty_queue_changes_nothing() {
    let mut shell = BrowserShell::new();
    let asked = shell.handle_all(&Vec::new());
    assert_eq!(asked, Vec::new());
    assert!(!shell.back_enabled());
    assert_eq!(shell.progress(), Fraction::zero());
    assert_eq!(shell.subtitle(), "https://thisweek.gnome.org/");
    assert_eq!(shell.stylesheet(), None);
}

#[test]
fn one_page_load() {
    let mut shell = BrowserShell::new();
    let asked = shell.handle_all(&vec![
        theme("Adwaita", false),
        load(LoadEvent::Started, false),
        report(0.1),
        load(LoadEvent::Committed, false),
        report(0.6),
        report(1.0),
        load(LoadEvent::Finished, false),
    ]);
    assert_eq!(
        asked,
        vec![Effect::ApplyStylesheet(Stylesheet::Light), reset_after_half_a_second()]
    );
    assert_eq!(f64::from_bits(shell.progress().to_bits()), 1.0);
    assert!(!shell.back_enabled());

    let later = shell.handle_all(&vec![Event::ResetElapsed]);
    assert_eq!(later, Vec::new());
    assert_eq!(shell.progress(), Fraction::zero());
}

#[test]
fn navigation_and_way_back() {
    let mut shell = BrowserShell::new();
    let asked = shell.handle_all(&vec![
        load(LoadEvent::Started, false),
        load(LoadEvent::Finished, false),
        Event::BackClicked,
        Event::ResetElapsed,
        load(LoadEvent::Started, false),
        uri("https://example.com/"),
        load(LoadEvent::Redirected, true),
        load(LoadEvent::Committed, true),
        load(LoadEvent::Finished, true),
        Event::BackClicked,
        Event::ResetElapsed,
    ]);
    assert_eq!(
        asked,
        vec![reset_after_half_a_second(), reset_after_half_a_second(), Effect::GoBack]
    );
    assert!(shell.back_enabled());
    assert_eq!(shell.subtitle(), "https://example.com/");
}

#[test]
fn queue_ending_in_a_reset_ends_cleared() {
    let mut shell = BrowserShell::new();
    shell.handle_all(&vec![
        report(1.0),
        load(LoadEvent::Finished, false),
        report(0.4),
        report(1.0),
        load(LoadEvent::Finished, true),
        Event::ResetElapsed,
        Event::ResetElapsed,
    ]);
    assert_eq!(shell.progress(), Fraction::zero());
}

#[test]
fn reset_that_arrives_during_the_next_load_clears_too() {
    let mut shell = BrowserShell::new();
    shell.handle_all(&vec![
        report(1.0),
        load(LoadEvent::Finished, false),
        load(LoadEvent::Started, false),
        report(0.2),
        Event::ResetElapsed,
    ]);
    assert_eq!(shell.progress(), Fraction::zero());
    shell.handle_all(&vec![report(0.5)]);
    assert_eq!(f64::from_bits(shell.progress().to_bits()), 0.5);
}

#[test]
fn one_reset_is_asked_for_each_finished_load() {
    let mut shell = BrowserShell::new();
    let asked = shell.handle_all(&vec![
        load(LoadEvent::Finished, false),
        load(LoadEvent::Started, false),
        load(LoadEvent::Finished, true),
        load(LoadEvent::Committed, true),
        load(LoadEvent::Finished, true),
    ]);
    assert_eq!(
        asked,
        vec![
            reset_after_half_a_second(),
            reset_after_half_a_second(),
            reset_after_half_a_second()
        ]
    );
}

#[test]
fn back_button_goes_by_the_last_finished_load() {
    let mut shell = BrowserShell::new();
    shell.handle_all(&vec![
        load(LoadEvent::Finished, true),
        load(LoadEvent::Started, false),
        load(LoadEvent::Committed, false),
        report(0.3),
        uri("https://example.com/"),
    ]);
    assert!(shell.back_enabled());
    shell.handle_all(&vec![load(LoadEvent::Finished, false), load(LoadEvent::Started, true)]);
    assert!(!shell.back_enabled());
}

#[test]
fn clicks_while_disabled_ask_for_nothing() {
    let mut shell = BrowserShell::new();
    let asked = shell.handle_all(&vec![
        Event::BackClicked,
        load(LoadEvent::Committed, true),
        Event::BackClicked,
        load(LoadEvent::Finished, false),
        Event::BackClicked,
    ]);
    assert_eq!(asked, vec![reset_after_half_a_second()]);
}

#[test]
fn each_click_while_enabled_asks_once() {
    let mut shell = BrowserShell::new();
    let asked = shell.handle_all(&vec![
        load(LoadEvent::Finished, true),
        Event::BackClicked,
        Event::BackClicked,
    ]);
    assert_eq!(asked, vec![reset_after_half_a_second(), Effect::GoBack, Effect::GoBack]);
}

#[test]
fn subtitle_is_the_last_address() {
    let mut shell = BrowserShell::new();
    shell.handle_all(&vec![
        uri("https://example.com/"),
        load(LoadEvent::Finished, true),
        uri("https://example.org/page"),
        report(0.9),
        Event::ResetElapsed,
    ]);
    assert_eq!(shell.subtitle(), "https://example.org/page");
}

#[test]
fn preference_switches_the_stylesheet_in_the_running_window() {
    let mut shell = BrowserShell::new();
    let asked = shell.handle_all(&vec![
        theme("Adwaita", false),
        uri("https://example.com/"),
        theme("Adwaita", true),
        load(LoadEvent::Finished, true),
        theme("Adwaita", false),
    ]);
    assert_eq!(
        asked,
        vec![
            Effect::ApplyStylesheet(Stylesheet::Light),
            Effect::ApplyStylesheet(Stylesheet::Dark),
            reset_after_half_a_second(),
            Effect::ApplyStylesheet(Stylesheet::Light),
        ]
    );
    assert_eq!(shell.stylesheet(), Some(Stylesheet::Light));
    assert_eq!(shell.subtitle(), "https://example.com/");
    assert!(shell.back_enabled());
}

#[test]
fn queue_is_the_same_as_event_by_event() {
    let mut queued = BrowserShell::new();
    let mut stepped = BrowserShell::new();
    let events = vec![
        theme("Breeze-Dark", false),
        report(0.2),
        load(LoadEvent::Finished, true),
        Event::BackClicked,
        uri("https://example.com/"),
        Event::ResetElapsed,
        report(0.8),
    ];
    let asked = queued.handle_all(&events);
    let mut one_by_one: Vec<Effect> = Vec::new();
    for event in &events {
        if let Some(effect) = stepped.handle(event) {
            one_by_one.push(effect);
        }
    }
    assert_eq!(asked, one_by_one);
    assert_eq!(queued.back_enabled(), stepped.back_enabled());
    assert_eq!(queued.progress(), stepped.progress());
    assert_eq!(queued.subtitle(), stepped.subtitle());
    assert_eq!(queued.stylesheet(), stepped.stylesheet());
}

//! Tests for the key-press rules and the focus ring.

use procli::event::{key_action, AppEvent, Key};
use procli::ui::{Focussable, Mode, UiState};

#[test]
fn quit_keys() {
    assert_eq!(key_action(Key::Esc), Some(AppEvent::Quit));
    assert_eq!(key_action(Key::Char('q')), Some(AppEvent::Quit));
    assert_eq!(key_action(Key::Ctrl('c')), Some(AppEvent::Quit));
    assert_eq!(key_action(Key::Ctrl('C')), Some(AppEvent::Quit));
}

#[test]
fn reload_key_and_ignored_keys() {
    assert_eq!(key_action(Key::Char('r')), Some(AppEvent::Reload));
    assert_eq!(key_action(Key::Char('x')), None);
    assert_eq!(key_action(Key::Ctrl('r')), None);
    assert_eq!(key_action(Key::Other), None);
}

#[test]
fn focus_ring_forward() {
    let mut ui = UiState::default();
    ui.procs = 2;
    ui.focus_next();
    assert_eq!(ui.focus, Some(Focussable::Process(0)));
    ui.focus_next();
    assert_eq!(ui.focus, Some(Focussable::Process(1)));
    ui.focus_next();
    assert_eq!(ui.focus, Some(Focussable::Logs));
    ui.focus_next();
    assert_eq!(ui.focus, Some(Focussable::Process(0)));
    // With the debug panel shown, the logs hand over to it.
    ui.debug = true;
    ui.focus = Some(Focussable::Logs);
    ui.focus_next();
    assert_eq!(ui.focus, Some(Focussable::Debug));
    ui.focus_next();
    assert_eq!(ui.focus, Some(Focussable::Process(0)));
}

#[test]
fn focus_ring_backward() {
    let mut ui = UiState::default();
    ui.procs = 2;
    ui.focus_prev();
    assert_eq!(ui.focus, Some(Focussable::Process(0)));
    ui.focus = Some(Focussable::Logs);
    ui.focus_prev();
    assert_eq!(ui.focus, Some(Focussable::Process(1)));
    ui.focus_prev();
    assert_eq!(ui.focus, Some(Focussable::Process(0)));
    ui.focus_prev();
    assert_eq!(ui.focus, Some(Focussable::Logs));
    ui.debug = true;
    ui.focus = Some(Focussable::Process(0));
    ui.focus_prev();
    assert_eq!(ui.focus, Some(Focussable::Debug));
    ui.focus_prev();
    assert_eq!(ui.focus, Some(Focussable::Logs));
}

#[test]
fn toggle_debug_moves_a_stranded_focus() {
    let mut ui = UiState::default();
    ui.toggle_debug();
    assert!(ui.debug);
    ui.focus = Some(Focussable::Debug);
    ui.toggle_debug();
    assert!(!ui.debug);
    assert_eq!(ui.focus, Some(Focussable::Process(0)));
}

#[test]
fn update_procs_clamps_the_focus() {
    let mut ui = UiState::default();
    ui.procs = 3;
    ui.focus = Some(Focussable::Process(2));
    ui.update_procs(2);
    assert_eq!(ui.focus, Some(Focussable::Process(1)));
    ui.update_procs(0);
    assert_eq!(ui.focus, Some(Focussable::Logs));
}

#[test]
fn toggle_spotlight_flips_between_modes() {
    let mut ui = UiState::default();
    assert_eq!(ui.mode, Mode::Dashboard);
    ui.toggle_spotlight();
    assert_eq!(ui.mode, Mode::Spotlight);
    ui.toggle_spotlight();
    assert_eq!(ui.mode, Mode::Dashboard);
    ui.mode = Mode::Logs;
    ui.toggle_spotlight();
    assert_eq!(ui.mode, Mode::Spotlight);
}

#[test]
fn tick_wraps_after_two_seconds() {
    let mut ui = UiState::default();
    for _ in 0..60 {
        ui.tick(0);
    }
    assert_eq!(ui.tick, 60);
    ui.tick(777);
    assert_eq!(ui.tick, 0);
    assert_eq!(ui.time, 777);
}

use keypulse::actuator::PulseLine;
use keypulse::engine::{
    apply_events, handle_key, Action, Engine, EngineInput, KeyEvent, PulseOutcome, Transition,
};
use keypulse::keys::{KeyState, KEY_ESC, KEY_LEFTALT, KEY_LEFTCTRL, KEY_LEFTMETA, KEY_S};

const KEY_A: u16 = 30;

fn down(code: u16) -> KeyEvent {
    KeyEvent { source: 0, code, transition: Transition::Down }
}

fn up(code: u16) -> KeyEvent {
    KeyEvent { source: 0, code, transition: Transition::Up }
}

#[test]
fn releasing_the_exact_combo_toggles_and_further_releases_do_not() {
    // combo = {LeftCtrl, LeftAlt, LeftMeta, S}
    let mut engine = Engine::new(false, true);
    assert!(!engine.plopp_active);
    assert_eq!(engine.step(EngineInput::Key(down(KEY_LEFTCTRL))), Action::Continue);
    assert_eq!(engine.step(EngineInput::Key(down(KEY_LEFTALT))), Action::Continue);
    assert_eq!(engine.step(EngineInput::Key(down(KEY_LEFTMETA))), Action::Continue);
    assert_eq!(engine.step(EngineInput::Key(down(KEY_S))), Action::Continue);
    assert!(!engine.plopp_active, "a Down transition never toggles");
    // the held set now equals the combo; releasing S fires the toggle
    assert_eq!(engine.step(EngineInput::Key(up(KEY_S))), Action::Continue);
    assert!(engine.plopp_active);
    // the remaining releases see a smaller held set and do not toggle again
    engine.step(EngineInput::Key(up(KEY_LEFTCTRL)));
    assert!(engine.plopp_active);
    engine.step(EngineInput::Key(up(KEY_LEFTALT)));
    assert!(engine.plopp_active);
    engine.step(EngineInput::Key(up(KEY_LEFTMETA)));
    assert!(engine.plopp_active);
}

#[test]
fn releasing_the_combo_again_toggles_back_off() {
    let mut engine = Engine::new(false, true);
    for _round in 0..2 {
        for code in [KEY_LEFTCTRL, KEY_LEFTALT, KEY_LEFTMETA, KEY_S] {
            engine.step(EngineInput::Key(down(code)));
        }
        let before = engine.plopp_active;
        engine.step(EngineInput::Key(up(KEY_S)));
        assert_eq!(engine.plopp_active, !before);
        for code in [KEY_LEFTCTRL, KEY_LEFTALT, KEY_LEFTMETA] {
            engine.step(EngineInput::Key(up(code)));
        }
    }
    assert!(!engine.plopp_active, "two exact releases return to the initial state");
}

#[test]
fn an_extra_held_key_prevents_the_toggle() {
    let mut engine = Engine::new(false, true);
    for code in [KEY_LEFTCTRL, KEY_LEFTALT, KEY_LEFTMETA, KEY_S, KEY_A] {
        engine.step(EngineInput::Key(down(code)));
    }
    // held set is a strict superset of the combo when S is released
    engine.step(EngineInput::Key(up(KEY_S)));
    assert!(!engine.plopp_active);
    // after releasing the extra key the set is a strict subset
    engine.step(EngineInput::Key(up(KEY_A)));
    assert!(!engine.plopp_active);
}

#[test]
fn the_toggle_tests_the_held_set_before_the_release_is_applied() {
    // whichever key comes up, the comparison still counts every held key —
    // releasing a key that was never held while the combo is held toggles too
    let mut engine = Engine::new(false, true);
    for code in [KEY_LEFTCTRL, KEY_LEFTALT, KEY_LEFTMETA, KEY_S] {
        engine.step(EngineInput::Key(down(code)));
    }
    engine.step(EngineInput::Key(up(KEY_A)));
    assert!(engine.plopp_active);
}

#[test]
fn a_down_event_while_inactive_never_requests_the_line() {
    let mut engine = Engine::new(false, true);
    let mut line = PulseLine::new(26, 30_000);
    assert!(!engine.plopp_active);
    let outcome = handle_key(&mut engine, &mut line, down(KEY_A), 0);
    assert_eq!(outcome, PulseOutcome::Skipped);
    assert!(!line.is_busy(0), "the line was never acquired");
    let granted = line.request(0);
    assert!(granted, "the line is still free");
}

#[test]
fn a_down_event_while_active_requests_the_line() {
    let mut engine = Engine::new(false, false);
    let mut line = PulseLine::new(26, 30_000);
    assert!(engine.plopp_active);
    let outcome = handle_key(&mut engine, &mut line, down(KEY_A), 0);
    assert_eq!(outcome, PulseOutcome::Fired);
    assert!(line.is_busy(0));
}

#[test]
fn dead_keys_do_not_request_the_line_even_while_active() {
    let mut engine = Engine::new(false, false);
    let mut line = PulseLine::new(26, 30_000);
    let outcome = handle_key(&mut engine, &mut line, down(KEY_ESC), 0);
    assert_eq!(outcome, PulseOutcome::Skipped);
    assert!(!line.is_busy(0));
}

#[test]
fn an_up_event_never_requests_the_line() {
    let mut engine = Engine::new(false, false);
    let mut line = PulseLine::new(26, 30_000);
    engine.step(EngineInput::Key(down(KEY_A)));
    let outcome = handle_key(&mut engine, &mut line, up(KEY_A), 5);
    assert_eq!(outcome, PulseOutcome::Skipped);
    assert!(!line.is_busy(5));
}

#[test]
fn every_hotplug_signal_requests_a_rebuild() {
    let mut engine = Engine::new(false, false);
    assert_eq!(engine.generation, 0);
    assert_eq!(engine.step(EngineInput::Hotplug), Action::Rebuild);
    assert_eq!(engine.generation, 1);
    // a rebuild request comes for every signal, whatever the engine state
    engine.step(EngineInput::Key(down(KEY_A)));
    assert_eq!(engine.step(EngineInput::Hotplug), Action::Rebuild);
    assert_eq!(engine.generation, 2);
    assert!(engine.running);
}

#[test]
fn a_rebuild_preserves_the_held_set() {
    let mut engine = Engine::new(false, false);
    engine.step(EngineInput::Key(down(KEY_A)));
    engine.step(EngineInput::Hotplug);
    assert!(engine.keys.is_held(KEY_A), "a key held across a hotplug stays held");
}

#[test]
fn a_cancellation_stops_the_loop() {
    let mut engine = Engine::new(false, false);
    assert_eq!(engine.step(EngineInput::Cancel), Action::Shutdown);
    assert!(!engine.running);
}

#[test]
fn applying_an_interleaving_leaves_the_keys_with_positive_balance() {
    // three keys pressed, one of them released: exactly two remain held
    let mut keys = KeyState::new();
    let events = vec![
        down(KEY_A),
        down(KEY_S),
        up(KEY_A),
        down(KEY_LEFTCTRL),
    ];
    apply_events(&mut keys, &events);
    assert!(!keys.is_held(KEY_A));
    assert!(keys.is_held(KEY_S));
    assert!(keys.is_held(KEY_LEFTCTRL));
    assert_eq!(keys.held_count(), 2);
}

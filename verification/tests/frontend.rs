use zinc64::app::app::{Action, App, JamAction, RunStep, State};
use zinc64::app::io::{Event, HostKey};

fn key(keycode: HostKey, lalt: bool, lctrl: bool, repeat: bool) -> Event {
    Event::KeyDown { keycode: Some(keycode), lalt, lctrl, repeat }
}

#[test]
fn escape_opens_console_and_quit_stops() {
    assert!(App::hotkey(&Event::Quit) == Action::Stop);
    assert!(App::hotkey(&key(HostKey::Escape, false, false, true)) == Action::Console);
    assert!(App::hotkey(&key(HostKey::Q, true, false, false)) == Action::Stop);
}

#[test]
fn alt_hotkeys() {
    assert!(App::hotkey(&key(HostKey::H, true, false, false)) == Action::Halt);
    assert!(App::hotkey(&key(HostKey::M, true, false, false)) == Action::ToggleMute);
    assert!(App::hotkey(&key(HostKey::P, true, false, false)) == Action::TogglePause);
    assert!(App::hotkey(&key(HostKey::W, true, false, false)) == Action::ToggleWarp);
    assert!(App::hotkey(&key(HostKey::F9, true, false, false)) == Action::Reset);
    assert!(App::hotkey(&key(HostKey::Return, true, false, false)) == Action::ToggleFullscreen);
    assert!(App::hotkey(&key(HostKey::F1, false, true, false)) == Action::ToggleDatassette);
}

#[test]
fn plain_and_repeated_keys_are_forwarded() {
    assert!(App::hotkey(&key(HostKey::H, false, false, false)) == Action::Forward);
    assert!(App::hotkey(&key(HostKey::H, true, false, true)) == Action::Forward);
    assert!(App::hotkey(&key(HostKey::F1, true, false, false)) == Action::Forward);
    assert!(App::hotkey(&key(HostKey::Kp8, true, false, false)) == Action::Forward);
    assert!(App::hotkey(&Event::KeyUp { keycode: Some(HostKey::Escape) }) == Action::Forward);
}

#[test]
fn run_steps_follow_state() {
    let mut app = App::new(false, JamAction::Continue);
    assert!(app.run_step() == RunStep::Start);
    assert!(app.audio_state().is_none());
    assert!(app.set_state(State::Running));
    assert!(!app.set_state(State::Running));
    assert!(app.run_step() == RunStep::RunFrame);
    assert_eq!(Some(true), app.audio_state());
    app.set_state(State::Halted);
    assert!(app.run_step() == RunStep::Debug);
    assert_eq!(Some(false), app.audio_state());
    app.set_state(State::Stopped);
    assert!(app.run_step() == RunStep::Exit);
}

#[test]
fn pause_toggles_between_running_and_paused() {
    let mut app = App::new(false, JamAction::Continue);
    assert!(!app.toggle_pause());
    assert!(app.state == State::Starting);
    app.set_state(State::Running);
    assert!(app.toggle_pause());
    assert!(app.state == State::Paused);
    assert!(app.run_step() == RunStep::Idle);
    assert!(app.toggle_pause());
    assert!(app.state == State::Running);
}

#[test]
fn warp_toggles() {
    let mut app = App::new(false, JamAction::Continue);
    app.toggle_warp();
    assert!(app.warp_mode);
    app.toggle_warp();
    assert!(!app.warp_mode);
}

#[test]
fn cpu_jam_follows_jam_action() {
    let mut app = App::new(false, JamAction::Continue);
    app.set_state(State::Running);
    assert!(app.handle_cpu_jam());
    assert!(app.state == State::Running);

    let mut app = App::new(false, JamAction::from("quit"));
    app.set_state(State::Running);
    assert!(!app.handle_cpu_jam());
    assert!(app.state == State::Stopped);

    let mut app = App::new(false, JamAction::from("reset"));
    app.set_state(State::Running);
    app.next_keyboard_event = 500;
    assert!(!app.handle_cpu_jam());
    assert!(app.state == State::Running);
    assert_eq!(0, app.next_keyboard_event);
}

#[test]
fn queued_keys_are_paced() {
    let mut app = App::new(false, JamAction::Continue);
    assert!(!app.keyboard_due(false, 100));
    assert!(app.keyboard_due(true, 100));
    assert_eq!(20100, app.next_keyboard_event);
    assert!(!app.keyboard_due(true, 20099));
    assert!(app.keyboard_due(true, 20100));
    assert_eq!(40100, app.next_keyboard_event);
    assert!(app.keyboard_due(true, u64::MAX - 5));
    assert_eq!(19994, app.next_keyboard_event);
}

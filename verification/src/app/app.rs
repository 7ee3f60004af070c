//! The emulator front end's decisions: what a hot key does, how the run
//! state moves, what a CPU jam leads to and when queued keys are typed.

use vstd::prelude::*;
use crate::app::io::{Event, HostKey};
use crate::text::str_eq;

verus! {

/// What to do when the CPU jams.
#[derive(Clone, Copy, PartialEq, Eq, Structural)]
pub enum JamAction {
    Continue,
    Quit,
    Reset,
}

/// The action a name selects, if it names one.
pub open spec fn jam_action_named(action: Seq<char>) -> Option<JamAction> {
    if action == "continue"@ {
        Some(JamAction::Continue)
    } else if action == "quit"@ {
        Some(JamAction::Quit)
    } else if action == "reset"@ {
        Some(JamAction::Reset)
    } else {
        None
    }
}

impl JamAction {
    /// The action named `action`: "continue", "quit" or "reset".
    pub fn from(action: &str) -> (r: JamAction)
        requires
            jam_action_named(action@) is Some,
        ensures
            jam_action_named(action@) == Some(r),
    {
        if str_eq(action, "continue") {
            JamAction::Continue
        } else if str_eq(action, "quit") {
            JamAction::Quit
        } else {
            JamAction::Reset
        }
    }
}

/// The emulator's run state.
#[derive(Clone, Copy, PartialEq, Eq, Structural)]
pub enum State {
    Starting,
    Running,
    Paused,
    Halted,
    Stopped,
}

/// What a host event asks of the front end.
#[derive(Clone, Copy, PartialEq, Eq, Structural)]
pub enum Action {
    /// Open the emulator's console.
    Console,
    Stop,
    Halt,
    ToggleMute,
    TogglePause,
    ToggleWarp,
    Reset,
    ToggleDatassette,
    ToggleFullscreen,
    /// Not a hot key: the event goes on to the keyboard and joysticks.
    Forward,
}

/// What one turn of the main loop does in a run state.
#[derive(Clone, Copy, PartialEq, Eq, Structural)]
pub enum RunStep {
    /// Switch to running.
    Start,
    /// Run a frame; halt if it stopped early.
    RunFrame,
    /// Show the last frame and wait.
    Idle,
    /// Serve the debugger, show the last frame and wait.
    Debug,
    /// Leave the loop.
    Exit,
}

/// The hot keys: Escape opens the console and closing the window stops; with left Alt held and
/// no key repeat, H halts, M mutes, P pauses, Q quits, W toggles warp, F9
/// resets and Return toggles full screen; left Ctrl with F1 plays or stops
/// the tape. Every other event is forwarded.
pub open spec fn hotkey_action(event: Event) -> Action {
    match event {
        Event::Quit => Action::Stop,
        Event::KeyDown { keycode: Some(key), lalt, lctrl, repeat } => {
            if key == HostKey::Escape {
                Action::Console
            } else if repeat {
                Action::Forward
            } else if lalt && key == HostKey::H {
                Action::Halt
            } else if lalt && key == HostKey::M {
                Action::ToggleMute
            } else if lalt && key == HostKey::P {
                Action::TogglePause
            } else if lalt && key == HostKey::Q {
                Action::Stop
            } else if lalt && key == HostKey::W {
                Action::ToggleWarp
            } else if lalt && key == HostKey::F9 {
                Action::Reset
            } else if lctrl && key == HostKey::F1 {
                Action::ToggleDatassette
            } else if lalt && key == HostKey::Return {
                Action::ToggleFullscreen
            } else {
                Action::Forward
            }
        },
        _ => Action::Forward,
    }
}

/// The main loop's work in each run state.
pub open spec fn run_step_of(state: State) -> RunStep {
    match state {
        State::Starting => RunStep::Start,
        State::Running => RunStep::RunFrame,
        State::Paused => RunStep::Idle,
        State::Halted => RunStep::Debug,
        State::Stopped => RunStep::Exit,
    }
}

/// Whether sound plays in a run state; `None` leaves it as it is.
pub open spec fn audio_of(state: State) -> Option<bool> {
    match state {
        State::Running => Some(true),
        State::Starting => None,
        _ => Some(false),
    }
}

/// The cycles between two typed keys of a queued string.
pub const KEYBOARD_EVENT_DELAY: u64 = 20000;

/// The front end's run state and the options its decisions read.
pub struct App {
    pub state: State,
    pub warp_mode: bool,
    pub jam_action: JamAction,
    /// The cycle count from which the next queued key may be typed.
    pub next_keyboard_event: u64,
}

impl App {
    /// A front end about to start.
    pub fn new(warp_mode: bool, jam_action: JamAction) -> (r: App)
        ensures
            r.state == State::Starting,
            r.warp_mode == warp_mode,
            r.jam_action == jam_action,
            r.next_keyboard_event == 0,
    {
        App { state: State::Starting, warp_mode, jam_action, next_keyboard_event: 0 }
    }

    /// What a host event asks for.
    pub fn hotkey(event: &Event) -> (r: Action)
        ensures
            r == hotkey_action(*event),
    {
        match *event {
            Event::Quit => Action::Stop,
            Event::KeyDown { keycode: Some(key), lalt, lctrl, repeat } => {
                if key == HostKey::Escape {
                    Action::Console
                } else if repeat {
                    Action::Forward
                } else if lalt && key == HostKey::H {
                    Action::Halt
                } else if lalt && key == HostKey::M {
                    Action::ToggleMute
                } else if lalt && key == HostKey::P {
                    Action::TogglePause
                } else if lalt && key == HostKey::Q {
                    Action::Stop
                } else if lalt && key == HostKey::W {
                    Action::ToggleWarp
                } else if lalt && key == HostKey::F9 {
                    Action::Reset
                } else if lctrl && key == HostKey::F1 {
                    Action::ToggleDatassette
                } else if lalt && key == HostKey::Return {
                    Action::ToggleFullscreen
                } else {
                    Action::Forward
                }
            },
            _ => Action::Forward,
        }
    }

    /// The main loop's work in the current state.
    pub fn run_step(&self) -> (r: RunStep)
        ensures
            r == run_step_of(self.state),
    {
        match self.state {
            State::Starting => RunStep::Start,
            State::Running => RunStep::RunFrame,
            State::Paused => RunStep::Idle,
            State::Halted => RunStep::Debug,
            State::Stopped => RunStep::Exit,
        }
    }

    /// Moves to `new_state`; the result is whether the state changed, and
    /// with it the sound (see `audio_state`).
    pub fn set_state(&mut self, new_state: State) -> (changed: bool)
        ensures
            final(self).state == new_state,
            changed == (old(self).state != new_state),
            final(self).warp_mode == old(self).warp_mode,
            final(self).jam_action == old(self).jam_action,
            final(self).next_keyboard_event == old(self).next_keyboard_event,
    {
        if self.state != new_state {
            self.state = new_state;
            true
        } else {
            false
        }
    }

    /// Whether sound plays in the current state; `None` leaves it as it is.
    pub fn audio_state(&self) -> (r: Option<bool>)
        ensures
            r == audio_of(self.state),
    {
        match self.state {
            State::Running => Some(true),
            State::Starting => None,
            _ => Some(false),
        }
    }

    /// Pauses a running emulator and resumes a paused one; any other state
    /// stays. The result is whether the state changed.
    pub fn toggle_pause(&mut self) -> (changed: bool)
        ensures
            old(self).state == State::Running ==> final(self).state == State::Paused,
            old(self).state == State::Paused ==> final(self).state == State::Running,
            old(self).state != State::Running && old(self).state != State::Paused
                ==> final(self).state == old(self).state,
            changed == (old(self).state == State::Running || old(self).state == State::Paused),
            final(self).warp_mode == old(self).warp_mode,
            final(self).jam_action == old(self).jam_action,
            final(self).next_keyboard_event == old(self).next_keyboard_event,
    {
        match self.state {
            State::Running => self.set_state(State::Paused),
            State::Paused => self.set_state(State::Running),
            _ => false,
        }
    }

    /// Turns warp mode on or off.
    pub fn toggle_warp(&mut self)
        ensures
            *final(self) == (App { warp_mode: !old(self).warp_mode, ..*old(self) }),
    {
        self.warp_mode = !self.warp_mode;
    }

    /// Forgets the pace of queued keys, as a reset does.
    pub fn reset(&mut self)
        ensures
            *final(self) == (App { next_keyboard_event: 0, ..*old(self) }),
    {
        self.next_keyboard_event = 0;
    }

    /// Reacts to a jammed CPU by the jam action: go on (the result is true),
    /// stop, or reset (the caller resets the machine).
    pub fn handle_cpu_jam(&mut self) -> (go_on: bool)
        ensures
            go_on == (old(self).jam_action == JamAction::Continue),
            old(self).jam_action == JamAction::Continue ==> *final(self) == *old(self),
            old(self).jam_action == JamAction::Quit
                ==> *final(self) == (App { state: State::Stopped, ..*old(self) }),
            old(self).jam_action == JamAction::Reset
                ==> *final(self) == (App { next_keyboard_event: 0, ..*old(self) }),
    {
        match self.jam_action {
            JamAction::Continue => true,
            JamAction::Quit => {
                self.set_state(State::Stopped);
                false
            },
            JamAction::Reset => {
                self.reset();
                false
            },
        }
    }

    /// Whether the next queued key is typed now, at `cycles`: when keys wait
    /// and the delay since the last one has passed; the next may follow
    /// `KEYBOARD_EVENT_DELAY` cycles later (wrapping).
    pub fn keyboard_due(&mut self, has_events: bool, cycles: u64) -> (due: bool)
        ensures
            due == (has_events && cycles >= old(self).next_keyboard_event),
            due ==> *final(self) == (App {
                next_keyboard_event: ((cycles + KEYBOARD_EVENT_DELAY) % 0x1_0000_0000_0000_0000) as u64,
                ..*old(self)
            }),
            !due ==> *final(self) == *old(self),
    {
        if has_events && cycles >= self.next_keyboard_event {
            self.next_keyboard_event = cycles.wrapping_add(KEYBOARD_EVENT_DELAY);
            true
        } else {
            false
        }
    }
}

} // verus!

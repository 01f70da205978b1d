//! A loop that only keeps windows: it opens one on every key press and ends
//! when the last window is closed.

use crate::event_loop::{ControlFlow, KeyState, LoopAction, LoopEvent, Reaction};
use crate::windows::{with_window, without_window, WindowSet};
use vstd::prelude::*;

verus! {

/// The pause after a window has been opened, in milliseconds.
pub const SPAWN_PAUSE_MILLIS: u32 = 100;

/// What the loop does with an event, given the windows that are open.
///
/// A window that is asked to close leaves the set, and the loop ends once the
/// set is empty. Any key that goes down opens a window. Nothing else matters.
pub open spec fn react_plainly(windows: Seq<u64>, event: LoopEvent) -> (Seq<u64>, Reaction) {
    match event {
        LoopEvent::CloseRequested { window } => (
            without_window(windows, window),
            Reaction {
                control_flow: if without_window(windows, window).len() == 0 {
                    ControlFlow::Exit
                } else {
                    ControlFlow::Wait
                },
                action: LoopAction::CloseWindow { window },
            },
        ),
        LoopEvent::KeyboardInput { state: KeyState::Pressed, .. } => (
            windows,
            Reaction {
                control_flow: ControlFlow::Wait,
                action: LoopAction::SpawnWindow { title: None, pause_millis: SPAWN_PAUSE_MILLIS },
            },
        ),
        LoopEvent::WindowOpened { window } => (
            with_window(windows, window),
            Reaction { control_flow: ControlFlow::Wait, action: LoopAction::Nothing },
        ),
        _ => (windows, Reaction { control_flow: ControlFlow::Wait, action: LoopAction::Nothing }),
    }
}

/// The state of the loop: the windows that are open.
pub struct WindowLoop {
    windows: WindowSet,
}

impl View for WindowLoop {
    type V = Seq<u64>;

    closed spec fn view(&self) -> Seq<u64> {
        self.windows@
    }
}

/// Starts the loop with one window open.
pub fn init(window: u64) -> (state: WindowLoop)
    ensures
        state@ == seq![window],
        state.wf(),
{
    let mut windows = WindowSet::new();
    windows.insert(window);
    assert(windows@ =~= seq![window]);
    WindowLoop { windows }
}

impl WindowLoop {
    /// No window is listed twice.
    pub open spec fn wf(&self) -> bool {
        self@.no_duplicates()
    }

    /// The open windows.
    pub fn windows(&self) -> (windows: &WindowSet)
        ensures
            windows@ == self@,
    {
        &self.windows
    }

    /// Takes in an event of the window system and answers what to do about
    /// it.
    pub fn pump(&mut self, event: LoopEvent) -> (reaction: Reaction)
        requires
            old(self).wf(),
        ensures
            final(self).wf(),
            final(self)@ == react_plainly(old(self)@, event).0,
            reaction == react_plainly(old(self)@, event).1,
    {
        match event {
            LoopEvent::CloseRequested { window } => {
                self.windows.remove(window);
                let control_flow = if self.windows.is_empty() {
                    ControlFlow::Exit
                } else {
                    ControlFlow::Wait
                };
                Reaction { control_flow, action: LoopAction::CloseWindow { window } }
            },
            LoopEvent::KeyboardInput { window: _, key: _, state, is_synthetic: _ } => {
                match state {
                    KeyState::Pressed => Reaction {
                        control_flow: ControlFlow::Wait,
                        action: LoopAction::SpawnWindow {
                            title: None,
                            pause_millis: SPAWN_PAUSE_MILLIS,
                        },
                    },
                    KeyState::Released => Reaction {
                        control_flow: ControlFlow::Wait,
                        action: LoopAction::Nothing,
                    },
                }
            },
            LoopEvent::WindowOpened { window } => {
                self.windows.insert(window);
                Reaction { control_flow: ControlFlow::Wait, action: LoopAction::Nothing }
            },
            _ => Reaction { control_flow: ControlFlow::Wait, action: LoopAction::Nothing },
        }
    }
}

} // verus!

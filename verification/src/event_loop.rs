//! The reaction of the engine to the events of the window system.
//!
//! [`VulkanApiObjects::init_event_loop`] turns the engine into an
//! [`EventPump`]. The embedding program hands it each event of the window
//! system and does what the [`Reaction`] says: it goes on waiting or leaves the
//! loop, and closes or opens a window, asks for a redraw, or draws.

use crate::engine::{begin_frame, plan_fits, step, EngineModel, VulkanApiObjects};
use crate::frame::{FrameAction, FrameEvent};
use crate::lifecycle::{is_teardown_of, Resource, Scope};
use crate::windows::{with_window, without_window};
use vstd::prelude::*;

verus! {

/// A key of the keyboard, as far as the engine tells keys apart.
#[derive(Clone, Copy, PartialEq, Eq, Structural, Debug)]
pub enum Key {
    N,
    Other,
}

/// Whether a key went down or came up.
#[derive(Clone, Copy, PartialEq, Eq, Structural, Debug)]
pub enum KeyState {
    Pressed,
    Released,
}

/// An event of the window system.
#[derive(Clone, Copy, PartialEq, Eq, Structural, Debug)]
pub enum LoopEvent {
    /// The user asked for the window to be closed.
    CloseRequested { window: u64 },
    /// A key changed its state. `key` is `None` where the window system does
    /// not name the key; `is_synthetic` is set where the window system made
    /// the event up.
    KeyboardInput { window: u64, key: Option<Key>, state: KeyState, is_synthetic: bool },
    /// A window that the engine asked for has been opened.
    WindowOpened { window: u64 },
    /// All pending events have been handed over.
    MainEventsCleared,
    /// A window is to be redrawn.
    RedrawRequested { window: u64 },
    /// The frame is done; `subsec_micros` is the microsecond part of the time
    /// that has passed since the loop was started.
    FrameTimed { subsec_micros: u32 },
    /// The loop is about to end.
    LoopDestroyed,
    /// Any other event.
    Other,
}

/// Whether the loop goes on.
#[derive(Clone, Copy, PartialEq, Eq, Structural, Debug)]
pub enum ControlFlow {
    /// Wait for the next event.
    Wait,
    /// Leave the loop.
    Exit,
}

/// The name a window is opened under.
#[derive(Clone, Copy, PartialEq, Eq, Structural, Debug)]
pub enum WindowTitle {
    /// The window the engine starts with.
    Origin,
    /// A window opened later on.
    Spawn,
}

impl WindowTitle {
    /// The title as text.
    pub open spec fn text(self) -> Seq<char> {
        match self {
            WindowTitle::Origin => "origin"@,
            WindowTitle::Spawn => "spawn"@,
        }
    }

    /// The title as text.
    pub fn as_str(self) -> (text: &'static str)
        ensures
            text@ == self.text(),
    {
        match self {
            WindowTitle::Origin => "origin",
            WindowTitle::Spawn => "spawn",
        }
    }
}

/// The width, in logical pixels, that windows are opened with.
pub const WINDOW_WIDTH: u32 = 800;

/// The height, in logical pixels, that windows are opened with.
pub const WINDOW_HEIGHT: u32 = 600;

/// What the embedding program is to do about an event.
#[derive(Clone, Copy, PartialEq, Eq, Structural, Debug)]
pub enum LoopAction {
    /// Nothing.
    Nothing,
    /// Close the window, if it is still open.
    CloseWindow { window: u64 },
    /// Open a window, under `title` where one is given, pause for
    /// `pause_millis` milliseconds, and report the window as opened.
    SpawnWindow { title: Option<WindowTitle>, pause_millis: u32 },
    /// Ask every open window for a redraw.
    RequestRedraw,
    /// A frame has been started: do what `first` says and keep reporting to
    /// the pump until it answers `Rest`; then report the time.
    Frame { first: FrameAction },
    /// Wait until the device is idle, then destroy everything in the order of
    /// the plan.
    ShutDown,
}

/// The answer to an event.
#[derive(Clone, Copy, PartialEq, Eq, Structural, Debug)]
pub struct Reaction {
    pub control_flow: ControlFlow,
    pub action: LoopAction,
}

/// The pump as a mathematical value: the engine, and the time that the next
/// frame is handed.
pub struct PumpModel {
    pub engine: EngineModel,
    pub delta_frame: u32,
}

/// Whether a key event asks for a new window: the key N has come up, and the
/// event is a real one.
pub open spec fn asks_for_window(key: Option<Key>, state: KeyState, is_synthetic: bool) -> bool {
    state == KeyState::Released && key == Some(Key::N) && !is_synthetic
}

/// What the pump does with an event of the window system.
///
/// - A window that is asked to close leaves the set of open windows; the loop
///   ends once the set is empty.
/// - The key N, released, opens another window.
/// - Once the pending events are cleared, every window is asked for a redraw.
/// - A request for a redraw starts a frame, which is handed the time measured
///   after the frame before.
/// - At the end of the loop everything is released.
pub open spec fn react(s: PumpModel, event: LoopEvent) -> (PumpModel, Reaction) {
    match event {
        LoopEvent::CloseRequested { window } => {
            let windows = without_window(s.engine.windows, window);
            (
                PumpModel { engine: EngineModel { windows, ..s.engine }, ..s },
                Reaction {
                    control_flow: if windows.len() == 0 {
                        ControlFlow::Exit
                    } else {
                        ControlFlow::Wait
                    },
                    action: LoopAction::CloseWindow { window },
                },
            )
        },
        LoopEvent::KeyboardInput { key, state, is_synthetic, .. } => (
            s,
            Reaction {
                control_flow: ControlFlow::Wait,
                action: if asks_for_window(key, state, is_synthetic) {
                    LoopAction::SpawnWindow { title: Some(WindowTitle::Spawn), pause_millis: 0 }
                } else {
                    LoopAction::Nothing
                },
            },
        ),
        LoopEvent::WindowOpened { window } => (
            PumpModel {
                engine: EngineModel {
                    windows: with_window(s.engine.windows, window),
                    ..s.engine
                },
                ..s
            },
            Reaction { control_flow: ControlFlow::Wait, action: LoopAction::Nothing },
        ),
        LoopEvent::MainEventsCleared => (
            s,
            Reaction { control_flow: ControlFlow::Wait, action: LoopAction::RequestRedraw },
        ),
        LoopEvent::RedrawRequested { .. } => (
            PumpModel { engine: begin_frame(s.engine, s.delta_frame).0, ..s },
            Reaction {
                control_flow: ControlFlow::Wait,
                action: LoopAction::Frame { first: begin_frame(s.engine, s.delta_frame).1 },
            },
        ),
        LoopEvent::FrameTimed { subsec_micros } => (
            PumpModel { delta_frame: subsec_micros, ..s },
            Reaction { control_flow: ControlFlow::Wait, action: LoopAction::Nothing },
        ),
        LoopEvent::LoopDestroyed => (
            PumpModel { engine: s.engine.released(), ..s },
            Reaction { control_flow: ControlFlow::Wait, action: LoopAction::ShutDown },
        ),
        LoopEvent::Other => (
            s,
            Reaction { control_flow: ControlFlow::Wait, action: LoopAction::Nothing },
        ),
    }
}

/// The engine together with the state of its event loop.
pub struct EventPump {
    objects: VulkanApiObjects,
    delta_frame: u32,
}

impl View for EventPump {
    type V = PumpModel;

    closed spec fn view(&self) -> PumpModel {
        PumpModel { engine: self.objects@, delta_frame: self.delta_frame }
    }
}

impl VulkanApiObjects {
    /// Sets the engine up for its event loop. The first frame is handed the
    /// time 0.
    pub fn init_event_loop(self) -> (pump: EventPump)
        requires
            self.wf(),
        ensures
            pump.wf(),
            pump@ == (PumpModel { engine: self@, delta_frame: 0 }),
            pump.plan_view() == self.plan_view(),
    {
        EventPump { objects: self, delta_frame: 0 }
    }
}

impl EventPump {
    /// The engine inside is well-formed.
    pub closed spec fn wf(&self) -> bool {
        self.objects.wf()
    }

    /// The plan that goes with the action last handed out.
    pub closed spec fn plan_view(&self) -> Seq<Resource> {
        self.objects.plan_view()
    }

    /// The value of a well-formed pump holds a well-formed engine.
    pub proof fn lemma_wf_value(&self)
        requires
            self.wf(),
        ensures
            self@.engine.wf(),
    {
        self.objects.lemma_wf_value();
    }

    /// The engine.
    pub fn objects(&self) -> (objects: &VulkanApiObjects)
        ensures
            objects@ == self@.engine,
            objects.wf() == self.wf(),
            objects.plan_view() == self.plan_view(),
    {
        &self.objects
    }

    /// Takes in an event of the window system and answers what to do about
    /// it.
    pub fn pump(&mut self, event: LoopEvent) -> (reaction: Reaction)
        requires
            old(self).wf(),
        ensures
            final(self).wf(),
            final(self)@ == react(old(self)@, event).0,
            reaction == react(old(self)@, event).1,
            reaction.action matches LoopAction::Frame { first } ==> plan_fits(
                old(self)@.engine.alive,
                first,
                final(self).plan_view(),
            ),
            reaction.action is ShutDown ==> is_teardown_of(
                old(self)@.engine.alive,
                Scope::Everything,
                final(self).plan_view(),
            ),
    {
        match event {
            LoopEvent::CloseRequested { window } => {
                self.objects.close_window(window);
                let control_flow = if self.objects.windows().is_empty() {
                    ControlFlow::Exit
                } else {
                    ControlFlow::Wait
                };
                Reaction { control_flow, action: LoopAction::CloseWindow { window } }
            },
            LoopEvent::KeyboardInput { window: _, key, state, is_synthetic } => {
                let wanted = match (state, key) {
                    (KeyState::Released, Some(Key::N)) => !is_synthetic,
                    _ => false,
                };
                let action = if wanted {
                    LoopAction::SpawnWindow { title: Some(WindowTitle::Spawn), pause_millis: 0 }
                } else {
                    LoopAction::Nothing
                };
                Reaction { control_flow: ControlFlow::Wait, action }
            },
            LoopEvent::WindowOpened { window } => {
                self.objects.open_window(window);
                Reaction { control_flow: ControlFlow::Wait, action: LoopAction::Nothing }
            },
            LoopEvent::MainEventsCleared => Reaction {
                control_flow: ControlFlow::Wait,
                action: LoopAction::RequestRedraw,
            },
            LoopEvent::RedrawRequested { window: _ } => {
                let first = self.objects.draw(self.delta_frame);
                Reaction { control_flow: ControlFlow::Wait, action: LoopAction::Frame { first } }
            },
            LoopEvent::FrameTimed { subsec_micros } => {
                self.delta_frame = subsec_micros;
                Reaction { control_flow: ControlFlow::Wait, action: LoopAction::Nothing }
            },
            LoopEvent::LoopDestroyed => {
                self.objects.release();
                Reaction { control_flow: ControlFlow::Wait, action: LoopAction::ShutDown }
            },
            LoopEvent::Other => Reaction {
                control_flow: ControlFlow::Wait,
                action: LoopAction::Nothing,
            },
        }
    }

    /// Takes in what the embedding program reports while it draws a frame, and
    /// answers what it is to do next.
    pub fn report(&mut self, event: FrameEvent) -> (action: FrameAction)
        requires
            old(self).wf(),
        ensures
            final(self).wf(),
            final(self)@ == (PumpModel {
                engine: step(old(self)@.engine, event).0,
                ..old(self)@
            }),
            action == step(old(self)@.engine, event).1,
            plan_fits(old(self)@.engine.alive, action, final(self).plan_view()),
    {
        self.objects.pump(event)
    }
}

/// The loop ends on a request to close a window exactly when no other window
/// is open; no other event ends it.
pub proof fn lemma_loop_ends_with_last_window(s: PumpModel, event: LoopEvent)
    requires
        s.engine.windows.no_duplicates(),
    ensures
        react(s, event).1.control_flow == ControlFlow::Exit <==> (event
            matches LoopEvent::CloseRequested { window } && forall|other: u64|
            s.engine.windows.contains(other) ==> other == window),
        react(s, event).0.engine.windows.no_duplicates(),
{
    match event {
        LoopEvent::CloseRequested { window } => {
            crate::windows::lemma_without_window(s.engine.windows, window);
            let rest = without_window(s.engine.windows, window);
            if rest.len() == 0 {
                assert forall|other: u64| s.engine.windows.contains(other) implies other
                    == window by {
                    if other != window {
                        assert(s.engine.windows.to_set().remove(window).contains(other));
                        assert(rest.to_set().contains(other));
                    }
                }
            } else {
                assert(rest.to_set().contains(rest[0]));
                assert(s.engine.windows.contains(rest[0]) && rest[0] != window);
            }
        },
        LoopEvent::WindowOpened { window } => {
            crate::windows::lemma_with_window(s.engine.windows, window);
        },
        _ => {},
    }
}

} // verus!

//! The decisions of the window shell: which state the render loop is in, and
//! what each window event asks for. The shell that owns the window performs
//! the action and keeps the accumulated input values.

use vstd::prelude::*;

verus! {

/// Where the render loop stands.
#[derive(Clone, Copy, Debug, PartialEq, Eq, Structural)]
pub enum LoopState {
    /// No graphics context yet.
    Uninitialized,
    /// Context and resources exist; no frame was drawn yet.
    Ready,
    /// Frames are being drawn.
    Rendering,
    /// The window was closed.
    Terminated,
}

/// The keys that the viewer reacts to.
#[derive(Clone, Copy, Debug, PartialEq, Eq, Structural)]
pub enum Key {
    W,
    A,
    S,
    D,
    ArrowUp,
    ArrowDown,
    ArrowLeft,
    ArrowRight,
    Escape,
    Other,
}

/// A window event, reduced to what the decisions depend on.
#[derive(Clone, Copy, Debug, PartialEq, Eq, Structural)]
pub enum Event {
    /// The application was resumed and can create its window.
    Resumed,
    CloseRequested,
    RedrawRequested,
    MouseWheel,
    CursorMoved,
    MouseButton { pressed: bool },
    Keyboard { pressed: bool, key: Key },
    Other,
}

/// What the shell is to do in answer to an event.
#[derive(Clone, Copy, Debug, PartialEq, Eq, Structural)]
pub enum Action {
    Nothing,
    /// Create the window, the graphics context and the GPU resources.
    Initialize,
    /// Leave the event loop.
    Exit,
    /// Draw one frame with the current input values, then ask for the next.
    RenderFrame,
    /// Add the scroll delta to the zoom factor.
    Zoom,
    /// Remember the cursor position; where `dragging`, first add its movement
    /// to the drag delta.
    TrackCursor { dragging: bool },
    /// Move the model by so many steps along x and y.
    MoveModel { dx: i8, dy: i8 },
    /// Turn the camera by so many steps of yaw and pitch.
    TurnCamera { yaw: i8, pitch: i8 },
}

/// The shell's own state: the loop state, and whether a mouse button is held.
#[derive(Clone, Copy, Debug, PartialEq, Eq, Structural)]
pub struct Shell {
    pub state: LoopState,
    pub pressed: bool,
}

/// What a pressed key asks for while the loop runs.
pub open spec fn key_action(key: Key) -> Action {
    match key {
        Key::W => Action::MoveModel { dx: 0, dy: 1 },
        Key::S => Action::MoveModel { dx: 0, dy: -1i8 },
        Key::A => Action::MoveModel { dx: -1i8, dy: 0 },
        Key::D => Action::MoveModel { dx: 1, dy: 0 },
        Key::ArrowUp => Action::TurnCamera { yaw: 0, pitch: 1 },
        Key::ArrowDown => Action::TurnCamera { yaw: 0, pitch: -1i8 },
        Key::ArrowLeft => Action::TurnCamera { yaw: -1i8, pitch: 0 },
        Key::ArrowRight => Action::TurnCamera { yaw: 1, pitch: 0 },
        Key::Escape => Action::Exit,
        Key::Other => Action::Nothing,
    }
}

impl Shell {
    /// The loop has its graphics context and was not closed.
    pub open spec fn running(&self) -> bool {
        self.state == LoopState::Ready || self.state == LoopState::Rendering
    }

    /// The action that an event asks for in this state.
    pub open spec fn action_for(&self, event: Event) -> Action {
        if self.state == LoopState::Terminated {
            Action::Nothing
        } else if self.state == LoopState::Uninitialized {
            match event {
                Event::Resumed => Action::Initialize,
                Event::CloseRequested => Action::Exit,
                _ => Action::Nothing,
            }
        } else {
            match event {
                Event::CloseRequested => Action::Exit,
                Event::RedrawRequested => Action::RenderFrame,
                Event::MouseWheel => Action::Zoom,
                Event::CursorMoved => Action::TrackCursor { dragging: self.pressed },
                Event::Keyboard { pressed: true, key } => key_action(key),
                _ => Action::Nothing,
            }
        }
    }

    /// The shell's state after an event.
    pub open spec fn after(&self, event: Event) -> Shell {
        let state = match self.action_for(event) {
            Action::Initialize => LoopState::Ready,
            Action::Exit => LoopState::Terminated,
            Action::RenderFrame => LoopState::Rendering,
            _ => self.state,
        };
        let pressed = match event {
            Event::MouseButton { pressed } => if self.running() {
                pressed
            } else {
                self.pressed
            },
            _ => self.pressed,
        };
        Shell { state, pressed }
    }

    /// A shell before the application is resumed, with no button held.
    pub fn new() -> (shell: Shell)
        ensures
            shell == (Shell { state: LoopState::Uninitialized, pressed: false }),
    {
        Shell { state: LoopState::Uninitialized, pressed: false }
    }

    /// Takes one window event: moves to the next state and says what to do.
    pub fn handle(&mut self, event: Event) -> (action: Action)
        ensures
            action == old(self).action_for(event),
            *final(self) == old(self).after(event),
    {
        let action = if self.state == LoopState::Terminated {
            Action::Nothing
        } else if self.state == LoopState::Uninitialized {
            match event {
                Event::Resumed => Action::Initialize,
                Event::CloseRequested => Action::Exit,
                _ => Action::Nothing,
            }
        } else {
            match event {
                Event::CloseRequested => Action::Exit,
                Event::RedrawRequested => Action::RenderFrame,
                Event::MouseWheel => Action::Zoom,
                Event::CursorMoved => Action::TrackCursor { dragging: self.pressed },
                Event::Keyboard { pressed, key } => if pressed {
                    action_of_key(key)
                } else {
                    Action::Nothing
                },
                Event::MouseButton { pressed } => {
                    self.pressed = pressed;
                    Action::Nothing
                },
                _ => Action::Nothing,
            }
        };
        match action {
            Action::Initialize => {
                self.state = LoopState::Ready;
            },
            Action::Exit => {
                self.state = LoopState::Terminated;
            },
            Action::RenderFrame => {
                self.state = LoopState::Rendering;
            },
            _ => {},
        }
        action
    }
}

/// What a pressed key asks for: `w`, `a`, `s`, `d` move the model, the arrow
/// keys turn the camera, Escape leaves.
pub fn action_of_key(key: Key) -> (action: Action)
    ensures
        action == key_action(key),
{
    match key {
        Key::W => Action::MoveModel { dx: 0, dy: 1 },
        Key::S => Action::MoveModel { dx: 0, dy: -1 },
        Key::A => Action::MoveModel { dx: -1, dy: 0 },
        Key::D => Action::MoveModel { dx: 1, dy: 0 },
        Key::ArrowUp => Action::TurnCamera { yaw: 0, pitch: 1 },
        Key::ArrowDown => Action::TurnCamera { yaw: 0, pitch: -1 },
        Key::ArrowLeft => Action::TurnCamera { yaw: -1, pitch: 0 },
        Key::ArrowRight => Action::TurnCamera { yaw: 1, pitch: 0 },
        Key::Escape => Action::Exit,
        Key::Other => Action::Nothing,
    }
}

/// A frame is drawn only while the loop has its graphics context, and the
/// loop is then rendering; a closed loop stays closed and asks for nothing.
pub proof fn lemma_loop_states(shell: Shell, event: Event)
    ensures
        shell.action_for(event) == Action::RenderFrame ==> shell.running() && shell.after(
            event,
        ).state == LoopState::Rendering,
        shell.action_for(event) == Action::Initialize ==> shell.state == LoopState::Uninitialized,
        shell.state == LoopState::Terminated ==> shell.after(event) == shell && shell.action_for(
            event,
        ) == Action::Nothing,
        shell.running() && shell.action_for(event) != Action::Exit ==> shell.after(event).running(),
{
}

/// The drag delta grows only while a button is held: a cursor movement is a
/// drag exactly when the last button event of the running loop was a press.
pub proof fn lemma_drag_follows_button(shell: Shell, pressed: bool)
    requires
        shell.running(),
    ensures
        shell.after(Event::MouseButton { pressed }).action_for(Event::CursorMoved)
            == (Action::TrackCursor { dragging: pressed }),
{
}

} // verus!

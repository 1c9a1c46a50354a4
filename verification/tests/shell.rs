use model_viewer::shell::{action_of_key, Action, Event, Key, LoopState, Shell};

fn running() -> Shell {
    let mut shell = Shell::new();
    assert_eq!(shell.handle(Event::Resumed), Action::Initialize);
    shell
}

#[test]
fn loop_goes_through_its_states() {
    let mut shell = Shell::new();
    assert_eq!(shell.state, LoopState::Uninitialized);
    assert_eq!(shell.handle(Event::RedrawRequested), Action::Nothing);
    assert_eq!(shell.state, LoopState::Uninitialized);
    assert_eq!(shell.handle(Event::Resumed), Action::Initialize);
    assert_eq!(shell.state, LoopState::Ready);
    assert_eq!(shell.handle(Event::RedrawRequested), Action::RenderFrame);
    assert_eq!(shell.state, LoopState::Rendering);
    assert_eq!(shell.handle(Event::RedrawRequested), Action::RenderFrame);
    assert_eq!(shell.state, LoopState::Rendering);
    assert_eq!(shell.handle(Event::CloseRequested), Action::Exit);
    assert_eq!(shell.state, LoopState::Terminated);
}

#[test]
fn closed_loop_asks_for_nothing() {
    let mut shell = running();
    shell.handle(Event::Keyboard { pressed: true, key: Key::Escape });
    assert_eq!(shell.state, LoopState::Terminated);
    for event in [
        Event::Resumed,
        Event::RedrawRequested,
        Event::CloseRequested,
        Event::MouseWheel,
        Event::CursorMoved,
        Event::MouseButton { pressed: true },
        Event::Keyboard { pressed: true, key: Key::W },
    ] {
        assert_eq!(shell.handle(event), Action::Nothing);
        assert_eq!(shell, Shell { state: LoopState::Terminated, pressed: false });
    }
}

#[test]
fn second_resume_does_not_initialize_again() {
    let mut shell = running();
    assert_eq!(shell.handle(Event::Resumed), Action::Nothing);
    assert_eq!(shell.state, LoopState::Ready);
}

#[test]
fn cursor_drags_only_while_a_button_is_held() {
    let mut shell = running();
    assert_eq!(shell.handle(Event::CursorMoved), Action::TrackCursor { dragging: false });
    assert_eq!(shell.handle(Event::MouseButton { pressed: true }), Action::Nothing);
    assert!(shell.pressed);
    assert_eq!(shell.handle(Event::CursorMoved), Action::TrackCursor { dragging: true });
    assert_eq!(shell.handle(Event::CursorMoved), Action::TrackCursor { dragging: true });
    assert_eq!(shell.handle(Event::MouseButton { pressed: false }), Action::Nothing);
    assert_eq!(shell.handle(Event::CursorMoved), Action::TrackCursor { dragging: false });
}

#[test]
fn scroll_asks_for_zoom() {
    let mut shell = running();
    assert_eq!(shell.handle(Event::MouseWheel), Action::Zoom);
    assert_eq!(shell.state, LoopState::Ready);
}

#[test]
fn keys_move_model_and_camera() {
    assert_eq!(action_of_key(Key::W), Action::MoveModel { dx: 0, dy: 1 });
    assert_eq!(action_of_key(Key::S), Action::MoveModel { dx: 0, dy: -1 });
    assert_eq!(action_of_key(Key::A), Action::MoveModel { dx: -1, dy: 0 });
    assert_eq!(action_of_key(Key::D), Action::MoveModel { dx: 1, dy: 0 });
    assert_eq!(action_of_key(Key::ArrowUp), Action::TurnCamera { yaw: 0, pitch: 1 });
    assert_eq!(action_of_key(Key::ArrowDown), Action::TurnCamera { yaw: 0, pitch: -1 });
    assert_eq!(action_of_key(Key::ArrowLeft), Action::TurnCamera { yaw: -1, pitch: 0 });
    assert_eq!(action_of_key(Key::ArrowRight), Action::TurnCamera { yaw: 1, pitch: 0 });
    assert_eq!(action_of_key(Key::Escape), Action::Exit);
    assert_eq!(action_of_key(Key::Other), Action::Nothing);
}

#[test]
fn released_keys_do_nothing() {
    let mut shell = running();
    assert_eq!(shell.handle(Event::Keyboard { pressed: false, key: Key::W }), Action::Nothing);
    assert_eq!(shell.handle(Event::Keyboard { pressed: false, key: Key::Escape }), Action::Nothing);
    assert_eq!(shell.state, LoopState::Ready);
    assert_eq!(
        shell.handle(Event::Keyboard { pressed: true, key: Key::D }),
        Action::MoveModel { dx: 1, dy: 0 }
    );
    assert_eq!(shell.handle(Event::Other), Action::Nothing);
}

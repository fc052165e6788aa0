use sysdash::events::{
    Event, InputBranch, InputStep, KeyInput, MouseInput, RawInput, RawPoll, input_step,
};

fn key(code: u32, is_press: bool) -> KeyInput {
    KeyInput { code, modifiers: 0, is_press }
}

#[test]
fn cancellation_stops_the_loop() {
    assert!(matches!(input_step(InputBranch::Cancelled), InputStep::Stop));
}

#[test]
fn tick_timer_emits_tick() {
    assert!(matches!(input_step(InputBranch::TickFired), InputStep::Emit(Event::Tick)));
}

#[test]
fn render_timer_emits_render() {
    assert!(matches!(input_step(InputBranch::RenderFired), InputStep::Emit(Event::Render)));
}

#[test]
fn key_press_is_forwarded() {
    let step = input_step(InputBranch::Raw(RawPoll::Input(RawInput::Key(key(13, true)))));
    match step {
        InputStep::Emit(Event::Key(k)) => {
            assert_eq!(k.code, 13);
            assert!(k.is_press);
        },
        _ => panic!("expected a key event"),
    }
}

#[test]
fn key_release_is_dropped() {
    let step = input_step(InputBranch::Raw(RawPoll::Input(RawInput::Key(key(13, false)))));
    assert!(matches!(step, InputStep::Continue));
}

#[test]
fn mouse_resize_focus_and_paste_are_forwarded() {
    let mouse = MouseInput { kind: 1, column: 3, row: 4, modifiers: 0 };
    assert!(matches!(
        input_step(InputBranch::Raw(RawPoll::Input(RawInput::Mouse(mouse)))),
        InputStep::Emit(Event::Mouse(_))
    ));
    match input_step(InputBranch::Raw(RawPoll::Input(RawInput::Resize(80, 24)))) {
        InputStep::Emit(Event::Resize(cols, rows)) => {
            assert_eq!((cols, rows), (80, 24));
        },
        _ => panic!("expected a resize event"),
    }
    assert!(matches!(
        input_step(InputBranch::Raw(RawPoll::Input(RawInput::FocusGained))),
        InputStep::Emit(Event::FocusGained)
    ));
    assert!(matches!(
        input_step(InputBranch::Raw(RawPoll::Input(RawInput::FocusLost))),
        InputStep::Emit(Event::FocusLost)
    ));
    match input_step(InputBranch::Raw(RawPoll::Input(RawInput::Paste("hi".to_owned())))) {
        InputStep::Emit(Event::Paste(text)) => assert_eq!(text, "hi"),
        _ => panic!("expected a paste event"),
    }
}

#[test]
fn decode_failure_surfaces_as_error_event() {
    assert!(matches!(
        input_step(InputBranch::Raw(RawPoll::Failed)),
        InputStep::Emit(Event::Error)
    ));
}

#[test]
fn exhausted_source_keeps_looping() {
    assert!(matches!(input_step(InputBranch::Raw(RawPoll::Exhausted)), InputStep::Continue));
}

#[test]
fn tick_before_render_within_one_producer() {
    // The tick branch serviced before the render branch enqueues Tick
    // strictly before Render.
    let branches = vec![
        InputBranch::TickFired,
        InputBranch::Raw(RawPoll::Exhausted),
        InputBranch::RenderFired,
    ];
    let mut emitted: Vec<Event> = Vec::new();
    for b in branches {
        match input_step(b) {
            InputStep::Stop => break,
            InputStep::Emit(e) => emitted.push(e),
            InputStep::Continue => (),
        }
    }
    let tick_at = emitted.iter().position(|e| matches!(e, Event::Tick)).unwrap();
    let render_at = emitted.iter().position(|e| matches!(e, Event::Render)).unwrap();
    assert!(tick_at < render_at);
}

use game_renderer::events::{
    after_frame, handle_event, FrameError, FrameOutcome, LoopAction, LoopEvent, WindowInput,
};
use game_renderer::surface::WindowSize;

fn main_window(input: WindowInput) -> LoopEvent {
    LoopEvent::Window { for_main_window: true, input }
}

#[test]
fn close_and_escape_exit() {
    assert_eq!(handle_event(main_window(WindowInput::CloseRequested)), LoopAction::Exit);
    assert_eq!(
        handle_event(main_window(WindowInput::Keyboard { pressed: true, escape: true })),
        LoopAction::Exit
    );
}

#[test]
fn other_keys_and_releases_do_nothing() {
    assert_eq!(
        handle_event(main_window(WindowInput::Keyboard { pressed: false, escape: true })),
        LoopAction::Nothing
    );
    assert_eq!(
        handle_event(main_window(WindowInput::Keyboard { pressed: true, escape: false })),
        LoopAction::Nothing
    );
    assert_eq!(handle_event(main_window(WindowInput::Other)), LoopAction::Nothing);
}

#[test]
fn resizes_resize() {
    let size = WindowSize { width: 1280, height: 720 };
    assert_eq!(handle_event(main_window(WindowInput::Resized(size))), LoopAction::Resize(size));
    let size = WindowSize { width: 2560, height: 1440 };
    assert_eq!(
        handle_event(main_window(WindowInput::ScaleFactorChanged(size))),
        LoopAction::Resize(size)
    );
}

#[test]
fn other_window_is_ignored() {
    let event = LoopEvent::Window { for_main_window: false, input: WindowInput::CloseRequested };
    assert_eq!(handle_event(event), LoopAction::Nothing);
    let event = LoopEvent::Window {
        for_main_window: false,
        input: WindowInput::Resized(WindowSize { width: 1, height: 1 }),
    };
    assert_eq!(handle_event(event), LoopAction::Nothing);
}

#[test]
fn redraw_cycle() {
    assert_eq!(handle_event(LoopEvent::RedrawRequested), LoopAction::RenderFrame);
    assert_eq!(handle_event(LoopEvent::MainEventsCleared), LoopAction::RequestRedraw);
    assert_eq!(handle_event(LoopEvent::Other), LoopAction::Nothing);
}

#[test]
fn frame_outcomes() {
    let size = WindowSize { width: 800, height: 600 };
    assert_eq!(after_frame(Ok(()), size), FrameOutcome::Presented);
    assert_eq!(after_frame(Err(FrameError::Lost), size), FrameOutcome::Recreate(size));
    assert_eq!(after_frame(Err(FrameError::OutOfMemory), size), FrameOutcome::Exit);
    assert_eq!(
        after_frame(Err(FrameError::Timeout), size),
        FrameOutcome::Report(FrameError::Timeout)
    );
    assert_eq!(
        after_frame(Err(FrameError::Outdated), size),
        FrameOutcome::Report(FrameError::Outdated)
    );
}

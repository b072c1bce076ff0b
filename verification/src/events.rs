//! The decisions of the window event loop: which action each event calls
//! for, and what follows a frame that could not be presented.

use vstd::prelude::*;
use crate::surface::WindowSize;

verus! {

/// An event that concerns one window.
#[derive(Clone, Copy, Debug, PartialEq, Eq)]
pub enum WindowInput {
    CloseRequested,
    /// A key changed state; `escape` tells whether it is the Escape key.
    Keyboard { pressed: bool, escape: bool },
    Resized(WindowSize),
    /// The scale factor changed and the window takes this inner size.
    ScaleFactorChanged(WindowSize),
    Other,
}

/// An event of the event loop.
#[derive(Clone, Copy, Debug, PartialEq, Eq)]
pub enum LoopEvent {
    /// `for_main_window` tells whether the event is for the game's window.
    Window { for_main_window: bool, input: WindowInput },
    RedrawRequested,
    MainEventsCleared,
    Other,
}

/// What the event loop does for an event.
#[derive(Clone, Copy, Debug, PartialEq, Eq)]
pub enum LoopAction {
    Nothing,
    Exit,
    /// Resize the renderer to this size.
    Resize(WindowSize),
    /// Update the camera and the systems, then render a frame.
    RenderFrame,
    RequestRedraw,
}

/// Why a frame could not be presented.
#[derive(Clone, Copy, Debug, PartialEq, Eq)]
pub enum FrameError {
    Timeout,
    Outdated,
    Lost,
    OutOfMemory,
}

/// What follows a rendered frame.
#[derive(Clone, Copy, Debug, PartialEq, Eq)]
pub enum FrameOutcome {
    Presented,
    /// The swap chain was lost: rebuild it at this size.
    Recreate(WindowSize),
    /// The device ran out of memory: leave the loop.
    Exit,
    /// Log the error; the next frame resolves it.
    Report(FrameError),
}

/// The action for each event.
pub open spec fn spec_action(event: LoopEvent) -> LoopAction {
    match event {
        LoopEvent::Window { for_main_window, input } => if !for_main_window {
            LoopAction::Nothing
        } else {
            match input {
                WindowInput::CloseRequested => LoopAction::Exit,
                WindowInput::Keyboard { pressed, escape } => if pressed && escape {
                    LoopAction::Exit
                } else {
                    LoopAction::Nothing
                },
                WindowInput::Resized(size) => LoopAction::Resize(size),
                WindowInput::ScaleFactorChanged(size) => LoopAction::Resize(size),
                WindowInput::Other => LoopAction::Nothing,
            }
        },
        LoopEvent::RedrawRequested => LoopAction::RenderFrame,
        LoopEvent::MainEventsCleared => LoopAction::RequestRedraw,
        LoopEvent::Other => LoopAction::Nothing,
    }
}

/// What follows each result of rendering, the window having had
/// `window_size` when the frame began.
pub open spec fn spec_frame_outcome(result: Result<(), FrameError>, window_size: WindowSize) -> FrameOutcome {
    match result {
        Ok(()) => FrameOutcome::Presented,
        Err(FrameError::Lost) => FrameOutcome::Recreate(window_size),
        Err(FrameError::OutOfMemory) => FrameOutcome::Exit,
        Err(e) => FrameOutcome::Report(e),
    }
}

/// Decides the action for `event`: closing the window or pressing Escape
/// exits, a resize or a change of scale factor resizes, a redraw request
/// renders, and once the loop's events are cleared a redraw is requested.
/// Events for other windows, and all other events, change nothing.
pub fn handle_event(event: LoopEvent) -> (action: LoopAction)
    ensures
        action == spec_action(event),
{
    match event {
        LoopEvent::Window { for_main_window, input } => {
            if !for_main_window {
                LoopAction::Nothing
            } else {
                match input {
                    WindowInput::CloseRequested => LoopAction::Exit,
                    WindowInput::Keyboard { pressed, escape } => {
                        if pressed && escape {
                            LoopAction::Exit
                        } else {
                            LoopAction::Nothing
                        }
                    },
                    WindowInput::Resized(size) => LoopAction::Resize(size),
                    WindowInput::ScaleFactorChanged(size) => LoopAction::Resize(size),
                    WindowInput::Other => LoopAction::Nothing,
                }
            }
        },
        LoopEvent::RedrawRequested => LoopAction::RenderFrame,
        LoopEvent::MainEventsCleared => LoopAction::RequestRedraw,
        LoopEvent::Other => LoopAction::Nothing,
    }
}

/// Decides what follows a frame: a lost swap chain is rebuilt at the size
/// the window had when the frame began, running out of memory exits, and
/// any other error is reported.
pub fn after_frame(result: Result<(), FrameError>, window_size: WindowSize) -> (outcome: FrameOutcome)
    ensures
        outcome == spec_frame_outcome(result, window_size),
{
    match result {
        Ok(()) => FrameOutcome::Presented,
        Err(FrameError::Lost) => FrameOutcome::Recreate(window_size),
        Err(FrameError::OutOfMemory) => FrameOutcome::Exit,
        Err(e) => FrameOutcome::Report(e),
    }
}

/// The loop is left only when the main window is closed or Escape is
/// pressed in it; no event that concerns another window does anything.
pub proof fn lemma_exit_only_on_request(event: LoopEvent)
    ensures
        spec_action(event) == LoopAction::Exit <==> (event == LoopEvent::Window {
            for_main_window: true,
            input: WindowInput::CloseRequested,
        } || event == LoopEvent::Window {
            for_main_window: true,
            input: WindowInput::Keyboard { pressed: true, escape: true },
        }),
        event matches LoopEvent::Window { for_main_window: false, .. } ==> spec_action(event)
            == LoopAction::Nothing,
{
}

/// A resize of the main window, by a resize or by a change of scale factor,
/// resizes the renderer to exactly the size the event carries; no other
/// event resizes.
pub proof fn lemma_resize_carries_event_size(event: LoopEvent, size: WindowSize)
    ensures
        spec_action(event) == LoopAction::Resize(size) <==> (event == LoopEvent::Window {
            for_main_window: true,
            input: WindowInput::Resized(size),
        } || event == LoopEvent::Window {
            for_main_window: true,
            input: WindowInput::ScaleFactorChanged(size),
        }),
        spec_action(
            LoopEvent::Window { for_main_window: true, input: WindowInput::Resized(size) },
        ) == LoopAction::Resize(size),
        spec_action(
            LoopEvent::Window { for_main_window: true, input: WindowInput::ScaleFactorChanged(size) },
        ) == LoopAction::Resize(size),
{
}

/// A frame is rendered only for a redraw request, and a redraw is requested
/// only once the loop's events are cleared; a key event other than pressing
/// Escape in the main window does nothing.
pub proof fn lemma_frames_only_on_redraw(event: LoopEvent, pressed: bool, escape: bool, main: bool)
    ensures
        spec_action(event) == LoopAction::RenderFrame <==> event == LoopEvent::RedrawRequested,
        spec_action(event) == LoopAction::RequestRedraw <==> event
            == LoopEvent::MainEventsCleared,
        !(main && pressed && escape) ==> spec_action(
            LoopEvent::Window {
                for_main_window: main,
                input: WindowInput::Keyboard { pressed, escape },
            },
        ) == LoopAction::Nothing,
{
}

/// A frame that was presented is reported as presented; a lost swap chain is
/// rebuilt at the size the window had when the frame began, and nothing else
/// rebuilds it; running out of memory, and only that, exits; every other
/// error is reported as itself.
pub proof fn lemma_frame_outcomes(result: Result<(), FrameError>, window_size: WindowSize, size: WindowSize, e: FrameError)
    ensures
        spec_frame_outcome(Err(FrameError::Lost), window_size) == FrameOutcome::Recreate(window_size),
        spec_frame_outcome(result, window_size) == FrameOutcome::Recreate(size) <==> (result
            == Err::<(), FrameError>(FrameError::Lost) && size == window_size),
        spec_frame_outcome(result, window_size) == FrameOutcome::Presented <==> result is Ok,
        spec_frame_outcome(result, window_size) == FrameOutcome::Exit <==> result == Err::<
            (),
            FrameError,
        >(FrameError::OutOfMemory),
        spec_frame_outcome(result, window_size) == FrameOutcome::Report(e) <==> (result == Err::<
            (),
            FrameError,
        >(e) && e != FrameError::Lost && e != FrameError::OutOfMemory),
{
}

} // verus!

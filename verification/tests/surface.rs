use game_renderer::options::PresentMode;
use game_renderer::surface::{SurfaceState, WindowSize};

#[test]
fn new_state_matches_window() {
    let size = WindowSize { width: 1920, height: 1080 };
    let state = SurfaceState::new(size, PresentMode::Fifo);
    assert_eq!(state.get_window_size(), size);
    assert_eq!(state.get_config_size(), size);
    assert_eq!(state.get_present_mode(), PresentMode::Fifo);
}

#[test]
fn resize_reads_back() {
    let mut state = SurfaceState::new(WindowSize { width: 1920, height: 1080 }, PresentMode::Mailbox);
    let new_size = WindowSize { width: 1280, height: 720 };
    state.resize(new_size);
    assert_eq!(state.get_window_size(), new_size);
    assert_eq!(state.get_config_size(), new_size);
    assert_eq!(state.get_present_mode(), PresentMode::Mailbox);
}

#[test]
fn last_resize_wins() {
    let mut state = SurfaceState::new(WindowSize { width: 10, height: 10 }, PresentMode::Immediate);
    state.resize(WindowSize { width: 300, height: 200 });
    state.resize(WindowSize { width: 0, height: 0 });
    assert_eq!(state.get_window_size(), WindowSize { width: 0, height: 0 });
    assert_eq!(state.get_config_size(), WindowSize { width: 0, height: 0 });
}

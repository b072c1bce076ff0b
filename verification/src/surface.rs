//! The size state of the renderer: the window's inner size and the swap
//! chain configuration that is made from it, which always agree.

use vstd::prelude::*;
use crate::options::PresentMode;

verus! {

/// A size in physical pixels.
#[derive(Clone, Copy, Debug, PartialEq, Eq)]
pub struct WindowSize {
    pub width: u32,
    pub height: u32,
}

/// The window size the renderer was last given, the width and height of
/// the swap chain configuration, and the configuration's presentation mode.
#[derive(Clone, Copy, Debug)]
pub struct SurfaceState {
    size: WindowSize,
    config_width: u32,
    config_height: u32,
    present_mode: PresentMode,
}

impl SurfaceState {
    /// The window size last given.
    pub closed spec fn size(self) -> WindowSize {
        self.size
    }

    /// The width and height of the swap chain configuration.
    pub closed spec fn config_size(self) -> WindowSize {
        WindowSize { width: self.config_width, height: self.config_height }
    }

    /// The presentation mode of the swap chain configuration.
    pub closed spec fn mode(self) -> PresentMode {
        self.present_mode
    }

    /// The configuration matches the window.
    pub open spec fn wf(self) -> bool {
        self.config_size() == self.size()
    }

    /// The state after a resize to `new_size`.
    pub closed spec fn resized(self, new_size: WindowSize) -> SurfaceState {
        SurfaceState {
            size: new_size,
            config_width: new_size.width,
            config_height: new_size.height,
            present_mode: self.present_mode,
        }
    }

    /// The state for a window of `size`, presenting in `present_mode`.
    pub fn new(size: WindowSize, present_mode: PresentMode) -> (state: SurfaceState)
        ensures
            state.size() == size,
            state.config_size() == size,
            state.mode() == present_mode,
    {
        SurfaceState {
            size,
            config_width: size.width,
            config_height: size.height,
            present_mode,
        }
    }

    /// Records a new window size and sets the configuration to it; the
    /// presentation mode stays.
    pub fn resize(&mut self, new_size: WindowSize)
        ensures
            *final(self) == old(self).resized(new_size),
            final(self).size() == new_size,
            final(self).config_size() == new_size,
            final(self).mode() == old(self).mode(),
    {
        self.size = new_size;
        self.config_width = new_size.width;
        self.config_height = new_size.height;
    }

    /// The window size last given.
    pub fn get_window_size(&self) -> (size: WindowSize)
        ensures
            size == self.size(),
    {
        self.size
    }

    /// The width and height of the swap chain configuration.
    pub fn get_config_size(&self) -> (size: WindowSize)
        ensures
            size == self.config_size(),
    {
        WindowSize { width: self.config_width, height: self.config_height }
    }

    /// The presentation mode of the swap chain configuration.
    pub fn get_present_mode(&self) -> (mode: PresentMode)
        ensures
            mode == self.mode(),
    {
        self.present_mode
    }
}

/// After a resize, the window size reads back as the size given, the swap
/// chain configuration agrees with it, and the presentation mode is kept.
pub proof fn lemma_resize_reads_back(state: SurfaceState, new_size: WindowSize)
    ensures
        state.resized(new_size).size() == new_size,
        state.resized(new_size).wf(),
        state.resized(new_size).mode() == state.mode(),
{
}

/// Of two resizes, the last one decides the state.
pub proof fn lemma_last_resize_wins(state: SurfaceState, first: WindowSize, second: WindowSize)
    ensures
        state.resized(first).resized(second) == state.resized(second),
{
}

} // verus!

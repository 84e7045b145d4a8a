use vstd::prelude::*;

use crate::background::{recolored, BackgroundState};
use crate::color::ONE_BITS;
use crate::input::{is_recolor_request, recolor_request, WindowEvent};

verus! {

/// Width and height of the presentation surface, in physical pixels.
#[derive(Clone, Copy, Debug, PartialEq, Eq, Structural)]
pub struct SurfaceSize {
    pub width: u32,
    pub height: u32,
}

impl SurfaceSize {
    /// A surface of zero area cannot be configured.
    pub open spec fn has_area(&self) -> bool {
        self.width > 0 && self.height > 0
    }
}

/// Why the next surface texture could not be acquired.
#[derive(Clone, Copy, Debug, PartialEq, Eq, Structural)]
pub enum SurfaceError {
    Timeout,
    Outdated,
    Lost,
    OutOfMemory,
}

/// What the event loop does after a failed frame.
#[derive(Clone, Copy, Debug, PartialEq, Eq, Structural)]
pub enum FrameAction {
    /// Configure the surface again at this size and skip the frame.
    Reconfigure(SurfaceSize),
    /// Stop the event loop.
    Exit,
    /// Report the error and skip the frame.
    Skip,
}

/// What the event loop does after a window event.
#[derive(Clone, Copy, Debug, PartialEq, Eq, Structural)]
pub enum EventAction {
    /// Nothing beyond what the state already did.
    Nothing,
    /// Configure the surface at the stored size.
    Reconfigure,
    /// Stop the event loop.
    Exit,
}

/// The action for each way a frame can fail: a lost surface is configured
/// again at the stored size, running out of memory ends the loop, and any
/// other failure skips the frame.
pub open spec fn frame_action_for(size: SurfaceSize, e: SurfaceError) -> FrameAction {
    match e {
        SurfaceError::Lost => FrameAction::Reconfigure(size),
        SurfaceError::OutOfMemory => FrameAction::Exit,
        _ => FrameAction::Skip,
    }
}

/// The frame orchestrator's own state: the surface size and the scene
/// behind the GUI.
pub struct State {
    pub window_size: SurfaceSize,
    pub background_state: BackgroundState,
}

impl State {
    pub open spec fn wf(&self) -> bool {
        self.background_state.wf()
    }

    /// The state of a window whose surface is `width` by `height`.
    pub fn new(width: u32, height: u32) -> (s: Self)
        ensures
            s.wf(),
            s.window_size == (SurfaceSize { width, height }),
            s.background_state.draws@ == 0,
            s.background_state.background_color == crate::background::initial_color(),
    {
        State {
            window_size: SurfaceSize { width, height },
            background_state: BackgroundState::new(),
        }
    }

    /// Takes the new size where it has area and tells whether the surface
    /// must be configured again; a size of zero area is ignored.
    pub fn resize(&mut self, width: u32, height: u32) -> (reconfigure: bool)
        requires
            old(self).wf(),
        ensures
            final(self).wf(),
            reconfigure == (width > 0 && height > 0),
            final(self).window_size == (if reconfigure {
                SurfaceSize { width, height }
            } else {
                old(self).window_size
            }),
            final(self).background_state == old(self).background_state,
    {
        if width > 0 && height > 0 {
            self.window_size = SurfaceSize { width, height };
            true
        } else {
            false
        }
    }

    /// Reacts to `event`, which the GUI has claimed where `gui_consumed`.
    /// An event the GUI left alone that asks for a new color draws one.
    /// Tells whether the event was consumed.
    pub fn input(&mut self, gui_consumed: bool, event: &WindowEvent) -> (consumed: bool)
        requires
            old(self).wf(),
        ensures
            final(self).wf(),
            consumed == (gui_consumed || is_recolor_request(*event)),
            final(self).window_size == old(self).window_size,
            !gui_consumed && is_recolor_request(*event) ==> {
                &&& final(self).background_state.draws@ == old(self).background_state.draws@ + 1
                &&& (final(self).background_state.background_color, final(self).background_state.rng)
                    == recolored(
                    old(self).background_state.background_color,
                    old(self).background_state.rng,
                )
            },
            gui_consumed || !is_recolor_request(*event) ==> final(self).background_state
                == old(self).background_state,
            final(self).background_state.background_color.a == ONE_BITS,
    {
        if gui_consumed {
            return true;
        }
        if recolor_request(event) {
            self.background_state.randomize_color();
            return true;
        }
        false
    }

    /// The full reaction to a window event: the input dispatch first, and,
    /// for an event nobody consumed, closing or resizing.
    pub fn handle_window_event(&mut self, gui_consumed: bool, event: &WindowEvent) -> (a: EventAction)
        requires
            old(self).wf(),
        ensures
            final(self).wf(),
            !gui_consumed && is_recolor_request(*event) ==> {
                &&& final(self).background_state.draws@ == old(self).background_state.draws@ + 1
                &&& (final(self).background_state.background_color, final(self).background_state.rng)
                    == recolored(
                    old(self).background_state.background_color,
                    old(self).background_state.rng,
                )
            },
            gui_consumed || !is_recolor_request(*event) ==> final(self).background_state
                == old(self).background_state,
            gui_consumed || is_recolor_request(*event) ==> a == EventAction::Nothing
                && final(self).window_size == old(self).window_size,
            !gui_consumed && !is_recolor_request(*event) ==> {
                match *event {
                    WindowEvent::CloseRequested => a == EventAction::Exit
                        && final(self).window_size == old(self).window_size,
                    WindowEvent::Resized { width, height }
                    | WindowEvent::ScaleFactorChanged { width, height } => if width > 0
                        && height > 0 {
                        a == EventAction::Reconfigure && final(self).window_size == (SurfaceSize {
                            width,
                            height,
                        })
                    } else {
                        a == EventAction::Nothing && final(self).window_size
                            == old(self).window_size
                    },
                    _ => a == EventAction::Nothing && final(self).window_size
                        == old(self).window_size,
                }
            },
    {
        if self.input(gui_consumed, event) {
            return EventAction::Nothing;
        }
        match *event {
            WindowEvent::CloseRequested => EventAction::Exit,
            WindowEvent::Resized { width, height }
            | WindowEvent::ScaleFactorChanged { width, height } => {
                if self.resize(width, height) {
                    EventAction::Reconfigure
                } else {
                    EventAction::Nothing
                }
            },
            _ => EventAction::Nothing,
        }
    }

    /// What to do when the next surface texture could not be acquired.
    pub fn frame_error_action(&self, e: SurfaceError) -> (a: FrameAction)
        ensures
            a == frame_action_for(self.window_size, e),
    {
        match e {
            SurfaceError::Lost => FrameAction::Reconfigure(self.window_size),
            SurfaceError::OutOfMemory => FrameAction::Exit,
            _ => FrameAction::Skip,
        }
    }
}

} // verus!

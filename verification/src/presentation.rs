//! What the presentation loop does with an event of its surface.

use vstd::prelude::*;

verus! {

/// An event of the presentation surface, as far as the loop tells them
/// apart.
#[derive(Clone, Copy, Debug, PartialEq, Eq, Structural)]
pub enum SurfaceEvent {
    CloseRequested,
    Resized,
    RedrawRequested,
    Other,
}

/// What the presentation loop does next.
#[derive(Clone, Copy, Debug, PartialEq, Eq, Structural)]
pub enum PresentAction {
    /// Leave the event loop; the coordinator then requests the stop.
    Exit,
    /// Rebuild what depends on the surface's size.
    Resize,
    /// Consume the latest snapshot and submit a frame.
    SubmitFrame,
    /// Do nothing.
    Idle,
}

/// The action for `event` on a surface of `width` by `height`. A redraw of a
/// surface without area is skipped.
pub open spec fn present_action(event: SurfaceEvent, width: u32, height: u32) -> PresentAction {
    match event {
        SurfaceEvent::CloseRequested => PresentAction::Exit,
        SurfaceEvent::Resized => PresentAction::Resize,
        SurfaceEvent::RedrawRequested => if width == 0 || height == 0 {
            PresentAction::Idle
        } else {
            PresentAction::SubmitFrame
        },
        SurfaceEvent::Other => PresentAction::Idle,
    }
}

/// Decides what the presentation loop does with `event`.
pub fn on_surface_event(event: SurfaceEvent, width: u32, height: u32) -> (r: PresentAction)
    ensures
        r == present_action(event, width, height),
{
    match event {
        SurfaceEvent::CloseRequested => PresentAction::Exit,
        SurfaceEvent::Resized => PresentAction::Resize,
        SurfaceEvent::RedrawRequested => {
            if width == 0 || height == 0 {
                PresentAction::Idle
            } else {
                PresentAction::SubmitFrame
            }
        },
        SurfaceEvent::Other => PresentAction::Idle,
    }
}

} // verus!

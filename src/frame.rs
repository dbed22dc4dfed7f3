use vstd::prelude::*;

verus! {

/// Why a frame could not be acquired from the presentation surface.
#[derive(Clone, Copy, Debug, PartialEq, Eq)]
pub enum FrameError {
    /// Acquiring the frame took too long.
    Timeout,
    /// The surface changed and no longer matches its configuration.
    Outdated,
    /// The surface was lost and has to be configured again.
    Lost,
    /// The GPU ran out of memory.
    OutOfMemory,
}

/// What the event loop does after a redraw.
#[derive(Clone, Copy, Debug, PartialEq, Eq)]
pub enum FrameAction {
    /// The frame was presented; nothing more to do.
    Continue,
    /// Configure the surface again at the given size, then go on.
    Reconfigure { width: u32, height: u32 },
    /// Report the error and skip this frame; the next redraw tries again.
    Skip,
    /// No safe continuation exists: stop the event loop.
    Exit,
}

/// Decides what follows a redraw whose frame acquisition ended in `outcome`,
/// for a window whose current inner size is `width` x `height`. A lost surface
/// is configured again at the current size; running out of GPU memory ends the
/// program; any other error skips the frame.
pub fn frame_action(outcome: Result<(), FrameError>, width: u32, height: u32) -> (r: FrameAction)
    ensures
        outcome is Ok <==> r == FrameAction::Continue,
        outcome == Err::<(), FrameError>(FrameError::Lost) <==> r == (FrameAction::Reconfigure { width, height }),
        outcome == Err::<(), FrameError>(FrameError::OutOfMemory) <==> r == FrameAction::Exit,
        outcome == Err::<(), FrameError>(FrameError::Timeout) || outcome == Err::<(), FrameError>(
            FrameError::Outdated,
        ) <==> r == FrameAction::Skip,
{
    match outcome {
        Ok(()) => FrameAction::Continue,
        Err(FrameError::Lost) => FrameAction::Reconfigure { width, height },
        Err(FrameError::OutOfMemory) => FrameAction::Exit,
        Err(FrameError::Timeout) | Err(FrameError::Outdated) => FrameAction::Skip,
    }
}

/// The size to configure the surface with after a resize to `width` x
/// `height`: none while either side is zero, since a surface cannot be
/// configured empty (the window is minimised then).
pub fn surface_extent(width: u32, height: u32) -> (r: Option<(u32, u32)>)
    ensures
        r == (if width > 0 && height > 0 { Some((width, height)) } else { None::<(u32, u32)> }),
{
    if width > 0 && height > 0 {
        Some((width, height))
    } else {
        None
    }
}

} // verus!

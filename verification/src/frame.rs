//! What one frame is drawn with, and what the window reports after it.

use vstd::prelude::*;

verus! {

/// The values behind the uniforms of one frame, as whole numbers. The
/// program that draws turns them into the floating-point uniforms of the
/// shader: the resolution as it is, the time divided by a thousand, the
/// frame index as it is.
#[derive(Debug, Clone, Copy, PartialEq, Eq)]
pub struct FrameUniforms {
    /// Width and height of the framebuffer in pixels, and a depth of one.
    pub resolution: (u32, u32, u32),
    /// Milliseconds since the process started.
    pub time_millis: u128,
    /// Number of frames drawn before this one.
    pub frame: u64,
}

impl FrameUniforms {
    /// The uniforms of frame number `frame`, drawn `elapsed_millis` after the
    /// start into a framebuffer of `width` by `height` pixels.
    pub open spec fn of(width: u32, height: u32, elapsed_millis: u128, frame: u64) -> Self {
        FrameUniforms { resolution: (width, height, 1), time_millis: elapsed_millis, frame }
    }

    /// Gathers the uniforms of one frame.
    pub fn new(width: u32, height: u32, elapsed_millis: u128, frame: u64) -> (uniforms: Self)
        ensures
            uniforms == Self::of(width, height, elapsed_millis, frame),
    {
        FrameUniforms { resolution: (width, height, 1), time_millis: elapsed_millis, frame }
    }
}

/// One event of the window system, as far as the render loop reads it.
#[derive(Debug, Clone, Copy, PartialEq, Eq)]
pub enum WindowEvent {
    /// The user asked for the window to be closed.
    CloseRequested,
    /// Any other event.
    Other,
}

/// Whether any of the events asks for the window to be closed.
pub open spec fn any_close(inputs: Seq<WindowEvent>) -> bool {
    exists|i: int| 0 <= i < inputs.len() && #[trigger] inputs[i] is CloseRequested
}

/// Looks for a close request among the events of one poll.
pub fn close_requested(inputs: &Vec<WindowEvent>) -> (close: bool)
    ensures
        close == any_close(inputs@),
{
    let mut i: usize = 0;
    while i < inputs.len()
        invariant
            i <= inputs.len(),
            forall|k: int| 0 <= k < i ==> !(#[trigger] inputs@[k] is CloseRequested),
        decreases inputs.len() - i,
    {
        match inputs[i] {
            WindowEvent::CloseRequested => {
                return true;
            },
            WindowEvent::Other => {},
        }
        i = i + 1;
    }
    false
}

} // verus!

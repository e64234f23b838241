use vstd::prelude::*;

verus! {

/// Failures of the library's own checks. (Connection, protocol, I/O and
/// codec failures belong to the caller.)
#[derive(Debug, Clone, Copy, PartialEq, Eq, Structural)]
pub enum Error {
    /// `width * height` does not fit the address space.
    DimensionsOverflow,
    /// The server sent fewer image bytes than the size calls for.
    ShortImage { got: usize, expected: usize },
    /// The pointer is on no screen.
    CursorOffScreen { x: i32, y: i32 },
    /// A frame to show has the wrong number of bytes for the window.
    FrameSize { got: usize, expected: usize },
    /// A screen index past the last screen.
    ScreenOutOfRange { index: usize },
}

} // verus!

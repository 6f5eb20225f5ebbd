//! Plain geometric values: physical sizes, cursor positions, and the
//! rational scalars used for scale factors and color channels.

use vstd::prelude::*;

verus! {

/// A physical size in pixels.
#[derive(Clone, Copy, Debug, PartialEq, Eq, Structural)]
pub struct Size {
    pub width: u32,
    pub height: u32,
}

impl Size {
    /// A size is usable as a surface configuration only when both
    /// dimensions are positive; minimizing a window on some platforms
    /// emits spurious zero-dimension sizes that must be ignored.
    pub open spec fn is_nonzero(self) -> bool {
        self.width > 0 && self.height > 0
    }

    pub fn new(width: u32, height: u32) -> (s: Size)
        ensures
            s == (Size { width, height }),
    {
        Size { width, height }
    }

    pub fn nonzero(&self) -> (b: bool)
        ensures
            b == self.is_nonzero(),
    {
        self.width > 0 && self.height > 0
    }

    /// The same extent with width and height exchanged.
    pub fn swapped(self) -> (s: Size)
        ensures
            s == (Size { width: self.height, height: self.width }),
    {
        Size { width: self.height, height: self.width }
    }
}

/// A cursor position in window-local physical pixels.
#[derive(Clone, Copy, Debug, PartialEq, Eq, Structural)]
pub struct CursorPos {
    pub x: u32,
    pub y: u32,
}

impl CursorPos {
    pub fn new(x: u32, y: u32) -> (p: CursorPos)
        ensures
            p == (CursorPos { x, y }),
    {
        CursorPos { x, y }
    }
}

/// A non-negative rational scalar, used for display-scale factors and for
/// normalized color channels, so that the core stays in exact integer
/// arithmetic; the application shell converts to floating point at the
/// GPU boundary.
#[derive(Clone, Copy, Debug, PartialEq, Eq, Structural)]
pub struct Frac {
    pub num: u32,
    pub den: u32,
}

impl Frac {
    /// A meaningful fraction never has a zero denominator.
    pub open spec fn wf(self) -> bool {
        self.den > 0
    }

    pub fn new(num: u32, den: u32) -> (f: Frac)
        requires
            den > 0,
        ensures
            f == (Frac { num, den }),
            f.wf(),
    {
        Frac { num, den }
    }

    /// The scalar one.
    pub fn one() -> (f: Frac)
        ensures
            f == (Frac { num: 1, den: 1 }),
            f.wf(),
    {
        Frac { num: 1, den: 1 }
    }
}

} // verus!

//! Clear colors as exact rationals, and the pointer-derived background
//! color used as visual feedback on cursor movement.

use vstd::prelude::*;
use crate::geom::{CursorPos, Frac, Size};

verus! {

/// An RGBA color whose channels are exact non-negative rationals.
/// The application shell divides the channels out to floating point when
/// handing the color to the GPU.
#[derive(Clone, Copy, Debug, PartialEq, Eq, Structural)]
pub struct Color {
    pub r: Frac,
    pub g: Frac,
    pub b: Frac,
    pub a: Frac,
}

impl Color {
    pub open spec fn wf(self) -> bool {
        self.r.wf() && self.g.wf() && self.b.wf() && self.a.wf()
    }

    /// Opaque black, the default clear color of a fresh window record.
    pub open spec fn spec_black() -> Color {
        Color {
            r: Frac { num: 0, den: 1 },
            g: Frac { num: 0, den: 1 },
            b: Frac { num: 0, den: 1 },
            a: Frac { num: 1, den: 1 },
        }
    }

    pub fn black() -> (c: Color)
        ensures
            c == Color::spec_black(),
            c.wf(),
    {
        Color {
            r: Frac { num: 0, den: 1 },
            g: Frac { num: 0, den: 1 },
            b: Frac { num: 0, den: 1 },
            a: Frac { num: 1, den: 1 },
        }
    }
}

/// The background color derived from a pointer position: the red channel is
/// the pointer's horizontal fraction of the window width, the green channel
/// its vertical fraction of the height, blue and alpha are one. A debugging
/// aid carried over as specified behavior, not a business rule.
pub open spec fn spec_derived_clear_color(pos: CursorPos, size: Size) -> Color {
    Color {
        r: Frac { num: pos.x, den: size.width },
        g: Frac { num: pos.y, den: size.height },
        b: Frac { num: 1, den: 1 },
        a: Frac { num: 1, den: 1 },
    }
}

pub fn derived_clear_color(pos: CursorPos, size: Size) -> (c: Color)
    requires
        size.is_nonzero(),
    ensures
        c == spec_derived_clear_color(pos, size),
        c.wf(),
{
    Color {
        r: Frac { num: pos.x, den: size.width },
        g: Frac { num: pos.y, den: size.height },
        b: Frac { num: 1, den: 1 },
        a: Frac { num: 1, den: 1 },
    }
}

} // verus!

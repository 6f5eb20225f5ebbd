//! The window record: one platform window paired with its surface binding
//! and UI session, together with the per-window state the event router
//! mutates — cursor position, clear color, occlusion, theme, input
//! modifiers.

use vstd::prelude::*;
use crate::color::Color;
use crate::geom::{CursorPos, Frac, Size};
use crate::surface::{spec_bump, PixelFormat, SurfaceBinding, SurfaceConfig};

verus! {

/// The window theme drawn with.
#[derive(Clone, Copy, Debug, PartialEq, Eq, Structural)]
pub enum Theme {
    Light,
    Dark,
}

/// Keyboard modifier state.
#[derive(Clone, Copy, Debug, PartialEq, Eq, Structural)]
pub struct Modifiers {
    pub shift: bool,
    pub ctrl: bool,
    pub alt: bool,
    pub logo: bool,
}

impl Modifiers {
    pub fn none() -> (m: Modifiers)
        ensures
            m == (Modifiers { shift: false, ctrl: false, alt: false, logo: false }),
    {
        Modifiers { shift: false, ctrl: false, alt: false, logo: false }
    }
}

/// How the cursor is confined to the window, cycled through in order.
#[derive(Clone, Copy, Debug, PartialEq, Eq, Structural)]
pub enum CursorGrab {
    Free,
    Confined,
    Locked,
}

impl CursorGrab {
    /// The next grab mode in the cycle free, confined, locked.
    pub open spec fn spec_next(self) -> CursorGrab {
        match self {
            CursorGrab::Free => CursorGrab::Confined,
            CursorGrab::Confined => CursorGrab::Locked,
            CursorGrab::Locked => CursorGrab::Free,
        }
    }

    pub fn next(self) -> (n: CursorGrab)
        ensures
            n == self.spec_next(),
    {
        match self {
            CursorGrab::Free => CursorGrab::Confined,
            CursorGrab::Confined => CursorGrab::Locked,
            CursorGrab::Locked => CursorGrab::Free,
        }
    }
}

/// A compass direction for a drag-resize of the window frame.
#[derive(Clone, Copy, Debug, PartialEq, Eq, Structural)]
pub enum ResizeDirection {
    East,
    North,
    NorthEast,
    NorthWest,
    South,
    SouthEast,
    SouthWest,
    West,
}

/// The drag-resize direction derived from a pointer position: a pointer
/// within `border` pixels of an edge resizes across that edge, a pointer
/// near a corner resizes diagonally, and a pointer in the interior starts
/// no resize.
pub open spec fn spec_resize_direction(pos: CursorPos, size: Size, border: u32) -> Option<
    ResizeDirection,
> {
    let west = pos.x < border;
    let east = !west && pos.x + border > size.width;
    let north = pos.y < border;
    let south = !north && pos.y + border > size.height;
    if west && north {
        Some(ResizeDirection::NorthWest)
    } else if west && south {
        Some(ResizeDirection::SouthWest)
    } else if west {
        Some(ResizeDirection::West)
    } else if east && north {
        Some(ResizeDirection::NorthEast)
    } else if east && south {
        Some(ResizeDirection::SouthEast)
    } else if east {
        Some(ResizeDirection::East)
    } else if south {
        Some(ResizeDirection::South)
    } else if north {
        Some(ResizeDirection::North)
    } else {
        None
    }
}

pub fn resize_direction(pos: CursorPos, size: Size, border: u32) -> (d: Option<ResizeDirection>)
    ensures
        d == spec_resize_direction(pos, size, border),
{
    let west = pos.x < border;
    let east = !west && pos.x as u64 + border as u64 > size.width as u64;
    let north = pos.y < border;
    let south = !north && pos.y as u64 + border as u64 > size.height as u64;
    if west && north {
        Some(ResizeDirection::NorthWest)
    } else if west && south {
        Some(ResizeDirection::SouthWest)
    } else if west {
        Some(ResizeDirection::West)
    } else if east && north {
        Some(ResizeDirection::NorthEast)
    } else if east && south {
        Some(ResizeDirection::SouthEast)
    } else if east {
        Some(ResizeDirection::East)
    } else if south {
        Some(ResizeDirection::South)
    } else if north {
        Some(ResizeDirection::North)
    } else {
        None
    }
}

/// The model of one window's UI session: the display-scale factor the
/// paint pass is run at. The immediate-mode platform state and the
/// monotonic start-time reference live with the UI collaborator in the
/// application shell.
#[derive(Clone, Copy, Debug)]
pub struct UiSession {
    pub scale: Frac,
}

impl UiSession {
    pub open spec fn wf(self) -> bool {
        self.scale.wf()
    }

    pub fn new(scale: Frac) -> (u: UiSession)
        requires
            scale.wf(),
        ensures
            u == (UiSession { scale }),
            u.wf(),
    {
        UiSession { scale }
    }
}

/// One open window: its identity, its surface binding, its UI session,
/// and the windowed state the event router mutates. The record owns its
/// surface binding, and the application shell must drop that binding
/// before the platform window handle it was created from is disposed.
#[derive(Clone, Copy, Debug)]
pub struct WindowRecord {
    /// The platform window identity; the registry key.
    pub id: u64,
    /// The current physical size; always the size of the applied surface
    /// configuration.
    pub size: Size,
    /// The GPU surface bound to this window.
    pub binding: SurfaceBinding,
    /// The UI session living exactly as long as this record.
    pub ui: UiSession,
    /// The background clear color for frames without UI output.
    pub clear_color: Color,
    /// The last known pointer position; absent when the cursor has left
    /// the window.
    pub cursor: Option<CursorPos>,
    /// Whether the platform reports the window fully hidden.
    pub occluded: bool,
    /// The theme drawn with.
    pub theme: Theme,
    /// Whether IME input is allowed.
    pub ime: bool,
    /// Whether the cursor is hidden over this window.
    pub cursor_hidden: bool,
    /// The current cursor grab mode.
    pub cursor_grab: CursorGrab,
    /// The current keyboard modifier state.
    pub modifiers: Modifiers,
}

impl WindowRecord {
    /// The record's invariant: the tracked size is never zero and always
    /// agrees with the applied surface configuration.
    pub open spec fn wf(self) -> bool {
        &&& self.binding.wf()
        &&& self.ui.wf()
        &&& self.clear_color.wf()
        &&& self.size.is_nonzero()
        &&& self.size == self.binding.config.spec_size()
    }

    /// Creates the record for a freshly opened window: its surface starts
    /// configured at the window's initial size, the clear color is black,
    /// IME is allowed out of the box, and nothing is occluded or grabbed.
    pub fn new(id: u64, size: Size, format: PixelFormat, scale: Frac, theme: Theme) -> (r:
        WindowRecord)
        requires
            size.is_nonzero(),
            scale.wf(),
        ensures
            r == (WindowRecord {
                id,
                size,
                binding: SurfaceBinding {
                    config: SurfaceConfig {
                        format,
                        width: size.width,
                        height: size.height,
                        present_mode: crate::surface::PresentMode::Fifo,
                        alpha_mode: crate::surface::AlphaMode::Opaque,
                        max_frame_latency: crate::surface::DEFAULT_FRAME_LATENCY,
                    },
                    lost: false,
                    reconfigure_count: 1,
                    submission_count: 0,
                    present_count: 0,
                },
                ui: UiSession { scale },
                clear_color: Color::spec_black(),
                cursor: None,
                occluded: false,
                theme,
                ime: true,
                cursor_hidden: false,
                cursor_grab: CursorGrab::Free,
                modifiers: Modifiers { shift: false, ctrl: false, alt: false, logo: false },
            }),
            r.wf(),
    {
        let config = SurfaceConfig::initial(format, size);
        WindowRecord {
            id,
            size,
            binding: SurfaceBinding::new(config),
            ui: UiSession::new(scale),
            clear_color: Color::black(),
            cursor: None,
            occluded: false,
            theme,
            ime: true,
            cursor_hidden: false,
            cursor_grab: CursorGrab::Free,
            modifiers: Modifiers::none(),
        }
    }

    /// Stores a new clear color; observable only on the next frame.
    pub fn set_clear_color(&mut self, color: Color)
        requires
            color.wf(),
        ensures
            *final(self) == (WindowRecord { clear_color: color, ..*old(self) }),
    {
        self.clear_color = color;
    }

    /// Stores the last known pointer position. Returns the position to
    /// hint the IME composition area with, if IME input is allowed.
    pub fn cursor_moved(&mut self, pos: CursorPos) -> (hint: Option<CursorPos>)
        ensures
            *final(self) == (WindowRecord { cursor: Some(pos), ..*old(self) }),
            hint == if old(self).ime {
                Some(pos)
            } else {
                None::<CursorPos>
            },
    {
        self.cursor = Some(pos);
        if self.ime {
            Some(pos)
        } else {
            None
        }
    }

    /// Forgets the pointer position when the cursor leaves the window.
    pub fn cursor_left(&mut self)
        ensures
            *final(self) == (WindowRecord { cursor: None, ..*old(self) }),
    {
        self.cursor = None;
    }

    /// The full effect of a resize request: with both dimensions positive
    /// the surface is reconfigured and the tracked size follows; a zero
    /// dimension leaves the record untouched.
    pub open spec fn spec_resize(self, new_size: Size) -> WindowRecord {
        if new_size.is_nonzero() {
            WindowRecord {
                size: new_size,
                binding: self.binding.spec_configure(new_size),
                ..self
            }
        } else {
            self
        }
    }

    /// Applies a resize event. Returns whether a redraw must be requested,
    /// which is exactly when the new size was applied.
    pub fn resize(&mut self, new_size: Size) -> (redraw: bool)
        requires
            old(self).wf(),
        ensures
            *final(self) == old(self).spec_resize(new_size),
            final(self).wf(),
            redraw == new_size.is_nonzero(),
    {
        if new_size.nonzero() {
            self.binding.configure(new_size);
            self.size = new_size;
            true
        } else {
            false
        }
    }

    /// Records the platform's occlusion report. Returns whether a redraw
    /// must be requested, which is exactly when the window became visible
    /// again.
    pub fn set_occluded(&mut self, occluded: bool) -> (redraw: bool)
        ensures
            *final(self) == (WindowRecord { occluded, ..*old(self) }),
            redraw == !occluded,
    {
        self.occluded = occluded;
        !occluded
    }

    /// Changes the theme and asks for a redraw to repaint in it.
    pub fn set_theme(&mut self, theme: Theme) -> (redraw: bool)
        ensures
            *final(self) == (WindowRecord { theme, ..*old(self) }),
            redraw,
    {
        self.theme = theme;
        true
    }

    /// Forwards a new display-scale factor into the UI session.
    pub fn set_scale_factor(&mut self, scale: Frac)
        requires
            scale.wf(),
        ensures
            *final(self) == (WindowRecord { ui: UiSession { scale }, ..*old(self) }),
            final(self).ui.wf(),
    {
        self.ui.scale = scale;
    }

    /// Stores the keyboard modifier state.
    pub fn set_modifiers(&mut self, modifiers: Modifiers)
        ensures
            *final(self) == (WindowRecord { modifiers, ..*old(self) }),
    {
        self.modifiers = modifiers;
    }

    /// Toggles whether IME input is allowed. Returns the position to hint
    /// the IME composition area with, when IME became allowed and the
    /// cursor is over the window.
    pub fn toggle_ime(&mut self) -> (hint: Option<CursorPos>)
        ensures
            *final(self) == (WindowRecord { ime: !old(self).ime, ..*old(self) }),
            hint == if !old(self).ime {
                old(self).cursor
            } else {
                None::<CursorPos>
            },
    {
        self.ime = !self.ime;
        if self.ime {
            self.cursor
        } else {
            None
        }
    }

    /// Toggles cursor visibility over this window. Returns whether the
    /// cursor is now visible.
    pub fn toggle_cursor_visibility(&mut self) -> (visible: bool)
        ensures
            *final(self) == (WindowRecord { cursor_hidden: !old(self).cursor_hidden, ..*old(self) }),
            visible == !final(self).cursor_hidden,
    {
        self.cursor_hidden = !self.cursor_hidden;
        !self.cursor_hidden
    }

    /// Advances the cursor grab mode through its cycle. Returns the new
    /// mode for the platform call.
    pub fn cycle_cursor_grab(&mut self) -> (mode: CursorGrab)
        ensures
            *final(self) == (WindowRecord {
                cursor_grab: old(self).cursor_grab.spec_next(),
                ..*old(self)
            }),
            mode == final(self).cursor_grab,
    {
        self.cursor_grab = self.cursor_grab.next();
        self.cursor_grab
    }

    /// Where to open the window menu: at the pointer, if it is over the
    /// window.
    pub fn menu_position(&self) -> (p: Option<CursorPos>)
        ensures
            p == self.cursor,
    {
        self.cursor
    }

    /// Whether a draw call may proceed to the GPU. While the window is
    /// occluded this is false and the caller must not touch the GPU
    /// queue; the record itself is never changed by asking.
    pub fn draw(&self) -> (proceed: bool)
        ensures
            proceed == !self.occluded,
    {
        !self.occluded
    }

    /// The drag-resize border width in physical pixels: twenty logical
    /// points scaled by the display-scale factor, rounded down.
    pub fn drag_border(&self) -> (b: u32)
        requires
            self.ui.wf(),
            20 * self.ui.scale.num / (self.ui.scale.den as int) <= u32::MAX,
        ensures
            b == 20 * self.ui.scale.num / (self.ui.scale.den as int),
    {
        let v: u64 = 20u64 * (self.ui.scale.num as u64) / (self.ui.scale.den as u64);
        v as u32
    }

    /// The drag-resize direction for the current pointer position, or
    /// nothing when the cursor is outside the window or in its interior.
    pub fn drag_resize_target(&self, border: u32) -> (d: Option<ResizeDirection>)
        ensures
            d == match self.cursor {
                Some(pos) => spec_resize_direction(pos, self.size, border),
                None => None::<ResizeDirection>,
            },
    {
        match self.cursor {
            Some(pos) => resize_direction(pos, self.size, border),
            None => None,
        }
    }

    /// Applies the platform's reply to a requested inner-size change, as
    /// after swapping the window's dimensions: an unchanged size was
    /// ignored by the platform, an absent reply means the change is still
    /// pending, and a new size resizes the record. Returns whether a
    /// redraw must be requested.
    pub fn apply_inner_size_reply(&mut self, reply: Option<Size>) -> (redraw: bool)
        requires
            old(self).wf(),
        ensures
            final(self).wf(),
            match reply {
                Some(ns) => if ns == old(self).size {
                    *final(self) == *old(self) && !redraw
                } else {
                    *final(self) == old(self).spec_resize(ns) && redraw == ns.is_nonzero()
                },
                None => *final(self) == *old(self) && !redraw,
            },
    {
        match reply {
            Some(ns) => {
                if ns.width == self.size.width && ns.height == self.size.height {
                    false
                } else {
                    self.resize(ns)
                }
            },
            None => false,
        }
    }

    /// The effect of recovering from a lost surface: the configuration is
    /// reapplied to the device at the last known size.
    pub open spec fn spec_restore(self) -> WindowRecord {
        WindowRecord {
            binding: (SurfaceBinding { lost: true, ..self.binding }).spec_configure(self.size),
            ..self
        }
    }

    /// Reconfigures the surface at the last known size after acquisition
    /// reported it lost.
    pub fn restore_after_loss(&mut self)
        requires
            old(self).wf(),
        ensures
            *final(self) == old(self).spec_restore(),
            final(self).wf(),
    {
        self.binding.mark_lost();
        let size = self.size;
        self.binding.configure(size);
    }
}

/// A resize request with a zero dimension never changes the record: the
/// prior valid configuration is retained.
pub proof fn lemma_resize_zero_noop(r: WindowRecord, size: Size)
    requires
        !size.is_nonzero(),
    ensures
        r.spec_resize(size) == r,
{
}

/// Recovering from a lost surface reapplies the configuration the record
/// already had: the configuration and size are unchanged, one more
/// reconfiguration has reached the device, and the surface is no longer
/// marked lost. No termination is involved.
pub proof fn lemma_restore_reapplies_config(r: WindowRecord)
    requires
        r.wf(),
    ensures
        r.spec_restore().binding.config == r.binding.config,
        r.spec_restore().binding.reconfigure_count == spec_bump(r.binding.reconfigure_count),
        !r.spec_restore().binding.lost,
        r.spec_restore().size == r.size,
        r.spec_restore().wf(),
{
}

} // verus!

//! The surface binding: one presentation surface bound to a GPU device and
//! queue, modeled by its configuration and its observable operation
//! counters. The binding enforces the validity invariant that an applied
//! configuration never has a zero dimension, and that reconfiguring with
//! the current size is a no-op.

use vstd::prelude::*;
use crate::geom::Size;

verus! {

/// The default bound on frames queued ahead of presentation.
pub const DEFAULT_FRAME_LATENCY: u32 = 2;

/// Pixel formats a surface may present in. Formats outside the common
/// 8-bit-per-channel set are classified only by their color space, which is
/// all the format selection depends on.
#[derive(Clone, Copy, Debug, PartialEq, Eq, Structural)]
pub enum PixelFormat {
    Bgra8UnormSrgb,
    Rgba8UnormSrgb,
    Bgra8Unorm,
    Rgba8Unorm,
    OtherSrgb,
    OtherLinear,
}

impl PixelFormat {
    pub open spec fn spec_is_srgb(self) -> bool {
        self is Bgra8UnormSrgb || self is Rgba8UnormSrgb || self is OtherSrgb
    }

    pub fn is_srgb(&self) -> (b: bool)
        ensures
            b == self.spec_is_srgb(),
    {
        match self {
            PixelFormat::Bgra8UnormSrgb => true,
            PixelFormat::Rgba8UnormSrgb => true,
            PixelFormat::OtherSrgb => true,
            _ => false,
        }
    }
}

/// Selects the pixel format for a new surface from the formats the adapter
/// offers, in the order it offers them: the first sRGB format if any,
/// otherwise the first format. Returns the index into `formats`.
pub fn choose_format(formats: &Vec<PixelFormat>) -> (i: usize)
    requires
        formats@.len() > 0,
    ensures
        i < formats@.len(),
        (exists|j: int| 0 <= j < formats@.len() && formats@[j].spec_is_srgb()) ==> {
            &&& formats@[i as int].spec_is_srgb()
            &&& forall|j: int| 0 <= j < i ==> !formats@[j].spec_is_srgb()
        },
        (forall|j: int| 0 <= j < formats@.len() ==> !formats@[j].spec_is_srgb()) ==> i == 0,
{
    let mut k: usize = 0;
    while k < formats.len()
        invariant
            k <= formats@.len(),
            forall|j: int| 0 <= j < k ==> !formats@[j].spec_is_srgb(),
        decreases formats@.len() - k,
    {
        if formats[k].is_srgb() {
            return k;
        }
        k = k + 1;
    }
    0
}

/// How presentation of finished frames is paced.
#[derive(Clone, Copy, Debug, PartialEq, Eq, Structural)]
pub enum PresentMode {
    Fifo,
    FifoRelaxed,
    Immediate,
    Mailbox,
}

/// How the surface's alpha channel is composited.
#[derive(Clone, Copy, Debug, PartialEq, Eq, Structural)]
pub enum AlphaMode {
    Opaque,
    PreMultiplied,
    PostMultiplied,
    Inherit,
}

/// Why acquiring a presentable target failed. Everything but
/// `OutOfMemory` is transient: the caller reconfigures or simply retries
/// on the next redraw tick. `OutOfMemory` is fatal and propagates to
/// process shutdown.
#[derive(Clone, Copy, Debug, PartialEq, Eq, Structural)]
pub enum SurfaceError {
    Lost,
    Outdated,
    Timeout,
    OutOfMemory,
}

impl SurfaceError {
    pub open spec fn spec_is_fatal(self) -> bool {
        self is OutOfMemory
    }

    pub fn is_fatal(&self) -> (b: bool)
        ensures
            b == self.spec_is_fatal(),
    {
        match self {
            SurfaceError::OutOfMemory => true,
            _ => false,
        }
    }

    pub open spec fn spec_is_transient(self) -> bool {
        !self.spec_is_fatal()
    }

    pub fn is_transient(&self) -> (b: bool)
        ensures
            b == self.spec_is_transient(),
    {
        !self.is_fatal()
    }
}

/// A surface configuration. Valid only with both dimensions positive; a
/// configuration with a zero dimension is never applied.
#[derive(Clone, Copy, Debug, PartialEq, Eq, Structural)]
pub struct SurfaceConfig {
    pub format: PixelFormat,
    pub width: u32,
    pub height: u32,
    pub present_mode: PresentMode,
    pub alpha_mode: AlphaMode,
    pub max_frame_latency: u32,
}

impl SurfaceConfig {
    pub open spec fn wf(self) -> bool {
        self.width > 0 && self.height > 0
    }

    pub open spec fn spec_size(self) -> Size {
        Size { width: self.width, height: self.height }
    }

    /// The configuration a fresh surface starts with: presentation paced
    /// to the display, opaque compositing, and the default frame-latency
    /// bound.
    pub fn initial(format: PixelFormat, size: Size) -> (c: SurfaceConfig)
        requires
            size.is_nonzero(),
        ensures
            c == (SurfaceConfig {
                format,
                width: size.width,
                height: size.height,
                present_mode: PresentMode::Fifo,
                alpha_mode: AlphaMode::Opaque,
                max_frame_latency: DEFAULT_FRAME_LATENCY,
            }),
            c.wf(),
    {
        SurfaceConfig {
            format,
            width: size.width,
            height: size.height,
            present_mode: PresentMode::Fifo,
            alpha_mode: AlphaMode::Opaque,
            max_frame_latency: DEFAULT_FRAME_LATENCY,
        }
    }
}

/// One step of an operation counter. The counters only ever advance one
/// step per platform event, so saturation is unreachable in practice; it
/// keeps the operations total.
pub open spec fn spec_bump(c: u64) -> u64 {
    if c < u64::MAX {
        (c + 1) as u64
    } else {
        c
    }
}

pub(crate) fn bump(c: u64) -> (r: u64)
    ensures
        r == spec_bump(c),
{
    if c < u64::MAX {
        c + 1
    } else {
        c
    }
}

/// The model of one window's surface bound to its GPU device and queue:
/// the applied configuration, whether the surface's backing was reported
/// lost, and counters for the observable GPU operations performed through
/// it.
#[derive(Clone, Copy, Debug)]
pub struct SurfaceBinding {
    /// The currently applied configuration.
    pub config: SurfaceConfig,
    /// Set when acquisition reported the surface lost; the next
    /// reconfiguration must reapply the configuration even at an
    /// unchanged size.
    pub lost: bool,
    /// How many configurations have been applied to the device.
    pub reconfigure_count: u64,
    /// How many command submissions reached the queue.
    pub submission_count: u64,
    /// How many frames were handed to the compositor.
    pub present_count: u64,
}

impl SurfaceBinding {
    pub open spec fn wf(self) -> bool {
        self.config.wf()
    }

    /// A new binding starts configured: surface creation applies its
    /// initial configuration once.
    pub fn new(config: SurfaceConfig) -> (b: SurfaceBinding)
        requires
            config.wf(),
        ensures
            b == (SurfaceBinding {
                config,
                lost: false,
                reconfigure_count: 1,
                submission_count: 0,
                present_count: 0,
            }),
            b.wf(),
    {
        SurfaceBinding {
            config,
            lost: false,
            reconfigure_count: 1,
            submission_count: 0,
            present_count: 0,
        }
    }

    /// Whether a `configure` request actually reaches the device: both
    /// dimensions must be positive, and either the size changes or the
    /// surface was lost and needs its configuration reapplied.
    pub open spec fn spec_applies(self, size: Size) -> bool {
        &&& size.is_nonzero()
        &&& (self.lost || size.width != self.config.width || size.height != self.config.height)
    }

    /// The full effect of a `configure` request.
    pub open spec fn spec_configure(self, size: Size) -> SurfaceBinding {
        if self.spec_applies(size) {
            SurfaceBinding {
                config: SurfaceConfig {
                    width: size.width,
                    height: size.height,
                    ..self.config
                },
                lost: false,
                reconfigure_count: spec_bump(self.reconfigure_count),
                ..self
            }
        } else {
            self
        }
    }

    /// Applies a new size to the surface. A request with a zero dimension
    /// is a no-op that retains the prior valid configuration; a request
    /// with the current size is a no-op unless the surface was lost.
    pub fn configure(&mut self, size: Size)
        requires
            old(self).wf(),
        ensures
            *final(self) == old(self).spec_configure(size),
            final(self).wf(),
    {
        if size.nonzero() && (self.lost || size.width != self.config.width
            || size.height != self.config.height) {
            self.config.width = size.width;
            self.config.height = size.height;
            self.lost = false;
            self.reconfigure_count = bump(self.reconfigure_count);
        }
    }

    /// Records that acquisition reported the surface lost.
    pub fn mark_lost(&mut self)
        ensures
            *final(self) == (SurfaceBinding { lost: true, ..*old(self) }),
    {
        self.lost = true;
    }
}

/// A request with a zero dimension never changes the binding.
pub proof fn lemma_configure_zero_noop(b: SurfaceBinding, size: Size)
    requires
        !size.is_nonzero(),
    ensures
        b.spec_configure(size) == b,
{
}

/// Reconfiguring to a size and then to the same size again leaves the
/// configuration as after the first request and applies no further
/// reconfiguration to the device.
pub proof fn lemma_configure_idempotent(b: SurfaceBinding, size: Size)
    requires
        b.wf(),
    ensures
        b.spec_configure(size).spec_configure(size) == b.spec_configure(size),
{
}

} // verus!

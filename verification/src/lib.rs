//! A multi-window graphics-surface lifecycle manager.
//!
//! The crate models, as verified state machines over plain values, the core
//! of a windowed GPU application: per-window surface configurations with
//! their validity invariants, a registry of window records with a focus
//! pointer, an event router that dispatches platform events, and the
//! per-frame presentation protocol. The platform event source, the GPU and
//! the immediate-mode UI layer are external collaborators driven by the
//! accompanying application shell, which performs the actions this library
//! decides on and reports their outcomes back.

use vstd::prelude::*;

pub mod color;
pub mod frame;
pub mod geom;
pub mod record;
pub mod registry;
pub mod router;
pub mod surface;

verus! {

} // verus!

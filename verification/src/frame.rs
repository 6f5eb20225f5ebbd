//! The per-frame presentation protocol. A frame pass walks a fixed
//! sequence of stages: the texture delta's additions are uploaded before
//! the paint commands execute, the commands are submitted and the frame
//! presented, and only then are the delta's removed images freed —
//! removing earlier would invalidate textures the just-recorded commands
//! reference, and removing is mandatory before the next frame can reuse
//! the same identifiers. Each stage can be entered exactly once per
//! pass.

use vstd::prelude::*;
use crate::surface::{spec_bump, SurfaceBinding};

verus! {

/// How far a frame pass has progressed.
#[derive(Clone, Copy, Debug, PartialEq, Eq, Structural)]
pub enum FrameStage {
    /// A presentable target was acquired from the surface.
    Acquired,
    /// The texture delta's added images are uploaded.
    TexturesAdded,
    /// The paint commands are recorded against the target.
    Painted,
    /// The recorded commands are submitted to the queue.
    Submitted,
    /// The frame is handed to the compositor.
    Presented,
    /// The texture delta's removed images are freed; the pass is over.
    Completed,
}

/// One drive of the presentation protocol for one acquired target.
#[derive(Clone, Copy, Debug)]
pub struct FramePass {
    pub stage: FrameStage,
}

impl FramePass {
    pub open spec fn is_complete(self) -> bool {
        self.stage is Completed
    }

    /// Starts a pass for a target just acquired from the surface.
    pub fn begin() -> (p: FramePass)
        ensures
            p.stage == FrameStage::Acquired,
    {
        FramePass { stage: FrameStage::Acquired }
    }

    /// Uploads the images the texture delta adds; must precede painting.
    pub fn add_textures(&mut self)
        requires
            old(self).stage == FrameStage::Acquired,
        ensures
            final(self).stage == FrameStage::TexturesAdded,
    {
        self.stage = FrameStage::TexturesAdded;
    }

    /// Executes the paint commands against the target, with black as the
    /// render-pass clear default.
    pub fn execute_paint(&mut self)
        requires
            old(self).stage == FrameStage::TexturesAdded,
        ensures
            final(self).stage == FrameStage::Painted,
    {
        self.stage = FrameStage::Painted;
    }

    /// Submits the recorded commands to the binding's queue; the one
    /// point in a pass where a GPU submission happens.
    pub fn submit(&mut self, binding: &mut SurfaceBinding)
        requires
            old(self).stage == FrameStage::Painted,
        ensures
            final(self).stage == FrameStage::Submitted,
            *final(binding) == (SurfaceBinding {
                submission_count: spec_bump(old(binding).submission_count),
                ..*old(binding)
            }),
    {
        self.stage = FrameStage::Submitted;
        binding.submission_count = crate::surface::bump(binding.submission_count);
    }

    /// Hands the finished frame to the compositor.
    pub fn present(&mut self, binding: &mut SurfaceBinding)
        requires
            old(self).stage == FrameStage::Submitted,
        ensures
            final(self).stage == FrameStage::Presented,
            *final(binding) == (SurfaceBinding {
                present_count: spec_bump(old(binding).present_count),
                ..*old(binding)
            }),
    {
        self.stage = FrameStage::Presented;
        binding.present_count = crate::surface::bump(binding.present_count);
    }

    /// Frees the images the texture delta removed; legal only after the
    /// frame was presented, and ends the pass.
    pub fn remove_textures(&mut self)
        requires
            old(self).stage == FrameStage::Presented,
        ensures
            final(self).stage == FrameStage::Completed,
            final(self).is_complete(),
    {
        self.stage = FrameStage::Completed;
    }
}

} // verus!

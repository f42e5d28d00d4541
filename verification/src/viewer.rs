//! Presentation-surface lifecycle: initial configuration, resize, and
//! recovery from surface errors.
//!
//! The viewer here is the decision half of the renderer: it owns the surface
//! dimensions, the chosen format and the lifecycle phase, and it says what
//! the host that owns the real GPU handles must do after each frame. The
//! host performs the GPU calls and feeds their outcomes back in.

use vstd::prelude::*;

verus! {

use crate::camera::InputEvent;

/// Vertex count of the full-screen triangle that covers the viewport.
pub const FULL_SCREEN_TRIANGLE_VERTICES: u32 = 3;

/// What the surface reports about one of the texture formats it supports:
/// whether the format is sRGB-encoded. The position in the capability list
/// identifies the format itself to the host.
#[derive(Clone, Copy, Debug, PartialEq, Eq, Structural)]
pub struct FormatInfo {
    pub srgb: bool,
}

/// Pick the surface format: the first sRGB-capable entry of the capability
/// list, or the first entry when none is sRGB-capable.
pub fn select_format_index(formats: &Vec<FormatInfo>) -> (i: usize)
    requires
        formats@.len() > 0,
    ensures
        i < formats@.len(),
        formats@[i as int].srgb ==> forall|j: int| 0 <= j < i ==> !formats@[j].srgb,
        !formats@[i as int].srgb ==> i == 0 && (forall|j: int|
            0 <= j < formats@.len() ==> !formats@[j].srgb),
{
    let mut k: usize = 0;
    while k < formats.len()
        invariant
            k <= formats@.len(),
            forall|j: int| 0 <= j < k ==> !formats@[j].srgb,
        decreases formats@.len() - k,
    {
        if formats[k].srgb {
            return k;
        }
        k = k + 1;
    }
    0
}

/// Pixel dimensions of the drawable area.
#[derive(Clone, Copy, Debug, PartialEq, Eq, Structural)]
pub struct SurfaceSize {
    pub width: u32,
    pub height: u32,
}

/// The part of the surface configuration the viewer decides: dimensions and
/// the chosen format. The format is fixed at construction; only the
/// dimensions ever change afterwards.
#[derive(Clone, Copy, Debug, PartialEq, Eq, Structural)]
pub struct SurfaceConfig {
    pub width: u32,
    pub height: u32,
    pub format: FormatInfo,
}

/// Lifecycle phase of the renderer.
#[derive(Clone, Copy, Debug, PartialEq, Eq, Structural)]
pub enum Phase {
    /// Configured and able to render.
    Ready,
    /// The surface was lost; it must be reconfigured before the next frame.
    Lost,
    /// An unrecoverable resource error; the host must shut down.
    Fatal,
}

/// The error classes a frame presentation can report.
#[derive(Clone, Copy, Debug, PartialEq, Eq, Structural)]
pub enum SurfaceError {
    /// The surface was lost and needs reconfiguration.
    Lost,
    /// The surface no longer matches the window; the next frame resolves it.
    Outdated,
    /// The system is out of memory; rendering cannot continue.
    OutOfMemory,
    /// Acquiring a frame timed out; the next frame resolves it.
    Timeout,
}

/// What the host loop must do after a frame outcome.
#[derive(Clone, Copy, Debug, PartialEq, Eq, Structural)]
pub enum HostAction {
    /// The frame was presented; carry on.
    Proceed,
    /// A transient error; log it and try again on the next tick.
    Retry,
    /// Reconfigure the surface at the current size, then carry on.
    Reconfigure,
    /// Unrecoverable; leave the event loop.
    Exit,
}

/// One recorded render pass: clear the whole frame, bind the pipeline, and
/// issue a single draw over these vertex and instance ranges.
#[derive(Clone, Copy, Debug, PartialEq, Eq, Structural)]
pub struct FramePlan {
    pub first_vertex: u32,
    pub vertex_count: u32,
    pub first_instance: u32,
    pub instance_count: u32,
}

/// The decision half of the panorama renderer: stored size, surface
/// configuration, and lifecycle phase.
#[derive(Clone, Copy, Debug, PartialEq, Eq, Structural)]
pub struct PanoViewer {
    pub size: SurfaceSize,
    pub config: SurfaceConfig,
    pub phase: Phase,
}

/// The host action demanded by a frame outcome: success proceeds, a lost
/// surface forces reconfiguration, memory exhaustion ends the process, and
/// the transient errors are retried.
pub open spec fn action_for(r: Result<(), SurfaceError>) -> HostAction {
    match r {
        Ok(_) => HostAction::Proceed,
        Err(SurfaceError::Lost) => HostAction::Reconfigure,
        Err(SurfaceError::OutOfMemory) => HostAction::Exit,
        Err(SurfaceError::Outdated) => HostAction::Retry,
        Err(SurfaceError::Timeout) => HostAction::Retry,
    }
}

/// A degenerate resize is ignored: a request with zero width or zero height
/// leaves the stored size, the configuration and the phase exactly as they
/// were.
pub proof fn lemma_resize_degenerate_noop(v: PanoViewer, width: u32, height: u32)
    requires
        width == 0 || height == 0,
    ensures
        v.resized(width, height) == v,
{
}

/// Resizing is idempotent: a second resize to the same dimensions changes
/// nothing, so both calls leave an identical configuration.
pub proof fn lemma_resize_idempotent(v: PanoViewer, width: u32, height: u32)
    ensures
        v.resized(width, height).resized(width, height) == v.resized(width, height),
{
}

/// Surface-loss recovery: when a ready, well-formed viewer loses its surface,
/// the demanded action is to reconfigure, and a resize to the current size
/// restores a ready, well-formed viewer with the dimensions and format it had
/// before the loss.
pub proof fn lemma_lost_recovery(v: PanoViewer)
    requires
        v.wf(),
        v.phase is Ready,
    ensures
        ({
            let lost = v.outcome_applied(Err(SurfaceError::Lost));
            let recovered = lost.resized(lost.size.width, lost.size.height);
            &&& action_for(Err(SurfaceError::Lost)) is Reconfigure
            &&& lost.phase is Lost
            &&& recovered.phase is Ready
            &&& recovered.wf()
            &&& recovered == v
        }),
{
}

impl PanoViewer {
    /// The stored size always matches the configured dimensions, and neither
    /// is ever degenerate.
    pub open spec fn wf(self) -> bool {
        &&& self.config.width == self.size.width
        &&& self.config.height == self.size.height
        &&& self.size.width > 0
        &&& self.size.height > 0
    }

    /// The state after a resize request: a degenerate size changes nothing,
    /// any other size is stored, configured, and clears a lost surface.
    pub open spec fn resized(self, width: u32, height: u32) -> PanoViewer {
        if width > 0 && height > 0 {
            PanoViewer {
                size: SurfaceSize { width, height },
                config: SurfaceConfig { width, height, format: self.config.format },
                phase: if self.phase is Lost { Phase::Ready } else { self.phase },
            }
        } else {
            self
        }
    }

    /// The state after a frame outcome: a lost surface parks the viewer until
    /// it is reconfigured, memory exhaustion is fatal, everything else leaves
    /// the state alone.
    pub open spec fn outcome_applied(self, r: Result<(), SurfaceError>) -> PanoViewer {
        match r {
            Ok(_) => self,
            Err(SurfaceError::Lost) => PanoViewer { phase: Phase::Lost, ..self },
            Err(SurfaceError::OutOfMemory) => PanoViewer { phase: Phase::Fatal, ..self },
            Err(SurfaceError::Outdated) => self,
            Err(SurfaceError::Timeout) => self,
        }
    }

    /// Set up the viewer for a freshly configured surface of the given size
    /// and format. The host must have configured the surface to match.
    pub fn new(width: u32, height: u32, format: FormatInfo) -> (v: PanoViewer)
        requires
            width > 0,
            height > 0,
        ensures
            v == (PanoViewer {
                size: SurfaceSize { width, height },
                config: SurfaceConfig { width, height, format },
                phase: Phase::Ready,
            }),
            v.wf(),
    {
        PanoViewer {
            size: SurfaceSize { width, height },
            config: SurfaceConfig { width, height, format },
            phase: Phase::Ready,
        }
    }

    /// Apply a resize request. Returns whether the host must reconfigure the
    /// surface with the updated configuration; a degenerate request is
    /// ignored and needs no reconfiguration.
    pub fn resize(&mut self, width: u32, height: u32) -> (reconfigure: bool)
        ensures
            *final(self) == old(self).resized(width, height),
            reconfigure == (width > 0 && height > 0),
            old(self).wf() ==> final(self).wf(),
    {
        if width > 0 && height > 0 {
            self.size = SurfaceSize { width, height };
            self.config.width = width;
            self.config.height = height;
            if matches!(self.phase, Phase::Lost) {
                self.phase = Phase::Ready;
            }
            true
        } else {
            false
        }
    }

    /// A window event the renderer itself would consume. The panorama viewer
    /// claims none; the camera controller handles them all.
    pub fn input(&mut self, event: &InputEvent) -> (consumed: bool)
        ensures
            *final(self) == *old(self),
            !consumed,
    {
        let _ = event;
        false
    }

    /// Per-tick renderer-side simulation step. The panorama viewer has none.
    pub fn update(&mut self)
        ensures
            *final(self) == *old(self),
    {
    }

    /// The single render pass of a frame: one draw call that covers the
    /// viewport with a full-screen triangle, three vertices and one instance.
    pub fn frame_plan(&self) -> (plan: FramePlan)
        requires
            self.phase is Ready,
        ensures
            plan == (FramePlan {
                first_vertex: 0,
                vertex_count: FULL_SCREEN_TRIANGLE_VERTICES,
                first_instance: 0,
                instance_count: 1,
            }),
    {
        FramePlan {
            first_vertex: 0,
            vertex_count: FULL_SCREEN_TRIANGLE_VERTICES,
            first_instance: 0,
            instance_count: 1,
        }
    }

    /// Record the outcome of a presented frame and say what the host must do
    /// next: proceed on success, reconfigure after a lost surface, exit on
    /// memory exhaustion, and merely retry after a transient error.
    pub fn apply_render_outcome(&mut self, outcome: &Result<(), SurfaceError>) -> (action:
        HostAction)
        requires
            old(self).phase is Ready,
        ensures
            *final(self) == old(self).outcome_applied(*outcome),
            action == action_for(*outcome),
            old(self).wf() ==> final(self).wf(),
    {
        match outcome {
            Ok(_) => HostAction::Proceed,
            Err(SurfaceError::Lost) => {
                self.phase = Phase::Lost;
                HostAction::Reconfigure
            },
            Err(SurfaceError::OutOfMemory) => {
                self.phase = Phase::Fatal;
                HostAction::Exit
            },
            Err(SurfaceError::Outdated) => HostAction::Retry,
            Err(SurfaceError::Timeout) => HostAction::Retry,
        }
    }
}

} // verus!

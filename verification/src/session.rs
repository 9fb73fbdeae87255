//! The render session: the camera and the viewport of one render thread, and what
//! to do with each frame.
//!
//! A session exists only once its scene is loaded, so every session is ready to
//! render. Each frame it takes the viewport of the panel, frames the scene's
//! current bounding box, and says what to clear and draw. The drawing itself is
//! the caller's.

use vstd::prelude::*;
use crate::camera::CameraState;
use crate::geometry::extents;
use crate::geometry::join_all;
use crate::geometry::BoundingBox;
use crate::geometry::Vec3;
use crate::geometry::Vector;
use crate::shell::ClearColor;
use crate::shell::HostShell;
use crate::viewport::FrameInput;
use crate::viewport::Rect;
use crate::viewport::ScissorRect;
use crate::viewport::ViewportRect;

verus! {

/// Strength of each light of the fixed light set, in thousandths.
pub const LIGHT_INTENSITY: i64 = 1000;

/// A white light that shines along `direction` everywhere in the scene.
#[derive(Clone, Copy, Debug, PartialEq, Eq, Structural)]
pub struct DirectionalLight {
    /// Strength, in thousandths.
    pub intensity: i64,
    /// The direction the light travels in, in thousandths.
    pub direction: Vec3,
}

/// What the caller does with a frame.
#[derive(Clone, Copy, Debug, PartialEq, Eq, Structural)]
pub enum FrameAction {
    /// Nothing is visible: draw nothing this frame.
    Skip,
    /// Clear `region` to `clear`, then draw the scene once, restricted to `region`.
    Draw { clear: ClearColor, region: ScissorRect },
}

/// The session of one render thread.
#[derive(Clone, Copy, Debug, PartialEq, Eq)]
pub struct ThreeDApp {
    shell: HostShell,
    camera: CameraState,
    viewport: ViewportRect,
}

impl ThreeDApp {
    /// How the host window composites.
    pub closed spec fn spec_shell(&self) -> HostShell {
        self.shell
    }

    /// The camera as the last frame left it.
    pub closed spec fn spec_camera(&self) -> CameraState {
        self.camera
    }

    /// The viewport of the last frame.
    pub closed spec fn spec_viewport(&self) -> ViewportRect {
        self.viewport
    }

    /// The session for a scene that has just been loaded, given the bounding
    /// boxes of its parts. The camera starts at the centre of the scene, and the
    /// viewport is empty until the first frame.
    pub fn new(shell: HostShell, parts: &[BoundingBox]) -> (app: ThreeDApp)
        ensures
            app.spec_shell() == shell,
            app.spec_camera().starts_at(join_all(extents(parts@))),
            app.spec_viewport()@ == (Rect { x: 0, y: 0, width: 0, height: 0 }),
    {
        let bounding_box = BoundingBox::enclosing(parts);
        ThreeDApp {
            shell,
            camera: CameraState::initial(&bounding_box),
            viewport: ViewportRect { x: 0, y: 0, width: 0, height: 0 },
        }
    }

    /// How the host window composites.
    #[verifier::when_used_as_spec(spec_shell)]
    pub fn shell(&self) -> (s: HostShell)
        ensures
            s == self.spec_shell(),
    {
        self.shell
    }

    /// The camera as the last frame left it.
    #[verifier::when_used_as_spec(spec_camera)]
    pub fn camera(&self) -> (c: CameraState)
        ensures
            c == self.spec_camera(),
    {
        self.camera
    }

    /// The viewport of the last frame.
    #[verifier::when_used_as_spec(spec_viewport)]
    pub fn viewport(&self) -> (v: ViewportRect)
        ensures
            v == self.spec_viewport(),
    {
        self.viewport
    }

    /// The two lights every frame is drawn with: one shining down and away, one
    /// shining up and back.
    pub fn lights() -> (pair: (DirectionalLight, DirectionalLight))
        ensures
            pair.0.intensity == LIGHT_INTENSITY,
            pair.0.direction@ == (Vector { x: 0, y: -500, z: -500 }),
            pair.1.intensity == LIGHT_INTENSITY,
            pair.1.direction@ == (Vector { x: 0, y: 500, z: 500 }),
    {
        (
            DirectionalLight {
                intensity: LIGHT_INTENSITY,
                direction: Vec3 { x: 0, y: -500, z: -500 },
            },
            DirectionalLight { intensity: LIGHT_INTENSITY, direction: Vec3 { x: 0, y: 500, z: 500 } },
        )
    }

    /// Frames `bounding_box` with the session's camera. A box with nothing to
    /// frame leaves the camera exactly as it was. Nothing else changes.
    pub fn fit_camera(&mut self, bounding_box: &BoundingBox)
        ensures
            final(self).spec_shell() == old(self).spec_shell(),
            final(self).spec_viewport() == old(self).spec_viewport(),
            bounding_box@.is_degenerate() ==> final(self).spec_camera() == old(self).spec_camera(),
            !bounding_box@.is_degenerate() ==> final(self).spec_camera().frames(bounding_box@),
    {
        let mut camera = self.camera;
        camera.fit(bounding_box);
        self.camera = camera;
    }

    /// One frame. The session takes over the viewport of the panel and frames the
    /// smallest box around `parts`, the current bounding boxes of the scene's
    /// parts. The answer says what to draw: nothing where the scissor box covers no
    /// pixel, else one clear and one draw, both restricted to the scissor box.
    pub fn frame(&mut self, frame_input: FrameInput, parts: &[BoundingBox]) -> (action: FrameAction)
        ensures
            final(self).spec_shell() == old(self).spec_shell(),
            final(self).spec_viewport() == frame_input.spec_viewport(),
            join_all(extents(parts@)).is_degenerate() ==> final(self).spec_camera() == old(
                self,
            ).spec_camera(),
            !join_all(extents(parts@)).is_degenerate() ==> final(self).spec_camera().frames(
                join_all(extents(parts@)),
            ),
            frame_input.spec_scissor_box()@.is_empty() ==> action == FrameAction::Skip,
            !frame_input.spec_scissor_box()@.is_empty() ==> action == (FrameAction::Draw {
                clear: old(self).spec_shell().clear_color_spec(),
                region: frame_input.spec_scissor_box(),
            }),
    {
        let bounding_box = BoundingBox::enclosing(parts);
        self.viewport = frame_input.viewport();
        self.fit_camera(&bounding_box);
        let region = frame_input.scissor_box();
        if region.is_empty() {
            FrameAction::Skip
        } else {
            FrameAction::Draw { clear: self.shell.clear_color(), region }
        }
    }
}

} // verus!

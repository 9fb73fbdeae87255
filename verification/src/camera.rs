//! The camera and the rule that frames a bounding box with it.
//!
//! The camera looks at the centre of the box from a fixed diagonal direction. How
//! far away it stands and how deep it sees grow with the longest edge of the
//! box; the height of the framed picture does not.

use vstd::prelude::*;
use crate::geometry::BoundingBox;
use crate::geometry::Extent;
use crate::geometry::Vec3;
use crate::geometry::Vector;

verus! {

/// Distance added along each axis to the longest edge when the camera is placed,
/// so that it never sits on its target. Ten world units.
pub const VIEW_MARGIN: i64 = 10_000;

/// Height of the framed picture after a fit. A hundred world units, whatever the
/// size of the model.
pub const FRAME_HEIGHT: i64 = 100_000;

/// The far plane lies this many longest edges ahead, the near plane as many behind.
pub const DEPTH_FACTOR: i64 = 4;

/// Height of the framed picture before the first fit. Ten world units.
pub const INITIAL_HEIGHT: i64 = 10_000;

/// Near plane before the first fit. A hundredth of a world unit.
pub const INITIAL_NEAR: i64 = 10;

/// Far plane before the first fit. Ten thousand world units.
pub const INITIAL_FAR: i64 = 10_000_000;

/// How the camera projects the scene.
#[derive(Clone, Copy, Debug, PartialEq, Eq, Structural)]
pub enum Projection {
    /// Parallel projection; `height` is the height of the framed picture, in
    /// thousandths of a world unit.
    Orthographic { height: i64 },
    /// Perspective projection; `field_of_view` is the vertical opening angle, in
    /// thousandths of a degree.
    Perspective { field_of_view: i64 },
}

/// Where the camera stands, what it looks at and how it projects. Lengths are in
/// thousandths of a world unit.
#[derive(Clone, Copy, Debug, PartialEq, Eq, Structural)]
pub struct CameraState {
    pub position: Vec3,
    pub target: Vec3,
    pub up: Vec3,
    pub projection: Projection,
    pub z_near: i64,
    pub z_far: i64,
}

/// The direction that is up for every camera this crate places: the y axis.
pub open spec fn up_axis() -> Vector {
    Vector { x: 0, y: 1, z: 0 }
}

impl CameraState {
    /// The camera is the one that frames `extent`: it looks at the centre from the
    /// diagonal, one longest edge and a margin away on each axis, with the fixed
    /// picture height and a depth range of four longest edges either way.
    pub open spec fn frames(self, extent: Extent) -> bool {
        &&& self.target@ == extent.center()
        &&& self.position@ == extent.center().shifted(extent.max_dim() + VIEW_MARGIN)
        &&& self.up@ == up_axis()
        &&& self.projection == (Projection::Orthographic { height: FRAME_HEIGHT })
        &&& self.z_near == -(DEPTH_FACTOR * extent.max_dim())
        &&& self.z_far == DEPTH_FACTOR * extent.max_dim()
    }

    /// The camera is the one a session starts with for a scene of this extent: it
    /// sits at the centre and looks at the centre, with the starting projection.
    pub open spec fn starts_at(self, extent: Extent) -> bool {
        &&& self.target@ == extent.center()
        &&& self.position@ == extent.center()
        &&& self.up@ == up_axis()
        &&& self.projection == (Projection::Orthographic { height: INITIAL_HEIGHT })
        &&& self.z_near == INITIAL_NEAR
        &&& self.z_far == INITIAL_FAR
    }

    /// The camera a session starts with, before its first frame.
    pub fn initial(bounding_box: &BoundingBox) -> (camera: CameraState)
        ensures
            camera.starts_at(bounding_box@),
    {
        let centre = match bounding_box.center() {
            Some(c) => c,
            None => Vec3 { x: 0, y: 0, z: 0 },
        };
        CameraState {
            position: centre,
            target: centre,
            up: Vec3 { x: 0, y: 1, z: 0 },
            projection: Projection::Orthographic { height: INITIAL_HEIGHT },
            z_near: INITIAL_NEAR,
            z_far: INITIAL_FAR,
        }
    }

    /// Frames `bounding_box`. A box with nothing to frame, empty or a single point,
    /// leaves the camera exactly as it was.
    pub fn fit(&mut self, bounding_box: &BoundingBox)
        ensures
            bounding_box@.is_degenerate() ==> *final(self) == *old(self),
            !bounding_box@.is_degenerate() ==> final(self).frames(bounding_box@),
            !bounding_box@.is_degenerate() ==> final(self).target@ == bounding_box@.center()
                && final(self).position@.distance_squared(final(self).target@) > 0,
    {
        proof {
            use_type_invariant(bounding_box);
        }
        let longest = match bounding_box.max_dim() {
            Some(m) => m,
            None => 0,
        };
        if longest == 0 {
            return ;
        }
        let centre = match bounding_box.center() {
            Some(c) => c,
            None => Vec3 { x: 0, y: 0, z: 0 },
        };
        let reach: i64 = longest + VIEW_MARGIN;
        self.position = Vec3 { x: centre.x + reach, y: centre.y + reach, z: centre.z + reach };
        self.target = centre;
        self.up = Vec3 { x: 0, y: 1, z: 0 };
        self.projection = Projection::Orthographic { height: FRAME_HEIGHT };
        self.z_near = -(DEPTH_FACTOR * longest);
        self.z_far = DEPTH_FACTOR * longest;
        proof {
            lemma_framing_camera_looks_at_centre(*self, bounding_box@);
        }
    }
}

/// A camera that frames a box with something to frame looks at the centre of the
/// box and stands away from it; its near plane lies behind it and its far plane
/// as far ahead.
pub proof fn lemma_framing_camera_looks_at_centre(camera: CameraState, extent: Extent)
    requires
        extent.wf(),
        !extent.is_degenerate(),
        camera.frames(extent),
    ensures
        camera.target@ == extent.center(),
        camera.position@.distance_squared(camera.target@) > 0,
        camera.z_near < 0 < camera.z_far,
        camera.z_near == -camera.z_far,
{
    let reach = extent.max_dim() + VIEW_MARGIN;
    assert(reach > 0);
    assert(reach * reach > 0) by (nonlinear_arith)
        requires
            reach > 0,
    ;
    assert(camera.position@.x - camera.target@.x == reach);
    assert(camera.position@.y - camera.target@.y == reach);
    assert(camera.position@.z - camera.target@.z == reach);
}

/// Two cameras that frame the same box are the same camera: the fit depends on
/// the box alone, not on where the camera stood before.
pub proof fn lemma_framing_camera_is_unique(a: CameraState, b: CameraState, extent: Extent)
    requires
        a.frames(extent),
        b.frames(extent),
    ensures
        a == b,
{
}

} // verus!

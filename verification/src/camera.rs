//! The camera: where the viewer stands and how the view is projected.
//!
//! The aspect ratio is kept as the width and the height of the surface it was
//! taken from, so that two cameras of one surface size agree exactly.

use vstd::prelude::*;
use crate::bits::{
    positive_finite, is_positive_finite, HUNDRED, ONE, PI_CEILING, SEVEN_TENTHS, TENTH, TWO, ZERO,
};

verus! {

/// The viewpoint.  Positions and angles are single-precision bit patterns.
#[derive(Clone, Copy, Debug, PartialEq, Eq)]
pub struct Camera {
    pub eye: [u32; 3],
    pub center: [u32; 3],
    pub up: [u32; 3],
    /// The width of the surface, the numerator of the aspect ratio.
    pub aspect_width: u32,
    /// The height of the surface, the denominator of the aspect ratio.
    pub aspect_height: u32,
    /// The vertical field of view, in radians.
    pub fov: u32,
    pub z_near: u32,
    pub z_far: u32,
}

/// The eye of the fixed camera: (0, 1, 2).
pub open spec fn fixed_eye() -> Seq<u32> {
    seq![ZERO, ONE, TWO]
}

/// The point the fixed camera looks at: the origin.
pub open spec fn fixed_center() -> Seq<u32> {
    seq![ZERO, ZERO, ZERO]
}

/// The up direction of the fixed camera: the y axis.
pub open spec fn fixed_up() -> Seq<u32> {
    seq![ZERO, ONE, ZERO]
}

impl Camera {
    /// The aspect ratio is positive, the field of view lies between zero and
    /// pi, and the near plane lies before the far plane and beyond the eye.
    pub open spec fn wf(&self) -> bool {
        &&& self.aspect_width > 0
        &&& self.aspect_height > 0
        &&& 0 < self.fov < PI_CEILING
        &&& positive_finite(self.z_near)
        &&& positive_finite(self.z_far)
        &&& self.z_near < self.z_far
    }

    /// The camera is the fixed one, for a surface of the given size.
    pub open spec fn is_fixed(&self, width: u32, height: u32) -> bool {
        &&& self.eye@ == fixed_eye()
        &&& self.center@ == fixed_center()
        &&& self.up@ == fixed_up()
        &&& self.aspect_width == width
        &&& self.aspect_height == height
        &&& self.fov == SEVEN_TENTHS
        &&& self.z_near == TENTH
        &&& self.z_far == HUNDRED
    }

    /// The fixed camera for a surface of the given size.
    pub fn fixed(width: u32, height: u32) -> (camera: Camera)
        ensures
            camera.is_fixed(width, height),
            width > 0 && height > 0 ==> camera.wf(),
    {
        let camera = Camera {
            eye: [ZERO, ONE, TWO],
            center: [ZERO, ZERO, ZERO],
            up: [ZERO, ONE, ZERO],
            aspect_width: width,
            aspect_height: height,
            fov: SEVEN_TENTHS,
            z_near: TENTH,
            z_far: HUNDRED,
        };
        assert(camera.eye@ =~= fixed_eye());
        assert(camera.center@ =~= fixed_center());
        assert(camera.up@ =~= fixed_up());
        camera
    }

    /// Decides `wf`.
    pub fn is_valid(&self) -> (b: bool)
        ensures
            b == self.wf(),
    {
        self.aspect_width > 0 && self.aspect_height > 0 && 0 < self.fov && self.fov < PI_CEILING
            && is_positive_finite(self.z_near) && is_positive_finite(self.z_far) && self.z_near
            < self.z_far
    }

    /// Takes the aspect ratio of a surface of the given size and leaves
    /// everything else as it is.
    pub fn set_aspect(&mut self, width: u32, height: u32)
        ensures
            final(self).aspect_width == width,
            final(self).aspect_height == height,
            final(self).eye == old(self).eye,
            final(self).center == old(self).center,
            final(self).up == old(self).up,
            final(self).fov == old(self).fov,
            final(self).z_near == old(self).z_near,
            final(self).z_far == old(self).z_far,
            old(self).wf() && width > 0 && height > 0 ==> final(self).wf(),
    {
        self.aspect_width = width;
        self.aspect_height = height;
    }
}

} // verus!

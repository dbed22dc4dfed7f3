use vstd::prelude::*;
use crate::vector::{Vec3, cross, minus};

verus! {

/// Width-to-height ratio of the viewport, kept as the exact pair of sizes.
#[derive(Clone, Copy, Debug, PartialEq, Eq)]
pub struct Aspect {
    pub width: u32,
    pub height: u32,
}

impl Aspect {
    /// Both sides are positive, so the ratio is a finite, non-zero number.
    pub open spec fn is_valid(self) -> bool {
        self.width > 0 && self.height > 0
    }

    /// The two ratios are equal as numbers.
    pub open spec fn same_ratio(self, other: Aspect) -> bool {
        self.width as int * other.height as int == other.width as int * self.height as int
    }
}

/// The integer point or direction held in `a`.
pub open spec fn point(a: [i32; 3]) -> Vec3 {
    (a[0] as int, a[1] as int, a[2] as int)
}

/// A perspective camera looking from `eye` at `target`.
///
/// `fovy` is the vertical field of view in degrees; `znear` and `zfar` are the
/// clip distances in thousandths of a world unit.
#[derive(Clone, Copy, Debug, PartialEq, Eq)]
pub struct Camera {
    pub eye: [i32; 3],
    pub target: [i32; 3],
    pub up: [i32; 3],
    pub aspect: Aspect,
    pub fovy: u32,
    pub znear: u32,
    pub zfar: u32,
}

/// Vertical field of view of a new camera, in degrees.
pub const FOVY_DEGREES: u32 = 45;

/// Near clip distance of a new camera, in thousandths (0.1 units).
pub const ZNEAR_MILLI: u32 = 100;

/// Far clip distance of a new camera, in thousandths (100 units).
pub const ZFAR_MILLI: u32 = 100000;

impl Camera {
    /// Every input of the view-projection is in the range where the
    /// right-handed look-at and perspective transforms are finite: a positive
    /// aspect ratio, a field of view strictly between 0 and 180 degrees,
    /// `0 < znear < zfar`, an eye distinct from the target and an up vector
    /// not parallel to the viewing direction.
    pub open spec fn projection_defined(self) -> bool {
        &&& self.aspect.is_valid()
        &&& 0 < self.fovy < 180
        &&& 0 < self.znear < self.zfar
        &&& point(self.eye) != point(self.target)
        &&& cross(minus(point(self.target), point(self.eye)), point(self.up)) != (0int, 0int, 0int)
    }

    /// The aspect after a resize to `width` x `height`: their exact ratio when
    /// both are positive; otherwise the previous one, or 1:1 where that is not
    /// valid.
    pub open spec fn resized_aspect(previous: Aspect, width: u32, height: u32) -> Aspect {
        if width > 0 && height > 0 {
            Aspect { width, height }
        } else if previous.is_valid() {
            previous
        } else {
            Aspect { width: 1, height: 1 }
        }
    }

    /// The camera at (2, 2, 3) looking at the origin with +Y up, a 45 degree
    /// field of view and clip distances 0.1 and 100, for a viewport of
    /// `width` x `height`.
    pub fn new(width: u32, height: u32) -> (r: Camera)
        ensures
            point(r.eye) == (2int, 2int, 3int),
            point(r.target) == (0int, 0int, 0int),
            point(r.up) == (0int, 1int, 0int),
            r.fovy == FOVY_DEGREES,
            r.znear == ZNEAR_MILLI,
            r.zfar == ZFAR_MILLI,
            r.aspect == Camera::resized_aspect(Aspect { width: 1, height: 1 }, width, height),
            r.projection_defined(),
    {
        let mut camera = Camera {
            eye: [2, 2, 3],
            target: [0, 0, 0],
            up: [0, 1, 0],
            aspect: Aspect { width: 1, height: 1 },
            fovy: FOVY_DEGREES,
            znear: ZNEAR_MILLI,
            zfar: ZFAR_MILLI,
        };
        assert(cross((-2int, -2int, -3int), (0int, 1int, 0int)) == (3int, 0int, -2int)) by (nonlinear_arith);
        camera.update_aspect(width, height);
        camera
    }

    /// Sets the aspect ratio to `width / height`. A zero side would make the
    /// ratio zero or undefined, so the previous ratio is kept then (1:1 if
    /// that one is not valid either): the camera's projection stays defined.
    pub fn update_aspect(&mut self, width: u32, height: u32)
        ensures
            final(self).aspect == Camera::resized_aspect(old(self).aspect, width, height),
            final(self).aspect.is_valid(),
            width > 0 && height > 0 ==> final(self).aspect.width == width && final(self).aspect.height == height,
            final(self).eye == old(self).eye,
            final(self).target == old(self).target,
            final(self).up == old(self).up,
            final(self).fovy == old(self).fovy,
            final(self).znear == old(self).znear,
            final(self).zfar == old(self).zfar,
            old(self).projection_defined() ==> final(self).projection_defined(),
    {
        if width > 0 && height > 0 {
            self.aspect = Aspect { width, height };
        } else if !(self.aspect.width > 0 && self.aspect.height > 0) {
            self.aspect = Aspect { width: 1, height: 1 };
        }
    }
}

} // verus!

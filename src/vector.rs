use vstd::prelude::*;

verus! {

/// A point or direction with integer coordinates.
pub type Vec3 = (int, int, int);

pub open spec fn dot(a: Vec3, b: Vec3) -> int {
    a.0 * b.0 + a.1 * b.1 + a.2 * b.2
}

pub open spec fn cross(a: Vec3, b: Vec3) -> Vec3 {
    (a.1 * b.2 - a.2 * b.1, a.2 * b.0 - a.0 * b.2, a.0 * b.1 - a.1 * b.0)
}

pub open spec fn minus(a: Vec3, b: Vec3) -> Vec3 {
    (a.0 - b.0, a.1 - b.1, a.2 - b.2)
}

/// `c` is a positive multiple of `n`: parallel to it and on the same side.
pub open spec fn points_along(c: Vec3, n: Vec3) -> bool {
    dot(c, n) > 0 && cross(c, n) == (0int, 0int, 0int)
}

/// `n` is one of the six unit vectors along the axes.
pub open spec fn is_unit_axis(n: Vec3) -> bool {
    ||| n == (1int, 0int, 0int)
    ||| n == (-1int, 0int, 0int)
    ||| n == (0int, 1int, 0int)
    ||| n == (0int, -1int, 0int)
    ||| n == (0int, 0int, 1int)
    ||| n == (0int, 0int, -1int)
}

} // verus!

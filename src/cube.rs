use vstd::prelude::*;
use crate::vector::{Vec3, cross, minus, points_along, is_unit_axis};
use crate::vertex::{Vertex, WHITE, is_white};

verus! {

/// Outward normals of the six faces, in the order the faces are laid out:
/// front (-Z), back (+Z), right (+X), left (-X), bottom (-Y), top (+Y).
pub open spec fn face_normals() -> Seq<Vec3> {
    seq![(0, 0, -1), (0, 0, 1), (1, 0, 0), (-1, 0, 0), (0, -1, 0), (0, 1, 0)]
}

/// For each of the 24 vertices (four per face, in face order), the sign of its
/// coordinate on each axis.
pub open spec fn corner_signs() -> Seq<Vec3> {
    seq![
        (1, -1, -1), (-1, -1, -1), (-1, 1, -1), (1, 1, -1),
        (-1, -1, 1), (1, -1, 1), (1, 1, 1), (-1, 1, 1),
        (1, -1, 1), (1, -1, -1), (1, 1, -1), (1, 1, 1),
        (-1, -1, -1), (-1, -1, 1), (-1, 1, 1), (-1, 1, -1),
        (-1, -1, -1), (1, -1, -1), (1, -1, 1), (-1, -1, 1),
        (1, 1, -1), (-1, 1, -1), (-1, 1, 1), (1, 1, 1),
    ]
}

/// Where each of a face's six indices points among that face's four vertices:
/// the triangles (0, 1, 2) and (2, 3, 0).
pub open spec fn face_offsets() -> Seq<int> {
    seq![0, 1, 2, 2, 3, 0]
}

/// Position of vertex `k` of a box of extents `size`, doubled: the corner lies
/// at half the extent on each axis, on the side its sign gives.
pub open spec fn corner_position(size: [u32; 3], k: int) -> Vec3 {
    let s = corner_signs()[k];
    (signed(s.0, size[0] as int), signed(s.1, size[1] as int), signed(s.2, size[2] as int))
}

/// `x` with the sign `s` (one of 1 and -1).
pub open spec fn signed(s: int, x: int) -> int {
    if s < 0 {
        -x
    } else {
        x
    }
}

/// Normal of vertex `k`: that of the face it belongs to.
pub open spec fn vertex_normal(k: int) -> Vec3 {
    face_normals()[k / 4]
}

/// Entry `j` of the index list.
pub open spec fn cube_index(j: int) -> int {
    4 * (j / 6) + face_offsets()[j % 6]
}

/// `v` is vertex `k` of the box of extents `size`.
pub open spec fn is_cube_vertex(v: Vertex, size: [u32; 3], k: int) -> bool {
    let p = corner_position(size, k);
    let n = vertex_normal(k);
    &&& v.position[0] == p.0
    &&& v.position[1] == p.1
    &&& v.position[2] == p.2
    &&& v.normal[0] == n.0
    &&& v.normal[1] == n.1
    &&& v.normal[2] == n.2
    &&& is_white(v.color)
}

/// Builds the vertices and triangle indices of an axis-aligned box centred on
/// the origin with extents `size`: four vertices per face, each with the
/// face's flat normal, and two counter-clockwise triangles per face.
pub fn create_cube_geometry(size: [u32; 3]) -> (r: (Vec<Vertex>, Vec<u16>))
    ensures
        r.0@.len() == 24,
        r.1@.len() == 36,
        forall|k: int| 0 <= k < 24 ==> is_cube_vertex(#[trigger] r.0@[k], size, k),
        forall|j: int| 0 <= j < 36 ==> r.1@[j] as int == cube_index(j),
        forall|j: int| 0 <= j < 36 ==> r.1@[j] < 24,
{
    let l: i64 = size[0] as i64;
    let h: i64 = size[1] as i64;
    let w: i64 = size[2] as i64;
    let nl: i64 = -l;
    let nh: i64 = -h;
    let nw: i64 = -w;
    let c = WHITE;
    let vertices: Vec<Vertex> = vec![
        // front
        Vertex { position: [l, nh, nw], normal: [0, 0, -1], color: c },
        Vertex { position: [nl, nh, nw], normal: [0, 0, -1], color: c },
        Vertex { position: [nl, h, nw], normal: [0, 0, -1], color: c },
        Vertex { position: [l, h, nw], normal: [0, 0, -1], color: c },
        // back
        Vertex { position: [nl, nh, w], normal: [0, 0, 1], color: c },
        Vertex { position: [l, nh, w], normal: [0, 0, 1], color: c },
        Vertex { position: [l, h, w], normal: [0, 0, 1], color: c },
        Vertex { position: [nl, h, w], normal: [0, 0, 1], color: c },
        // right
        Vertex { position: [l, nh, w], normal: [1, 0, 0], color: c },
        Vertex { position: [l, nh, nw], normal: [1, 0, 0], color: c },
        Vertex { position: [l, h, nw], normal: [1, 0, 0], color: c },
        Vertex { position: [l, h, w], normal: [1, 0, 0], color: c },
        // left
        Vertex { position: [nl, nh, nw], normal: [-1, 0, 0], color: c },
        Vertex { position: [nl, nh, w], normal: [-1, 0, 0], color: c },
        Vertex { position: [nl, h, w], normal: [-1, 0, 0], color: c },
        Vertex { position: [nl, h, nw], normal: [-1, 0, 0], color: c },
        // bottom
        Vertex { position: [nl, nh, nw], normal: [0, -1, 0], color: c },
        Vertex { position: [l, nh, nw], normal: [0, -1, 0], color: c },
        Vertex { position: [l, nh, w], normal: [0, -1, 0], color: c },
        Vertex { position: [nl, nh, w], normal: [0, -1, 0], color: c },
        // top
        Vertex { position: [l, h, nw], normal: [0, 1, 0], color: c },
        Vertex { position: [nl, h, nw], normal: [0, 1, 0], color: c },
        Vertex { position: [nl, h, w], normal: [0, 1, 0], color: c },
        Vertex { position: [l, h, w], normal: [0, 1, 0], color: c },
    ];
    let indices: Vec<u16> = vec![
        0, 1, 2, 2, 3, 0,
        4, 5, 6, 6, 7, 4,
        8, 9, 10, 10, 11, 8,
        12, 13, 14, 14, 15, 12,
        16, 17, 18, 18, 19, 16,
        20, 21, 22, 22, 23, 20,
    ];
    assert forall|k: int| 0 <= k < 24 implies is_cube_vertex(#[trigger] vertices@[k], size, k) by {
        assert(k == 0 || k == 1 || k == 2 || k == 3 || k == 4 || k == 5 || k == 6 || k == 7
            || k == 8 || k == 9 || k == 10 || k == 11 || k == 12 || k == 13 || k == 14
            || k == 15 || k == 16 || k == 17 || k == 18 || k == 19 || k == 20 || k == 21
            || k == 22 || k == 23);
    }
    assert forall|j: int| 0 <= j < 36 implies indices@[j] as int == cube_index(j) by {
        assert(j == 0 || j == 1 || j == 2 || j == 3 || j == 4 || j == 5 || j == 6 || j == 7
            || j == 8 || j == 9 || j == 10 || j == 11 || j == 12 || j == 13 || j == 14
            || j == 15 || j == 16 || j == 17 || j == 18 || j == 19 || j == 20 || j == 21
            || j == 22 || j == 23 || j == 24 || j == 25 || j == 26 || j == 27 || j == 28
            || j == 29 || j == 30 || j == 31 || j == 32 || j == 33 || j == 34 || j == 35);
    }
    (vertices, indices)
}

/// Every face's four vertices carry one and the same normal; that normal is a
/// unit vector along one axis, and each of the face's vertices lies on the side
/// of the box that the normal points to: its coordinate on the normal's axis is
/// the extent on that axis (doubled) with the normal's sign.
pub proof fn lemma_face_normals(size: [u32; 3])
    ensures
        forall|f: int, c: int|
            0 <= f < 6 && 0 <= c < 4 ==> {
                let n = #[trigger] vertex_normal(4 * f + c);
                let p = corner_position(size, 4 * f + c);
                &&& n == vertex_normal(4 * f)
                &&& is_unit_axis(n)
                &&& (n.0 != 0 ==> p.0 == signed(n.0, size[0] as int))
                &&& (n.1 != 0 ==> p.1 == signed(n.1, size[1] as int))
                &&& (n.2 != 0 ==> p.2 == signed(n.2, size[2] as int))
            },
{
    assert forall|f: int, c: int| 0 <= f < 6 && 0 <= c < 4 implies {
        let n = #[trigger] vertex_normal(4 * f + c);
        let p = corner_position(size, 4 * f + c);
        &&& n == vertex_normal(4 * f)
        &&& is_unit_axis(n)
        &&& (n.0 != 0 ==> p.0 == signed(n.0, size[0] as int))
        &&& (n.1 != 0 ==> p.1 == signed(n.1, size[1] as int))
        &&& (n.2 != 0 ==> p.2 == signed(n.2, size[2] as int))
    } by {
        let k = 4 * f + c;
        assert(k / 4 == f);
        assert(k == 0 || k == 1 || k == 2 || k == 3 || k == 4 || k == 5 || k == 6 || k == 7
            || k == 8 || k == 9 || k == 10 || k == 11 || k == 12 || k == 13 || k == 14
            || k == 15 || k == 16 || k == 17 || k == 18 || k == 19 || k == 20 || k == 21
            || k == 22 || k == 23);
    }
}

/// Normal of triangle `t` (indices `3t`, `3t + 1`, `3t + 2`) by its winding:
/// the cross product of its first two edges.
pub open spec fn winding_normal(size: [u32; 3], t: int) -> Vec3 {
    let p0 = corner_position(size, cube_index(3 * t));
    let p1 = corner_position(size, cube_index(3 * t + 1));
    let p2 = corner_position(size, cube_index(3 * t + 2));
    cross(minus(p1, p0), minus(p2, p0))
}

/// `v` with each coordinate multiplied by the extent on its axis.
pub open spec fn scaled(v: Vec3, x: int, y: int, z: int) -> Vec3 {
    (v.0 * x, v.1 * y, v.2 * z)
}

proof fn lemma_cross_scaled(a: Vec3, b: Vec3, c: Vec3, x: int, y: int, z: int)
    ensures
        cross(minus(scaled(b, x, y, z), scaled(a, x, y, z)), minus(scaled(c, x, y, z), scaled(a, x, y, z)))
            == ({
            let w = cross(minus(b, a), minus(c, a));
            (y * z * w.0, x * z * w.1, x * y * w.2)
        }),
{
    let (d, e) = (minus(b, a), minus(c, a));
    vstd::arithmetic::mul::lemma_mul_is_distributive_sub_other_way(x, b.0, a.0);
    vstd::arithmetic::mul::lemma_mul_is_distributive_sub_other_way(y, b.1, a.1);
    vstd::arithmetic::mul::lemma_mul_is_distributive_sub_other_way(z, b.2, a.2);
    vstd::arithmetic::mul::lemma_mul_is_distributive_sub_other_way(x, c.0, a.0);
    vstd::arithmetic::mul::lemma_mul_is_distributive_sub_other_way(y, c.1, a.1);
    vstd::arithmetic::mul::lemma_mul_is_distributive_sub_other_way(z, c.2, a.2);
    assert(minus(scaled(b, x, y, z), scaled(a, x, y, z)) == scaled(d, x, y, z));
    assert(minus(scaled(c, x, y, z), scaled(a, x, y, z)) == scaled(e, x, y, z));
    let (d0, d1, d2) = (d.0, d.1, d.2);
    let (e0, e1, e2) = (e.0, e.1, e.2);
    lemma_scaled_product_difference(d1, y, e2, z, d2, e1);
    lemma_scaled_product_difference(d2, z, e0, x, d0, e2);
    lemma_scaled_product_difference(d0, x, e1, y, d1, e0);
}

proof fn lemma_scaled_product_difference(p: int, u: int, q: int, v: int, r: int, s: int)
    ensures
        (p * u) * (q * v) - (r * v) * (s * u) == u * v * (p * q - r * s),
{
    assert((p * u) * (q * v) == (u * v) * (p * q)) by (nonlinear_arith);
    assert((r * v) * (s * u) == (u * v) * (r * s)) by (nonlinear_arith);
    vstd::arithmetic::mul::lemma_mul_is_distributive_sub(u * v, p * q, r * s);
}

proof fn lemma_signed(s: int, v: int)
    requires
        s == 1 || s == -1,
    ensures
        signed(s, v) == s * v,
{
    if s == 1 {
        assert(s * v == v) by (nonlinear_arith)
            requires
                s == 1,
        ;
    } else {
        assert(s * v == -v) by (nonlinear_arith)
            requires
                s == -1,
        ;
    }
}

proof fn lemma_corner_scaled(size: [u32; 3], k: int)
    requires
        0 <= k < 24,
    ensures
        corner_position(size, k) == scaled(corner_signs()[k], size[0] as int, size[1] as int, size[2] as int),
{
    if k == 0 {
        assert(corner_signs()[0] == (1int, -1int, -1int));
    } else if k == 1 {
        assert(corner_signs()[1] == (-1int, -1int, -1int));
    } else if k == 2 {
        assert(corner_signs()[2] == (-1int, 1int, -1int));
    } else if k == 3 {
        assert(corner_signs()[3] == (1int, 1int, -1int));
    } else if k == 4 {
        assert(corner_signs()[4] == (-1int, -1int, 1int));
    } else if k == 5 {
        assert(corner_signs()[5] == (1int, -1int, 1int));
    } else if k == 6 {
        assert(corner_signs()[6] == (1int, 1int, 1int));
    } else if k == 7 {
        assert(corner_signs()[7] == (-1int, 1int, 1int));
    } else if k == 8 {
        assert(corner_signs()[8] == (1int, -1int, 1int));
    } else if k == 9 {
        assert(corner_signs()[9] == (1int, -1int, -1int));
    } else if k == 10 {
        assert(corner_signs()[10] == (1int, 1int, -1int));
    } else if k == 11 {
        assert(corner_signs()[11] == (1int, 1int, 1int));
    } else if k == 12 {
        assert(corner_signs()[12] == (-1int, -1int, -1int));
    } else if k == 13 {
        assert(corner_signs()[13] == (-1int, -1int, 1int));
    } else if k == 14 {
        assert(corner_signs()[14] == (-1int, 1int, 1int));
    } else if k == 15 {
        assert(corner_signs()[15] == (-1int, 1int, -1int));
    } else if k == 16 {
        assert(corner_signs()[16] == (-1int, -1int, -1int));
    } else if k == 17 {
        assert(corner_signs()[17] == (1int, -1int, -1int));
    } else if k == 18 {
        assert(corner_signs()[18] == (1int, -1int, 1int));
    } else if k == 19 {
        assert(corner_signs()[19] == (-1int, -1int, 1int));
    } else if k == 20 {
        assert(corner_signs()[20] == (1int, 1int, -1int));
    } else if k == 21 {
        assert(corner_signs()[21] == (-1int, 1int, -1int));
    } else if k == 22 {
        assert(corner_signs()[22] == (-1int, 1int, 1int));
    } else if k == 23 {
        assert(corner_signs()[23] == (1int, 1int, 1int));
    }
    let sk = corner_signs()[k];
    lemma_signed(sk.0, size[0] as int);
    lemma_signed(sk.1, size[1] as int);
    lemma_signed(sk.2, size[2] as int);
}

/// The mesh of an axis-aligned box: its vertices and triangle indices, built
/// around the origin, and the point it is placed at.
pub struct CubeMesh {
    pub vertices: Vec<Vertex>,
    pub indices: Vec<u16>,
    pub position: [i32; 3],
    pub size: [u32; 3],
}

impl CubeMesh {
    /// The vertices and indices are those of the box of extents `size`.
    pub open spec fn wf(&self) -> bool {
        &&& self.vertices@.len() == 24
        &&& self.indices@.len() == 36
        &&& forall|k: int| 0 <= k < 24 ==> is_cube_vertex(#[trigger] self.vertices@[k], self.size, k)
        &&& forall|j: int| 0 <= j < 36 ==> self.indices@[j] as int == cube_index(j)
    }

    /// The mesh of a box of extents `size` placed at `position`.
    pub fn new(position: [i32; 3], size: [u32; 3]) -> (r: CubeMesh)
        ensures
            r.wf(),
            r.position == position,
            r.size == size,
    {
        let (vertices, indices) = create_cube_geometry(size);
        CubeMesh { vertices, indices, position, size }
    }

    /// How many indices one indexed draw of the whole mesh covers.
    pub fn index_count(&self) -> (r: u32)
        requires
            self.wf(),
        ensures
            r == self.indices@.len(),
            r == 36,
    {
        self.indices.len() as u32
    }
}

/// At the level of signs, the first two edges of triangle `t` cross to four
/// times the normal stored in its first vertex.
proof fn lemma_sign_winding(t: int)
    requires
        0 <= t < 12,
    ensures
        ({
            let (i0, i1, i2) = (cube_index(3 * t), cube_index(3 * t + 1), cube_index(3 * t + 2));
            let signs = corner_signs();
            let n = vertex_normal(i0);
            &&& 0 <= i0 < 24 && 0 <= i1 < 24 && 0 <= i2 < 24
            &&& is_unit_axis(n)
            &&& cross(minus(signs[i1], signs[i0]), minus(signs[i2], signs[i0])) == (4 * n.0, 4 * n.1, 4 * n.2)
        }),
{
    let (i0, i1, i2) = (cube_index(3 * t), cube_index(3 * t + 1), cube_index(3 * t + 2));
    let signs = corner_signs();
    let n = vertex_normal(i0);
    let w = cross(minus(signs[i1], signs[i0]), minus(signs[i2], signs[i0]));
    if t == 0 {
        assert(i0 == 0 && i1 == 1 && i2 == 2);
        assert(minus(signs[i1], signs[i0]) == (-2int, 0int, 0int));
        assert(minus(signs[i2], signs[i0]) == (-2int, 2int, 0int));
        assert(w == cross((-2int, 0int, 0int), (-2int, 2int, 0int)));
        assert(n == (0int, 0int, -1int));
        assert(cross((-2int, 0int, 0int), (-2int, 2int, 0int)) == (0int, 0int, -4int)) by (nonlinear_arith);
    } else if t == 1 {
        assert(i0 == 2 && i1 == 3 && i2 == 0);
        assert(minus(signs[i1], signs[i0]) == (2int, 0int, 0int));
        assert(minus(signs[i2], signs[i0]) == (2int, -2int, 0int));
        assert(w == cross((2int, 0int, 0int), (2int, -2int, 0int)));
        assert(n == (0int, 0int, -1int));
        assert(cross((2int, 0int, 0int), (2int, -2int, 0int)) == (0int, 0int, -4int)) by (nonlinear_arith);
    } else if t == 2 {
        assert(i0 == 4 && i1 == 5 && i2 == 6);
        assert(minus(signs[i1], signs[i0]) == (2int, 0int, 0int));
        assert(minus(signs[i2], signs[i0]) == (2int, 2int, 0int));
        assert(w == cross((2int, 0int, 0int), (2int, 2int, 0int)));
        assert(n == (0int, 0int, 1int));
        assert(cross((2int, 0int, 0int), (2int, 2int, 0int)) == (0int, 0int, 4int)) by (nonlinear_arith);
    } else if t == 3 {
        assert(i0 == 6 && i1 == 7 && i2 == 4);
        assert(minus(signs[i1], signs[i0]) == (-2int, 0int, 0int));
        assert(minus(signs[i2], signs[i0]) == (-2int, -2int, 0int));
        assert(w == cross((-2int, 0int, 0int), (-2int, -2int, 0int)));
        assert(n == (0int, 0int, 1int));
        assert(cross((-2int, 0int, 0int), (-2int, -2int, 0int)) == (0int, 0int, 4int)) by (nonlinear_arith);
    } else if t == 4 {
        assert(i0 == 8 && i1 == 9 && i2 == 10);
        assert(minus(signs[i1], signs[i0]) == (0int, 0int, -2int));
        assert(minus(signs[i2], signs[i0]) == (0int, 2int, -2int));
        assert(w == cross((0int, 0int, -2int), (0int, 2int, -2int)));
        assert(n == (1int, 0int, 0int));
        assert(cross((0int, 0int, -2int), (0int, 2int, -2int)) == (4int, 0int, 0int)) by (nonlinear_arith);
    } else if t == 5 {
        assert(i0 == 10 && i1 == 11 && i2 == 8);
        assert(minus(signs[i1], signs[i0]) == (0int, 0int, 2int));
        assert(minus(signs[i2], signs[i0]) == (0int, -2int, 2int));
        assert(w == cross((0int, 0int, 2int), (0int, -2int, 2int)));
        assert(n == (1int, 0int, 0int));
        assert(cross((0int, 0int, 2int), (0int, -2int, 2int)) == (4int, 0int, 0int)) by (nonlinear_arith);
    } else if t == 6 {
        assert(i0 == 12 && i1 == 13 && i2 == 14);
        assert(minus(signs[i1], signs[i0]) == (0int, 0int, 2int));
        assert(minus(signs[i2], signs[i0]) == (0int, 2int, 2int));
        assert(w == cross((0int, 0int, 2int), (0int, 2int, 2int)));
        assert(n == (-1int, 0int, 0int));
        assert(cross((0int, 0int, 2int), (0int, 2int, 2int)) == (-4int, 0int, 0int)) by (nonlinear_arith);
    } else if t == 7 {
        assert(i0 == 14 && i1 == 15 && i2 == 12);
        assert(minus(signs[i1], signs[i0]) == (0int, 0int, -2int));
        assert(minus(signs[i2], signs[i0]) == (0int, -2int, -2int));
        assert(w == cross((0int, 0int, -2int), (0int, -2int, -2int)));
        assert(n == (-1int, 0int, 0int));
        assert(cross((0int, 0int, -2int), (0int, -2int, -2int)) == (-4int, 0int, 0int)) by (nonlinear_arith);
    } else if t == 8 {
        assert(i0 == 16 && i1 == 17 && i2 == 18);
        assert(minus(signs[i1], signs[i0]) == (2int, 0int, 0int));
        assert(minus(signs[i2], signs[i0]) == (2int, 0int, 2int));
        assert(w == cross((2int, 0int, 0int), (2int, 0int, 2int)));
        assert(n == (0int, -1int, 0int));
        assert(cross((2int, 0int, 0int), (2int, 0int, 2int)) == (0int, -4int, 0int)) by (nonlinear_arith);
    } else if t == 9 {
        assert(i0 == 18 && i1 == 19 && i2 == 16);
        assert(minus(signs[i1], signs[i0]) == (-2int, 0int, 0int));
        assert(minus(signs[i2], signs[i0]) == (-2int, 0int, -2int));
        assert(w == cross((-2int, 0int, 0int), (-2int, 0int, -2int)));
        assert(n == (0int, -1int, 0int));
        assert(cross((-2int, 0int, 0int), (-2int, 0int, -2int)) == (0int, -4int, 0int)) by (nonlinear_arith);
    } else if t == 10 {
        assert(i0 == 20 && i1 == 21 && i2 == 22);
        assert(minus(signs[i1], signs[i0]) == (-2int, 0int, 0int));
        assert(minus(signs[i2], signs[i0]) == (-2int, 0int, 2int));
        assert(w == cross((-2int, 0int, 0int), (-2int, 0int, 2int)));
        assert(n == (0int, 1int, 0int));
        assert(cross((-2int, 0int, 0int), (-2int, 0int, 2int)) == (0int, 4int, 0int)) by (nonlinear_arith);
    } else if t == 11 {
        assert(i0 == 22 && i1 == 23 && i2 == 20);
        assert(minus(signs[i1], signs[i0]) == (2int, 0int, 0int));
        assert(minus(signs[i2], signs[i0]) == (2int, 0int, -2int));
        assert(w == cross((2int, 0int, 0int), (2int, 0int, -2int)));
        assert(n == (0int, 1int, 0int));
        assert(cross((2int, 0int, 0int), (2int, 0int, -2int)) == (0int, 4int, 0int)) by (nonlinear_arith);
    }
}

proof fn lemma_along_axis(a: int, b: int, d: int, n: Vec3)
    requires
        a > 0,
        b > 0,
        d > 0,
        is_unit_axis(n),
    ensures
        points_along((a * n.0, b * n.1, d * n.2), n),
{
    let (n0, n1, n2) = (n.0, n.1, n.2);
    assert(a * n0 * n0 + b * n1 * n1 + d * n2 * n2 > 0 && b * n1 * n2 - d * n2 * n1 == 0
        && d * n2 * n0 - a * n0 * n2 == 0 && a * n0 * n1 - b * n1 * n0 == 0) by (nonlinear_arith)
        requires
            a > 0,
            b > 0,
            d > 0,
            (n0 == 1 || n0 == -1) && n1 == 0 && n2 == 0 || n0 == 0 && (n1 == 1 || n1 == -1) && n2 == 0
                || n0 == 0 && n1 == 0 && (n2 == 1 || n2 == -1),
    ;
}

proof fn lemma_triangle_winding(size: [u32; 3], t: int)
    requires
        0 <= t < 12,
        size[0] > 0,
        size[1] > 0,
        size[2] > 0,
    ensures
        points_along(winding_normal(size, t), vertex_normal(cube_index(3 * t))),
{
    let (x, y, z) = (size[0] as int, size[1] as int, size[2] as int);
    let (i0, i1, i2) = (cube_index(3 * t), cube_index(3 * t + 1), cube_index(3 * t + 2));
    let signs = corner_signs();
    lemma_sign_winding(t);
    lemma_corner_scaled(size, i0);
    lemma_corner_scaled(size, i1);
    lemma_corner_scaled(size, i2);
    lemma_cross_scaled(signs[i0], signs[i1], signs[i2], x, y, z);
    let n = vertex_normal(i0);
    let (n0, n1, n2) = (n.0, n.1, n.2);
    assert(y * z * (4 * n0) == (4 * y * z) * n0 && x * z * (4 * n1) == (4 * x * z) * n1
        && x * y * (4 * n2) == (4 * x * y) * n2) by (nonlinear_arith);
    assert(4 * y * z > 0 && 4 * x * z > 0 && 4 * x * y > 0) by (nonlinear_arith)
        requires
            x > 0,
            y > 0,
            z > 0,
    ;
    lemma_along_axis(4 * y * z, 4 * x * z, 4 * x * y, n);
}

/// For a box with positive extents, each of the twelve triangles winds
/// counter-clockwise seen from outside: the cross product of its first two
/// edges points along the normal stored in its vertices.
pub proof fn lemma_winding(size: [u32; 3])
    requires
        size[0] > 0,
        size[1] > 0,
        size[2] > 0,
    ensures
        forall|t: int|
            0 <= t < 12 ==> points_along(
                #[trigger] winding_normal(size, t),
                vertex_normal(cube_index(3 * t)),
            ),
{
    assert forall|t: int| 0 <= t < 12 implies points_along(
        #[trigger] winding_normal(size, t),
        vertex_normal(cube_index(3 * t)),
    ) by {
        lemma_triangle_winding(size, t);
    }
}

} // verus!

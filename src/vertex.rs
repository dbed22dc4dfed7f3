use vstd::prelude::*;

verus! {

/// One corner of one face of a mesh.
///
/// `position` is kept doubled (in half-units of the mesh's size unit), so that
/// the half-extent of an odd size stays exact. `normal` is the face's outward
/// normal and `color` holds RGBA channels, 255 being full intensity.
#[derive(Clone, Copy, Debug, PartialEq, Eq)]
pub struct Vertex {
    pub position: [i64; 3],
    pub normal: [i8; 3],
    pub color: [u8; 4],
}

/// Opaque white.
pub const WHITE: [u8; 4] = [255, 255, 255, 255];

pub open spec fn is_white(c: [u8; 4]) -> bool {
    c[0] == 255 && c[1] == 255 && c[2] == 255 && c[3] == 255
}

} // verus!

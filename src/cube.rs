use vstd::prelude::*;
use crate::rect::{Plane, axes_of, split_axes};

verus! {

/// Number of rectangles a box is made of.
pub const CUBE_FACES: usize = 6;

/// One face of an axis-aligned box: a rectangle in `plane` spanning
/// `[a0, a1] × [b0, b1]` at `k` along the fixed axis. A face on the minimum
/// side of the box is `flipped`, so that its normal points out of the box.
#[derive(Debug)]
pub struct CubeFace<T> {
    pub plane: Plane,
    pub a0: T,
    pub a1: T,
    pub b0: T,
    pub b1: T,
    pub k: T,
    pub flipped: bool,
}

/// The plane of face `index`: two faces each for `XY`, `ZX` and `YZ`.
pub open spec fn face_plane(index: nat) -> Plane {
    if index / 2 == 0 {
        Plane::XY
    } else if index / 2 == 1 {
        Plane::ZX
    } else {
        Plane::YZ
    }
}

/// Whether face `index` lies on the maximum side of the box along its fixed
/// axis (even indices) rather than the minimum side (odd indices).
pub open spec fn face_at_max(index: nat) -> bool {
    index % 2 == 0
}

/// The index of the face in `plane` on the given side.
pub open spec fn face_index(plane: Plane, at_max: bool) -> nat {
    let pair: nat = match plane {
        Plane::XY => 0,
        Plane::ZX => 1,
        Plane::YZ => 2,
    };
    2 * pair + if at_max { 0nat } else { 1nat }
}

/// Face `index` (0 to 5) of the box with opposite corners `p0` and `p1`
/// (`p0 <= p1` componentwise): its rectangle spans the box along the two
/// in-plane axes and sits at the box's extreme along the fixed axis.
pub fn cube_face<T: Copy>(p0: &[T; 3], p1: &[T; 3], index: usize) -> (r: CubeFace<T>)
    requires
        index < CUBE_FACES,
    ensures
        r.plane == face_plane(index as nat),
        r.flipped == !face_at_max(index as nat),
        r.k == if face_at_max(index as nat) {
            p1@[axes_of(r.plane).0 as int]
        } else {
            p0@[axes_of(r.plane).0 as int]
        },
        r.a0 == p0@[axes_of(r.plane).1 as int],
        r.a1 == p1@[axes_of(r.plane).1 as int],
        r.b0 == p0@[axes_of(r.plane).2 as int],
        r.b1 == p1@[axes_of(r.plane).2 as int],
{
    let plane = if index / 2 == 0 {
        Plane::XY
    } else if index / 2 == 1 {
        Plane::ZX
    } else {
        Plane::YZ
    };
    let at_max = index % 2 == 0;
    let (k0, a0, b0) = split_axes(&plane, p0);
    let (k1, a1, b1) = split_axes(&plane, p1);
    CubeFace { plane, a0, a1, b0, b1, k: if at_max { k1 } else { k0 }, flipped: !at_max }
}

/// The six faces of a box are its two sides along each of the three axes,
/// each taken once: every plane and side is face `face_index` of them, and
/// no other face index has the same plane and side.
pub proof fn lemma_faces_cover_box(plane: Plane, at_max: bool, index: nat)
    ensures
        face_index(plane, at_max) < CUBE_FACES,
        face_plane(face_index(plane, at_max)) == plane,
        face_at_max(face_index(plane, at_max)) == at_max,
        index < CUBE_FACES && face_plane(index) == plane && face_at_max(index) == at_max ==> index
            == face_index(plane, at_max),
{
}

} // verus!

use vstd::prelude::*;

verus! {

/// The coordinate plane an axis-aligned rectangle lies in. The axis that is
/// not part of the plane is held constant: `YZ` fixes x, `ZX` fixes y and
/// `XY` fixes z.
#[derive(Clone, Copy, Debug, PartialEq, Eq, Structural)]
pub enum Plane {
    YZ,
    ZX,
    XY,
}

/// Index (0 = x, 1 = y, 2 = z) of the axis that a rectangle in `plane` holds
/// constant: the direction of its normal.
pub open spec fn fixed_axis(plane: Plane) -> nat {
    match plane {
        Plane::YZ => 0,
        Plane::ZX => 1,
        Plane::XY => 2,
    }
}

/// The rectangle's own axes `(k, a, b)`: `k` is the fixed axis, and the two
/// in-plane axes `a` and `b` follow it cyclically, so that `a × b` points
/// along `+k`.
pub open spec fn axes_of(plane: Plane) -> (nat, nat, nat) {
    let k = fixed_axis(plane);
    (k, (k + 1) % 3, (k + 2) % 3)
}

/// Whether `(k, a, b)` lists each of the three axes exactly once.
pub open spec fn is_axis_permutation(t: (nat, nat, nat)) -> bool {
    &&& t.0 < 3 && t.1 < 3 && t.2 < 3
    &&& t.0 != t.1 && t.1 != t.2 && t.0 != t.2
}

/// The fixed axis and the two in-plane axes of a rectangle in `plane`, as
/// `(k_axis, a_axis, b_axis)`.
pub fn get_axis(plane: &Plane) -> (r: (usize, usize, usize))
    ensures
        (r.0 as nat, r.1 as nat, r.2 as nat) == axes_of(*plane),
        is_axis_permutation((r.0 as nat, r.1 as nat, r.2 as nat)),
{
    match plane {
        Plane::YZ => (0, 1, 2),
        Plane::ZX => (1, 2, 0),
        Plane::XY => (2, 0, 1),
    }
}

/// The coordinates of `p` in a rectangle's own order `(k, a, b)`: the
/// coordinate along the fixed axis, then the two in-plane coordinates.
pub fn split_axes<T: Copy>(plane: &Plane, p: &[T; 3]) -> (r: (T, T, T))
    ensures
        r.0 == p@[axes_of(*plane).0 as int],
        r.1 == p@[axes_of(*plane).1 as int],
        r.2 == p@[axes_of(*plane).2 as int],
{
    let (k_axis, a_axis, b_axis) = get_axis(plane);
    (p[k_axis], p[a_axis], p[b_axis])
}

/// The point whose coordinate along the fixed axis of `plane` is `k` and
/// whose in-plane coordinates are `a` and `b`. A rectangle builds its unit
/// normal (`k = 1`, `a = b = 0`), its bounding-box corners and its sampled
/// points this way.
pub fn join_axes<T: Copy>(plane: &Plane, k: T, a: T, b: T) -> (r: [T; 3])
    ensures
        r@[axes_of(*plane).0 as int] == k,
        r@[axes_of(*plane).1 as int] == a,
        r@[axes_of(*plane).2 as int] == b,
{
    match plane {
        Plane::YZ => [k, a, b],
        Plane::ZX => [b, k, a],
        Plane::XY => [a, b, k],
    }
}

/// Splitting a point and joining the parts again for the same plane loses
/// nothing: a point that agrees with `p` on the fixed axis and on both
/// in-plane axes of `plane` is `p` itself.
pub proof fn lemma_split_join_inverse<T>(plane: Plane, p: Seq<T>, q: Seq<T>)
    requires
        p.len() == 3,
        q.len() == 3,
        q[axes_of(plane).0 as int] == p[axes_of(plane).0 as int],
        q[axes_of(plane).1 as int] == p[axes_of(plane).1 as int],
        q[axes_of(plane).2 as int] == p[axes_of(plane).2 as int],
    ensures
        q == p,
{
    assert(q =~= p);
}

/// A normal built by `join_axes(plane, 1, 0, 0)` is a unit vector, and so is
/// its negation (the normal of a flipped rectangle), in exact arithmetic.
pub proof fn lemma_axis_normal_unit(plane: Plane, n: Seq<int>)
    requires
        n.len() == 3,
        n[axes_of(plane).0 as int] == 1,
        n[axes_of(plane).1 as int] == 0,
        n[axes_of(plane).2 as int] == 0,
    ensures
        n[0] * n[0] + n[1] * n[1] + n[2] * n[2] == 1,
        (-n[0]) * (-n[0]) + (-n[1]) * (-n[1]) + (-n[2]) * (-n[2]) == 1,
{
    match plane {
        Plane::YZ => assert(n[0] == 1 && n[1] == 0 && n[2] == 0),
        Plane::ZX => assert(n[1] == 1 && n[2] == 0 && n[0] == 0),
        Plane::XY => assert(n[2] == 1 && n[0] == 0 && n[1] == 0),
    }
    assert((-n[0]) * (-n[0]) + (-n[1]) * (-n[1]) + (-n[2]) * (-n[2]) == n[0] * n[0] + n[1]
        * n[1] + n[2] * n[2]) by (nonlinear_arith);
}

/// A point that a rectangle in `plane` can report lies in the rectangle's
/// bounding box: the box joined from `(k - pad, a0, b0)` and
/// `(k + pad, a1, b1)` holds every point whose coordinates split as
/// `(k, a, b)` with `a0 <= a <= a1` and `b0 <= b <= b1`, in exact arithmetic.
pub proof fn lemma_hit_point_in_box(
    plane: Plane,
    p: Seq<int>,
    lo: Seq<int>,
    hi: Seq<int>,
    a0: int,
    a1: int,
    b0: int,
    b1: int,
    k: int,
    pad: int,
)
    requires
        p.len() == 3 && lo.len() == 3 && hi.len() == 3,
        pad >= 0,
        lo[axes_of(plane).0 as int] == k - pad,
        lo[axes_of(plane).1 as int] == a0,
        lo[axes_of(plane).2 as int] == b0,
        hi[axes_of(plane).0 as int] == k + pad,
        hi[axes_of(plane).1 as int] == a1,
        hi[axes_of(plane).2 as int] == b1,
        p[axes_of(plane).0 as int] == k,
        a0 <= p[axes_of(plane).1 as int] <= a1,
        b0 <= p[axes_of(plane).2 as int] <= b1,
    ensures
        forall|i: int| 0 <= i < 3 ==> lo[i] <= #[trigger] p[i] <= hi[i],
{
}

} // verus!

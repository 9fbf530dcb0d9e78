use vstd::prelude::*;

verus! {

/// Whether corner `index` (0 to 7) of a box takes the box's maximum along
/// `axis`: bit 0 of the index selects x, bit 1 selects y, bit 2 selects z.
pub open spec fn takes_max(index: nat, axis: nat) -> bool {
    if axis == 0 {
        index % 2 == 1
    } else if axis == 1 {
        (index / 2) % 2 == 1
    } else {
        (index / 4) % 2 == 1
    }
}

/// The index of the corner that takes the maximum along exactly the axes
/// marked `true`.
pub open spec fn corner_index(x_max: bool, y_max: bool, z_max: bool) -> nat {
    (if x_max { 1nat } else { 0nat }) + (if y_max { 2nat } else { 0nat }) + (if z_max {
        4nat
    } else {
        0nat
    })
}

/// Corner `index` of the box spanned by `min` and `max`. A rotated child's
/// box is enveloped by rotating these eight corners.
pub fn box_corner<T: Copy>(min: &[T; 3], max: &[T; 3], index: usize) -> (r: [T; 3])
    requires
        index < 8,
    ensures
        forall|axis: int|
            0 <= axis < 3 ==> #[trigger] r@[axis] == if takes_max(index as nat, axis as nat) {
                max@[axis]
            } else {
                min@[axis]
            },
{
    let x = if index % 2 == 1 { max[0] } else { min[0] };
    let y = if (index / 2) % 2 == 1 { max[1] } else { min[1] };
    let z = if (index / 4) % 2 == 1 { max[2] } else { min[2] };
    let r = [x, y, z];
    assert forall|axis: int| 0 <= axis < 3 implies #[trigger] r@[axis] == if takes_max(
        index as nat,
        axis as nat,
    ) {
        max@[axis]
    } else {
        min@[axis]
    } by {
        if axis == 0 {
        } else if axis == 1 {
        } else {
        }
    }
    r
}

/// The eight indices `0..8` name the eight corners of a box: each choice of
/// minimum or maximum per axis is corner `corner_index` of that choice, and
/// no other index makes the same choice.
pub proof fn lemma_corners_distinct(x_max: bool, y_max: bool, z_max: bool, index: nat)
    ensures
        corner_index(x_max, y_max, z_max) < 8,
        takes_max(corner_index(x_max, y_max, z_max), 0) == x_max,
        takes_max(corner_index(x_max, y_max, z_max), 1) == y_max,
        takes_max(corner_index(x_max, y_max, z_max), 2) == z_max,
        index < 8 && takes_max(index, 0) == x_max && takes_max(index, 1) == y_max && takes_max(
            index,
            2,
        ) == z_max ==> index == corner_index(x_max, y_max, z_max),
{
}

} // verus!

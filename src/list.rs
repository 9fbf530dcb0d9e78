use vstd::prelude::*;
use rand::Rng;

verus! {

/// Relies on rand's `Rng::gen_range` on the thread-local generator: a value
/// in `[low, high)`; it panics when `low >= high`, which `requires` excludes.
#[verifier::external_body]
fn random_below(n: usize) -> (r: usize)
    requires
        n > 0,
    ensures
        r < n,
{
    rand::thread_rng().gen_range(0, n)
}

/// The child of a list of `len` children that a direction toward the list is
/// sampled from: each child is drawn with equal chance, so the list's
/// density is the mean of its children's densities.
pub fn pick_child(len: usize) -> (r: usize)
    requires
        len > 0,
    ensures
        r < len,
{
    random_below(len)
}

} // verus!

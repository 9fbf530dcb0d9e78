use vstd::prelude::*;

verus! {

/// Depth at which the radiance estimator stops following a path: a hit at
/// this depth or deeper contributes only what its surface emits.
pub const MAX_DEPTH: u32 = 50;

/// How a material continued a path at a hit.
#[derive(Clone, Copy, Debug, PartialEq, Eq, Structural)]
pub enum ScatterKind {
    /// The material did not scatter: the path ends at the surface.
    Absorbed,
    /// A deterministic continuation (a mirror), weighted by attenuation only.
    Specular,
    /// A direction to be drawn from a PDF, weighted by attenuation times
    /// `scattering_pdf / pdf_value`.
    Diffuse,
}

/// What the estimator has learned about the ray it is working on.
#[derive(Clone, Copy, Debug, PartialEq, Eq, Structural)]
pub enum PathEvent {
    /// The ray hit nothing in `(0.001, +inf)`.
    Missed,
    /// The ray hit a surface; its emitted radiance is known.
    Hit,
    /// The hit surface's material was asked to scatter and answered.
    Scattered(ScatterKind),
}

/// What the estimator does next.
#[derive(Clone, Copy, Debug, PartialEq, Eq, Structural)]
pub enum PathAction {
    /// Return zero radiance: the background is black.
    ReturnBlack,
    /// Return the surface's emitted radiance and nothing more.
    ReturnEmitted,
    /// Ask the hit surface's material to scatter the ray.
    AskScatter,
    /// Return emitted plus attenuation times the radiance of the specular ray,
    /// traced at `next_depth`.
    TraceSpecular { next_depth: u32 },
    /// Return emitted plus the importance-weighted radiance of a direction
    /// drawn from the scatter PDF, traced at `next_depth`.
    TraceSampled { next_depth: u32 },
}

impl PathAction {
    /// Whether the action traces a further ray.
    pub open spec fn recurses(self) -> bool {
        self is TraceSpecular || self is TraceSampled
    }
}

/// The estimator's decision for a ray traced at `depth` with cap `max_depth`.
pub open spec fn path_step(depth: u32, max_depth: u32, event: PathEvent) -> PathAction {
    match event {
        PathEvent::Missed => PathAction::ReturnBlack,
        PathEvent::Hit => if depth < max_depth {
            PathAction::AskScatter
        } else {
            PathAction::ReturnEmitted
        },
        PathEvent::Scattered(kind) => if depth >= max_depth {
            PathAction::ReturnEmitted
        } else {
            match kind {
                ScatterKind::Absorbed => PathAction::ReturnEmitted,
                ScatterKind::Specular => PathAction::TraceSpecular { next_depth: (depth + 1) as u32 },
                ScatterKind::Diffuse => PathAction::TraceSampled { next_depth: (depth + 1) as u32 },
            }
        },
    }
}

/// One decision of the recursive radiance estimator. A miss is black; a hit
/// below the depth cap asks its material to scatter, and a hit at or beyond
/// the cap returns its emitted radiance only; an absorbed path returns its
/// emitted radiance; a scattered path is traced one level deeper.
pub fn next_action(depth: u32, max_depth: u32, event: PathEvent) -> (r: PathAction)
    ensures
        r == path_step(depth, max_depth, event),
        r.recurses() ==> depth < max_depth,
        r matches PathAction::TraceSpecular { next_depth } ==> next_depth == depth + 1,
        r matches PathAction::TraceSampled { next_depth } ==> next_depth == depth + 1,
{
    match event {
        PathEvent::Missed => PathAction::ReturnBlack,
        PathEvent::Hit => {
            if depth < max_depth {
                PathAction::AskScatter
            } else {
                PathAction::ReturnEmitted
            }
        },
        PathEvent::Scattered(kind) => {
            if depth >= max_depth {
                PathAction::ReturnEmitted
            } else {
                match kind {
                    ScatterKind::Absorbed => PathAction::ReturnEmitted,
                    ScatterKind::Specular => PathAction::TraceSpecular { next_depth: depth + 1 },
                    ScatterKind::Diffuse => PathAction::TraceSampled { next_depth: depth + 1 },
                }
            }
        },
    }
}

/// With the depth cap at zero, a hit returns exactly its emitted radiance and
/// no event ever leads to a further ray being traced.
pub proof fn lemma_zero_cap_returns_emitted(depth: u32, event: PathEvent)
    ensures
        path_step(depth, 0, PathEvent::Hit) == PathAction::ReturnEmitted,
        !path_step(depth, 0, event).recurses(),
{
}

/// A path is never traced beyond the cap: every further ray is traced exactly
/// one level deeper, and only from below the cap, so a path started at depth 0
/// holds at most `max_depth` bounces.
pub proof fn lemma_depth_bounded(depth: u32, max_depth: u32, event: PathEvent)
    ensures
        path_step(depth, max_depth, event).recurses() ==> depth + 1 <= max_depth,
        path_step(depth, max_depth, event) matches PathAction::TraceSpecular { next_depth }
            ==> next_depth == depth + 1,
        path_step(depth, max_depth, event) matches PathAction::TraceSampled { next_depth }
            ==> next_depth == depth + 1,
{
}

} // verus!

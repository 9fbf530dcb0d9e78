//! The exact side of a Monte Carlo path tracer: how an axis-aligned
//! rectangle maps its plane onto the three coordinate axes, how a box is
//! split into corners and faces, how a list of shapes picks the child to
//! sample, when the recursive radiance estimator stops following a path, and
//! in which order the pixel driver writes image pixels.

pub mod rect;
pub mod aabb;
pub mod cube;
pub mod list;
pub mod integrator;
pub mod image;

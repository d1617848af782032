//! The decisions of a Monte-Carlo path tracer, stated and proved over integers:
//! the depth-bounded random walk, the nearest hit among a scene's members, which
//! root of the ray-sphere quadratic counts as a hit, the dielectric's choice
//! between reflection and refraction, and the layout of the RGBA output buffer.

pub mod image;
pub mod nearest;
pub mod order;
pub mod scatter;
pub mod sphere;
pub mod walk;

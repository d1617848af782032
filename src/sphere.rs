use vstd::prelude::*;

use crate::order::{in_open_range, within};

verus! {

/// A root of the ray-sphere quadratic.
#[derive(Clone, Copy, Debug, PartialEq, Eq, Structural)]
pub enum Root {
    /// `(-b - sqrt(discriminant)) / a`, where the ray enters the sphere.
    Near,
    /// `(-b + sqrt(discriminant)) / a`, where the ray leaves it.
    Far,
}

/// Which root a sphere reports as its hit over the open range `(t_min, t_max)`,
/// all four given as single-precision bit patterns: the near root when it lies
/// in the range, else the far root when it does, else none.
pub fn choose_root(t_min: u32, t_max: u32, near: u32, far: u32) -> (r: Option<Root>)
    ensures
        r == (if in_open_range(t_min, near, t_max) {
            Some(Root::Near)
        } else if in_open_range(t_min, far, t_max) {
            Some(Root::Far)
        } else {
            None
        }),
{
    if within(t_min, near, t_max) {
        Some(Root::Near)
    } else if within(t_min, far, t_max) {
        Some(Root::Far)
    } else {
        None
    }
}

} // verus!

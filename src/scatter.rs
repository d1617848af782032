use vstd::prelude::*;

verus! {

/// Which way a ray leaves a dielectric surface.
#[derive(Clone, Copy, Debug, PartialEq, Eq, Structural)]
pub enum Bounce {
    Reflect,
    Refract,
}

/// The dielectric's choice between reflection and refraction. `refracts` tells
/// whether Snell's law gives a transmitted direction (false under total internal
/// reflection); `draw_exceeds_reflectance` whether the uniform draw came out
/// above the Schlick reflectance. Without a transmitted direction the ray is
/// always reflected.
pub fn dielectric_bounce(refracts: bool, draw_exceeds_reflectance: bool) -> (r: Bounce)
    ensures
        r == (if refracts && draw_exceeds_reflectance {
            Bounce::Refract
        } else {
            Bounce::Reflect
        }),
{
    if refracts {
        if draw_exceeds_reflectance {
            Bounce::Refract
        } else {
            Bounce::Reflect
        }
    } else {
        Bounce::Reflect
    }
}

} // verus!

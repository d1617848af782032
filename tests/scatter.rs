use rand::rngs::StdRng;
use rand::{Rng, SeedableRng};
use raytrace::scatter::{dielectric_bounce, Bounce};

#[test]
fn refracts_when_draw_exceeds_reflectance() {
    assert_eq!(dielectric_bounce(true, true), Bounce::Refract);
}

#[test]
fn reflects_when_draw_is_below_reflectance() {
    assert_eq!(dielectric_bounce(true, false), Bounce::Reflect);
}

#[test]
fn total_internal_reflection_always_reflects() {
    assert_eq!(dielectric_bounce(false, true), Bounce::Reflect);
    assert_eq!(dielectric_bounce(false, false), Bounce::Reflect);
}

#[test]
fn head_on_dielectric_mostly_refracts() {
    let ref_idx: f32 = 1.5;
    let cosine: f32 = 1.0;
    let r0 = ((1.0 - ref_idx) / (1.0 + ref_idx)).powi(2);
    let reflectance = r0 + (1.0 - r0) * (1.0 - cosine).powi(5);
    assert!((reflectance - 0.04).abs() < 1e-6);

    let mut rng = StdRng::seed_from_u64(7);
    let mut refracted = 0;
    for _ in 0..1000 {
        let draw: f32 = rng.gen();
        if dielectric_bounce(true, reflectance < draw) == Bounce::Refract {
            refracted += 1;
        }
    }
    assert!(refracted >= 900, "{} of 1000 refracted", refracted);
}

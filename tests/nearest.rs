use raytrace::nearest::closest_hit;
use raytrace::order::ordered_key;

fn key(t: f32) -> u32 {
    ordered_key(t.to_bits())
}

#[test]
fn keys_follow_float_order() {
    let values = [-1.0e30f32, -2.5, -1.0, -1.0e-40, 0.0, 1.0e-40, 0.001, 0.5, 1.0, 2.0, 1.0e30];
    for w in values.windows(2) {
        assert!(key(w[0]) < key(w[1]), "{} < {}", w[0], w[1]);
    }
    assert!(key(f32::NEG_INFINITY) < key(f32::MIN));
    assert!(key(f32::MAX) < key(f32::INFINITY));
}

#[test]
fn both_zeros_share_a_key() {
    assert_eq!(key(0.0), key(-0.0));
    assert_eq!(key(0.0), 0x8000_0000);
}

#[test]
fn key_values() {
    assert_eq!(ordered_key(0x3F80_0000), 0xBF80_0000);
    assert_eq!(ordered_key(0xBF80_0000), 0x4080_0000);
    assert_eq!(ordered_key(0xFFFF_FFFF), 1);
    assert_eq!(ordered_key(0x7FFF_FFFF), 0xFFFF_FFFF);
}

#[test]
fn empty_scene_has_no_hit() {
    assert_eq!(closest_hit(&vec![]), None);
}

#[test]
fn all_missed_has_no_hit() {
    assert_eq!(closest_hit(&vec![None, None, None]), None);
}

#[test]
fn nearest_member_wins() {
    let keys = vec![Some(key(3.0)), None, Some(key(0.5)), Some(key(2.0))];
    assert_eq!(closest_hit(&keys), Some(2));
}

#[test]
fn first_of_equal_hits_wins() {
    let keys = vec![None, Some(key(1.5)), Some(key(1.5)), Some(key(4.0))];
    assert_eq!(closest_hit(&keys), Some(1));
}

#[test]
fn nearer_replacement_takes_over() {
    let mut keys = vec![Some(key(3.0)), Some(key(1.0)), None, Some(key(2.0))];
    assert_eq!(closest_hit(&keys), Some(1));
    keys[3] = Some(key(0.75));
    assert_eq!(closest_hit(&keys), Some(3));
    keys[2] = Some(key(0.25));
    assert_eq!(closest_hit(&keys), Some(2));
}

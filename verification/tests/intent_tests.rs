use platformer_core::fixed::SCALE;
use platformer_core::intent::{axis_value, intent_vector, normalize_intent, KeySet, DIAG};
use platformer_core::vec3::Vec3Fx;

fn keys(forward: bool, back: bool, left: bool, right: bool) -> KeySet {
    KeySet { forward, back, left, right, jump: false }
}

#[test]
fn opposing_keys_cancel_each_axis() {
    assert_eq!(axis_value(true, true), 0);
    assert_eq!(axis_value(false, false), 0);
    assert_eq!(axis_value(true, false), -1);
    assert_eq!(axis_value(false, true), 1);

    let v = intent_vector(&keys(true, true, false, false));
    assert_eq!(v.z, 0);
    let v = intent_vector(&keys(false, false, true, true));
    assert_eq!(v.x, 0);
    let v = intent_vector(&keys(true, true, true, true));
    assert_eq!((v.x, v.y, v.z), (0, 0, 0));
}

#[test]
fn intent_axes_follow_keys() {
    let v = intent_vector(&keys(true, false, false, false));
    assert_eq!((v.x, v.y, v.z), (0, 0, -1));
    let v = intent_vector(&keys(false, true, false, false));
    assert_eq!((v.x, v.y, v.z), (0, 0, 1));
    let v = intent_vector(&keys(false, false, true, false));
    assert_eq!((v.x, v.y, v.z), (-1, 0, 0));
    let v = intent_vector(&keys(false, false, false, true));
    assert_eq!((v.x, v.y, v.z), (1, 0, 0));
}

#[test]
fn normalize_zero_stays_zero() {
    let r = normalize_intent(Vec3Fx { x: 0, y: 0, z: 0 });
    assert_eq!((r.x, r.y, r.z), (0, 0, 0));
}

#[test]
fn normalize_axis_vectors_have_unit_length() {
    let r = normalize_intent(Vec3Fx { x: 1, y: 0, z: 0 });
    assert_eq!((r.x, r.y, r.z), (SCALE, 0, 0));
    let r = normalize_intent(Vec3Fx { x: -1, y: 0, z: 0 });
    assert_eq!((r.x, r.y, r.z), (-SCALE, 0, 0));
    let r = normalize_intent(Vec3Fx { x: 0, y: 0, z: 1 });
    assert_eq!((r.x, r.y, r.z), (0, 0, SCALE));
    let r = normalize_intent(Vec3Fx { x: 0, y: 0, z: -1 });
    assert_eq!((r.x, r.y, r.z), (0, 0, -SCALE));
    // Exactly one squared unit on a single axis.
    assert_eq!(r.x * r.x + r.y * r.y + r.z * r.z, SCALE * SCALE);
}

#[test]
fn normalize_diagonals_close_to_unit_length() {
    let cases = [(1i64, 1i64), (1, -1), (-1, 1), (-1, -1)];
    for (x, z) in cases {
        let r = normalize_intent(Vec3Fx { x, y: 0, z });
        assert_eq!(r.x, x * DIAG);
        assert_eq!(r.z, z * DIAG);
        let norm_sq = r.x * r.x + r.y * r.y + r.z * r.z;
        let unit_sq = SCALE * SCALE;
        // Within one thousandth of a unit of exact unit length.
        assert!((norm_sq - unit_sq).abs() < 2 * SCALE);
    }
}

#[test]
fn normalize_against_float_reference() {
    let r = normalize_intent(Vec3Fx { x: 1, y: 0, z: -1 });
    let fx = r.x as f64 / SCALE as f64;
    let fz = r.z as f64 / SCALE as f64;
    let len = (fx * fx + fz * fz).sqrt();
    assert!((len - 1.0).abs() < 1e-5);
    assert!((fx - std::f64::consts::FRAC_1_SQRT_2).abs() < 1e-5);
}

//! Fixed-point arithmetic: truncation, saturation and totality.

use velyst::geom::{Affine, Vec2};
use velyst::num::{fp_add, fp_div, fp_mul, ONE};

#[test]
fn multiplication_rescales_and_truncates_toward_zero() {
    assert_eq!(fp_mul(ONE, ONE), ONE);
    assert_eq!(fp_mul(2 * ONE, 3 * ONE), 6 * ONE);
    assert_eq!(fp_mul(ONE / 2, ONE / 2), ONE / 4);
    assert_eq!(fp_mul(-3 * ONE, 2 * ONE), -6 * ONE);
    // 1/65536 of a unit squared truncates to zero, also for negatives.
    assert_eq!(fp_mul(1, 1), 0);
    assert_eq!(fp_mul(-1, 1), 0);
}

#[test]
fn division_is_total_and_truncates_toward_zero() {
    assert_eq!(fp_div(6 * ONE, 3 * ONE), 2 * ONE);
    assert_eq!(fp_div(-6 * ONE, 3 * ONE), -2 * ONE);
    assert_eq!(fp_div(6 * ONE, -3 * ONE), -2 * ONE);
    assert_eq!(fp_div(ONE, 3 * ONE), 21845);
    assert_eq!(fp_div(-ONE, 3 * ONE), -21845);
    // A zero divisor yields zero rather than failing.
    assert_eq!(fp_div(5 * ONE, 0), 0);
}

#[test]
fn results_out_of_range_saturate() {
    assert_eq!(fp_mul(i64::MAX, i64::MAX), i64::MAX);
    assert_eq!(fp_mul(i64::MAX, i64::MIN), i64::MIN);
    assert_eq!(fp_add(i64::MAX, 1), i64::MAX);
    assert_eq!(fp_add(i64::MIN, -1), i64::MIN);
    assert_eq!(fp_add(3, 4), 7);
}

#[test]
fn affine_composition_applies_the_right_operand_first() {
    let translate = Affine::translate(Vec2 { x: 10 * ONE, y: 0 });
    let scale = Affine::scale(2 * ONE, 2 * ONE);
    // Scale-then-translate leaves the offset alone ...
    let st = translate.pre_concat(&scale);
    assert_eq!((st.xx, st.tx), (2 * ONE, 10 * ONE));
    // ... translate-then-scale magnifies it.
    let ts = scale.pre_concat(&translate);
    assert_eq!((ts.xx, ts.tx), (2 * ONE, 20 * ONE));
    assert_eq!(ts, translate.post_concat(&scale));
}

#[test]
fn identity_composition_is_exact() {
    let t = Affine { xx: 3 * ONE, yx: 5, xy: -7, yy: ONE / 2, tx: 11, ty: -13 };
    assert_eq!(Affine::identity().pre_concat(&t), t);
    assert_eq!(t.pre_concat(&Affine::identity()), t);
}

#[test]
fn inversion_undoes_a_translation_and_rejects_singular_maps() {
    let t = Affine::translate(Vec2 { x: 3 * ONE, y: -2 * ONE });
    let inv = t.invert().expect("translations are invertible");
    assert_eq!(t.pre_concat(&inv), Affine::identity());
    assert_eq!(inv.pre_concat(&t), Affine::identity());
    assert!(Affine::scale(0, 0).invert().is_none());
    assert!(Affine::scale(ONE, 0).invert().is_none());
}

use torus_cam::fx::HALF_TURN;
use torus_cam::fx::QUARTER_TURN;
use torus_cam::fx::SCALE;
use torus_cam::fx::TURN;
use torus_cam::fx::cos_turns;
use torus_cam::fx::fx_div;
use torus_cam::fx::fx_mul;
use torus_cam::fx::i64_div_trunc;
use torus_cam::fx::norm_turn;
use torus_cam::fx::sin_turns;

#[test]
fn division_truncates_toward_zero() {
    assert_eq!(i64_div_trunc(7, 2), 3);
    assert_eq!(i64_div_trunc(-7, 2), -3);
    assert_eq!(i64_div_trunc(0, 5), 0);
}

#[test]
fn fixed_point_products_rescale() {
    // 1.5 * 1.5 == 2.25.
    assert_eq!(fx_mul(1_500_000, 1_500_000), 2_250_000);
    assert_eq!(fx_mul(-1_500_000, 1_500_000), -2_250_000);
    // 3.0 / 2.0 == 1.5.
    assert_eq!(fx_div(3_000_000, 2_000_000), 1_500_000);
    assert_eq!(fx_div(-3_000_000, 2_000_000), -1_500_000);
}

#[test]
fn angles_normalize_into_one_turn() {
    assert_eq!(norm_turn(0), 0);
    assert_eq!(norm_turn(TURN), 0);
    assert_eq!(norm_turn(TURN + 1), 1);
    assert_eq!(norm_turn(-1), TURN - 1);
    assert_eq!(norm_turn(-TURN - 250_000), 750_000);
}

#[test]
fn sine_is_exact_at_quarter_turns() {
    assert_eq!(sin_turns(0), 0);
    assert_eq!(sin_turns(QUARTER_TURN), SCALE);
    assert_eq!(sin_turns(HALF_TURN), 0);
    assert_eq!(sin_turns(3 * QUARTER_TURN), -SCALE);
    assert_eq!(sin_turns(-QUARTER_TURN), -SCALE);
}

#[test]
fn cosine_is_the_shifted_sine() {
    assert_eq!(cos_turns(0), SCALE);
    assert_eq!(cos_turns(QUARTER_TURN), 0);
    assert_eq!(cos_turns(HALF_TURN), -SCALE);
    assert_eq!(cos_turns(3 * QUARTER_TURN), 0);
}

#[test]
fn sine_stays_within_unit_range() {
    let mut t: i64 = -TURN;
    while t <= 2 * TURN {
        let s = sin_turns(t);
        assert!((-SCALE..=SCALE).contains(&s));
        t += 12_347;
    }
}

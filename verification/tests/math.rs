use rsrender::fixed::{clamp, divide, lower, raise, within, LIMIT, UNIT};
use rsrender::math::{project, rotate, transform, Turn, ONE};

fn turn(cos: i64, sin: i64) -> Turn {
    Turn { cos: cos * 1_000, sin: sin * 1_000 }
}

#[test]
fn transform_makes_the_point() {
    assert_eq!(transform(1, -2, 3), [1, -2, 3]);
}

#[test]
fn zero_turn_is_cosine_one_sine_zero() {
    assert_eq!(ONE, 1_000_000);
    assert_eq!(Turn::zero(), Turn { cos: 1_000_000, sin: 0 });
    assert!(Turn::zero().check());
    assert!(turn(-1_000, 1_000).check());
    assert!(!Turn { cos: 1_000_001, sin: 0 }.check());
    assert!(!Turn { cos: 0, sin: -1_000_001 }.check());
}

#[test]
fn rotate_by_zero_returns_the_point() {
    assert_eq!(rotate(1_500, -2_250, 3_001, Turn::zero(), Turn::zero()), [1_500, -2_250, 3_001]);
    assert_eq!(rotate(0, 0, 0, Turn::zero(), Turn::zero()), [0, 0, 0]);
    assert_eq!(rotate(LIMIT, -LIMIT, LIMIT, Turn::zero(), Turn::zero()), [LIMIT, -LIMIT, LIMIT]);
    assert_eq!(rotate(-1, 1, -1, Turn::zero(), Turn::zero()), [-1, 1, -1]);
}

#[test]
fn quarter_turn_about_y_takes_x_to_z() {
    let quarter = turn(0, 1_000);
    assert_eq!(rotate(1_000, 0, 0, Turn::zero(), quarter), [0, 0, 1_000]);
    assert_eq!(rotate(0, 0, 1_000, Turn::zero(), quarter), [-1_000, 0, 0]);
    assert_eq!(rotate(0, 1_000, 0, Turn::zero(), quarter), [0, 1_000, 0]);
}

#[test]
fn quarter_turn_about_x_takes_y_to_z() {
    let quarter = turn(0, 1_000);
    assert_eq!(rotate(0, 1_000, 0, quarter, Turn::zero()), [0, 0, 1_000]);
    assert_eq!(rotate(0, 0, 1_000, quarter, Turn::zero()), [0, -1_000, 0]);
    assert_eq!(rotate(1_000, 0, 0, quarter, Turn::zero()), [1_000, 0, 0]);
}

#[test]
fn rotation_about_y_comes_first() {
    let quarter = turn(0, 1_000);
    assert_eq!(rotate(1_000, 0, 0, quarter, quarter), [0, -1_000, 0]);
    assert_eq!(rotate(0, 1_000, 0, quarter, quarter), [0, 0, 1_000]);
}

#[test]
fn rotate_follows_the_two_formulas() {
    let p = rotate(1_000, 2_000, 3_000, turn(800, 600), turn(600, 800));
    assert_eq!(p, [-1_800, 40, 3_280]);
}

#[test]
fn rotation_on_the_unit_circle_keeps_the_length() {
    let p = rotate(1_000, 2_000, 3_000, turn(800, 600), turn(600, 800));
    let before: i64 = 1_000 * 1_000 + 2_000 * 2_000 + 3_000 * 3_000;
    let after: i64 = p[0] * p[0] + p[1] * p[1] + p[2] * p[2];
    assert_eq!(after, before);
    let q = rotate(-7_000, 24_000, 0, turn(-280, 960), turn(352, -936));
    let before: i64 = 7_000 * 7_000 + 24_000 * 24_000;
    let after: i64 = q[0] * q[0] + q[1] * q[1] + q[2] * q[2];
    assert!((after - before).abs() <= 200_000);
}

#[test]
fn rotation_by_rounded_angles_keeps_the_length_within_tolerance() {
    let one: i128 = 1_000_000;
    let turns = [
        Turn { cos: 999_848, sin: 17_452 },
        Turn { cos: 707_107, sin: 707_107 },
        Turn { cos: -500_000, sin: 866_025 },
        Turn { cos: 0, sin: -1_000_000 },
        Turn { cos: 6_123, sin: -999_981 },
    ];
    let points: [[i64; 3]; 4] =
        [[100_000, 100_000, 100_000], [-7_000, 24_000, 1], [1, 0, 0], [123_456_789, -5, 42_000]];
    for angle_x in turns {
        for angle_y in turns {
            for p in points {
                let r = rotate(p[0], p[1], p[2], angle_x, angle_y);
                let defect = |t: Turn| {
                    let (c, s) = (t.cos as i128, t.sin as i128);
                    (c * c + s * s - one * one).abs()
                };
                assert!(defect(angle_x) < 2 * one);
                let length = |v: [i64; 3]| -> i128 {
                    v.iter().map(|c| (*c as i128) * (*c as i128)).sum()
                };
                let sum: i128 = r.iter().map(|c| (*c as i128).abs() + 1).sum();
                let allowed = (2 * defect(angle_x) + defect(angle_y)) * length(p) / (one * one)
                    + 1
                    + 2 * sum;
                assert!((length(r) - length(p)).abs() <= allowed);
            }
        }
    }
}

#[test]
fn rotate_rounds_toward_zero() {
    assert_eq!(rotate(1, 0, 0, Turn::zero(), turn(999, 0)), [0, 0, 0]);
    assert_eq!(rotate(-1, 0, 0, Turn::zero(), turn(999, 0)), [0, 0, 0]);
    assert_eq!(rotate(1_001, 0, 0, Turn::zero(), turn(999, 0)), [999, 0, 0]);
    assert_eq!(rotate(-1_001, 0, 0, Turn::zero(), turn(999, 0)), [-999, 0, 0]);
    assert_eq!(rotate(0, 1_001, 0, turn(999, 0), Turn::zero()), [0, 999, 0]);
    assert_eq!(rotate(0, -1_001, 0, turn(999, 0), Turn::zero()), [0, -999, 0]);
    assert_eq!(rotate(3, 0, 0, Turn::zero(), Turn { cos: 999_999, sin: 0 }), [2, 0, 0]);
    assert_eq!(rotate(0, 0, -3, Turn { cos: 999_999, sin: 0 }, Turn::zero()), [0, 0, -2]);
}

#[test]
fn rotate_by_a_degree_is_exact_to_a_thousandth() {
    let degree = Turn { cos: 999_848, sin: 17_452 };
    assert_eq!(rotate(100_000, 0, 0, Turn::zero(), degree), [99_984, 0, 1_745]);
    assert_eq!(rotate(0, 100_000, 0, degree, Turn::zero()), [0, 99_984, 1_745]);
}

#[test]
fn rotate_takes_the_largest_coordinates() {
    let p = rotate(LIMIT, LIMIT, LIMIT, turn(1_000, -1_000), turn(1_000, 1_000));
    assert_eq!(p, [0, 3 * LIMIT, LIMIT]);
}

#[test]
fn project_divides_by_the_depth_and_centres() {
    assert_eq!(
        project(100_000, 50_000, 0, 500_000, 500_000, 800_000, 600_000),
        Some([500_000, 350_000])
    );
    assert_eq!(
        project(100_000, 100_000, 100_000, 500_000, 500_000, 800_000, 600_000),
        Some([483_333, 383_333])
    );
    assert_eq!(
        project(-100_000, -100_000, 100_000, 500_000, 500_000, 800_000, 600_000),
        Some([316_667, 216_667])
    );
    assert_eq!(project(0, 0, 7, 1_000, 0, 0, 0), Some([0, 0]));
}

#[test]
fn project_with_scale_one_and_depth_one_is_the_point() {
    assert_eq!(project(2_500, -3_500, 1_000, 1_000, 0, 0, 0), Some([2_500, -3_500]));
    assert_eq!(project(2_500, -3_500, 0, 1_000, 1_000, 0, 0), Some([2_500, -3_500]));
}

#[test]
fn project_halves_the_screen_toward_zero() {
    assert_eq!(project(0, 0, 1_000, 1_000, 0, 801, 601), Some([400, 300]));
    assert_eq!(project(0, 0, 1_000, 1_000, 0, -801, -601), Some([-400, -300]));
}

#[test]
fn project_at_depth_zero_is_nothing() {
    assert_eq!(project(1_000, 1_000, 0, 1_000, 0, 800_000, 600_000), None);
    assert_eq!(project(1_000, 1_000, -5_000, 1_000, 5_000, 800_000, 600_000), None);
    assert_eq!(project(0, 0, 0, 0, 0, 0, 0), None);
}

#[test]
fn project_behind_the_eye_mirrors() {
    assert_eq!(project(2_000, 4_000, -3_000, 1_000, 1_000, 0, 0), Some([-1_000, -2_000]));
}

#[test]
fn project_too_far_off_the_screen_is_nothing() {
    assert_eq!(project(LIMIT, 0, 0, LIMIT, 1, 0, 0), None);
    assert_eq!(project(0, LIMIT, 0, LIMIT, 1, 0, 0), None);
    assert_eq!(project(LIMIT, 0, 1_000, 1_000, 0, 0, 0), Some([LIMIT, 0]));
    assert_eq!(project(LIMIT, 0, 999, 1_000, 0, 0, 0), None);
    assert_eq!(project(i64::MIN, i64::MIN, i64::MAX, i64::MIN, i64::MAX, i64::MAX, i64::MIN), None);
}

#[test]
fn project_takes_any_screen_size() {
    assert_eq!(
        project(LIMIT, -LIMIT, 1_000, 1_000, 0, i64::MAX, i64::MIN),
        Some([LIMIT + i64::MAX / 2, -LIMIT + i64::MIN / 2])
    );
}

#[test]
fn larger_scale_moves_the_projection_away_from_the_centre() {
    let centre: i64 = 400_000;
    let mut last: i64 = 0;
    for scale in [0, 1_000, 2_000, 250_000, 500_000, 501_000] {
        let p = project(-30_000, 0, 100_000, scale, 500_000, 800_000, 0).unwrap();
        let away = (p[0] - centre).abs();
        if scale > 0 {
            assert!(away > last);
        }
        last = away;
    }
    assert_eq!(last, 25_050);
}

#[test]
fn tiny_gain_in_scale_may_round_to_the_same_place() {
    let low = project(1, 0, 0, 1_000, 1_000, 0, 0).unwrap();
    let high = project(1, 0, 0, 1_001, 1_000, 0, 0).unwrap();
    assert_eq!(low, [1, 0]);
    assert_eq!(high, [1, 0]);
}

#[test]
fn within_is_the_range_of_stored_values() {
    assert!(within(0));
    assert!(within(LIMIT));
    assert!(within(-LIMIT));
    assert!(!within(LIMIT + 1));
    assert!(!within(-LIMIT - 1));
    assert!(!within(i64::MIN));
}

#[test]
fn clamp_saturates_at_both_ends() {
    assert_eq!(clamp(0), 0);
    assert_eq!(clamp(-17), -17);
    assert_eq!(clamp(LIMIT as i128 + 1), LIMIT);
    assert_eq!(clamp(-(LIMIT as i128) - 1), -LIMIT);
    assert_eq!(clamp(i128::MAX), LIMIT);
    assert_eq!(clamp(i128::MIN), -LIMIT);
}

#[test]
fn raise_and_lower_step_by_one_unit() {
    assert_eq!(UNIT, 1_000);
    assert_eq!(raise(0), 1_000);
    assert_eq!(lower(0), -1_000);
    assert_eq!(raise(LIMIT - 999), LIMIT);
    assert_eq!(lower(-LIMIT + 999), -LIMIT);
    assert_eq!(raise(i64::MAX), LIMIT);
    assert_eq!(lower(i64::MIN), -LIMIT);
    assert_eq!(raise(i64::MIN), -LIMIT);
}

#[test]
fn divide_rounds_toward_zero() {
    assert_eq!(divide(7, 2), 3);
    assert_eq!(divide(-7, 2), -3);
    assert_eq!(divide(7, -2), -3);
    assert_eq!(divide(-7, -2), 3);
    assert_eq!(divide(0, 5), 0);
    assert_eq!(divide(1_999, 1_000), 1);
    assert_eq!(divide(-1_999, 1_000), -1);
}

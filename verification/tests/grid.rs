use construction_sandbox::math::{
    clamp_to_i64, round_div_i128, round_to_step, saturate_to_i64, wrap_to_turn, Transform, Vec3,
    DEGREE, FULL_TURN, LENGTH_UNIT, WHOLE,
};

#[test]
fn round_to_step_picks_the_nearest_multiple() {
    assert_eq!(round_to_step(149, 100), 100);
    assert_eq!(round_to_step(151, 100), 200);
    assert_eq!(round_to_step(-149, 100), -100);
    assert_eq!(round_to_step(-151, 100), -200);
    assert_eq!(round_to_step(0, 7), 0);
    assert_eq!(round_to_step(3, 7), 0);
    assert_eq!(round_to_step(4, 7), 7);
    assert_eq!(round_to_step(1_234_567, 1), 1_234_567);
}

#[test]
fn round_to_step_rounds_a_half_away_from_zero() {
    assert_eq!(round_to_step(150, 100), 200);
    assert_eq!(round_to_step(-150, 100), -200);
    assert_eq!(round_to_step(50, 100), 100);
    assert_eq!(round_to_step(-50, 100), -100);
    assert_eq!(round_to_step(1, 2), 2);
    assert_eq!(round_to_step(-1, 2), -2);
}

#[test]
fn round_to_step_keeps_multiples() {
    let mut position: i64 = -1_000;
    while position <= 1_000 {
        assert_eq!(round_to_step(position, 100), position);
        position += 100;
    }
}

#[test]
fn round_to_step_is_idempotent() {
    let steps: [i64; 5] = [1, 2, 3, 100, 100_000];
    for step in steps {
        let mut position: i64 = -1_000;
        while position <= 1_000 {
            let once = round_to_step(position, step);
            assert_eq!(round_to_step(once, step), once);
            position += 1;
        }
    }
}

#[test]
fn round_to_step_stays_within_half_a_step() {
    let steps: [i64; 5] = [1, 2, 3, 100, 100_000];
    for step in steps {
        let mut position: i64 = -1_000;
        while position <= 1_000 {
            let snapped = round_to_step(position, step);
            assert_eq!(snapped % step, 0);
            assert!(2 * (snapped - position).abs() <= step);
            position += 1;
        }
    }
}

#[test]
fn round_to_step_stops_at_the_limits() {
    assert_eq!(round_to_step(i64::MAX, 1), i64::MAX);
    assert_eq!(round_to_step(i64::MIN, 1), i64::MIN);
    // The nearest multiple of 10 above i64::MAX cannot be held.
    assert_eq!(round_to_step(i64::MAX, 10), i64::MAX);
    assert_eq!(round_to_step(i64::MIN, 10), i64::MIN);
    assert_eq!(round_to_step(round_to_step(i64::MAX, 10), 10), i64::MAX);
    assert_eq!(round_to_step(i64::MAX - 6, 10), i64::MAX - 7);
    assert_eq!(round_to_step(i64::MAX, i64::MAX), i64::MAX);
    assert_eq!(round_to_step(i64::MIN, i64::MAX), -i64::MAX);
    assert_eq!(round_to_step(i64::MAX / 2, i64::MAX), 0);
    assert_eq!(round_to_step(i64::MAX / 2 + 1, i64::MAX), i64::MAX);
}

#[test]
fn vec3_round_to_step_works_on_each_axis() {
    let position = Vec3::new(149, -150, 1_051);
    assert_eq!(position.round_to_step(100), Vec3::new(100, -200, 1_100));
    let snapped = position.round_to_step(100);
    assert_eq!(snapped.round_to_step(100), snapped);
}

#[test]
fn vec3_round_to_step_stays_near_in_space() {
    let step: i64 = 100;
    let position = Vec3::new(50, 50, 50);
    let snapped = position.round_to_step(step);
    let dx = (snapped.x - position.x) as i128;
    let dy = (snapped.y - position.y) as i128;
    let dz = (snapped.z - position.z) as i128;
    assert_eq!(4 * (dx * dx + dy * dy + dz * dz), 3 * (step as i128) * (step as i128));
}

#[test]
fn vec3_offset_moves_along_a_direction() {
    let start = Vec3::new(1, 2, 3);
    let direction = Vec3::new(10, 0, -10);
    assert_eq!(start.offset(direction, 7), Vec3::new(71, 2, -67));
    assert_eq!(start.offset(direction, 0), start);
    assert_eq!(start.offset(direction, -1), Vec3::new(-9, 2, 13));
}

#[test]
fn vec3_offset_stops_at_the_limits() {
    let start = Vec3::new(i64::MAX - 1, i64::MIN + 1, 0);
    let direction = Vec3::new(1, -1, i64::MAX);
    assert_eq!(start.offset(direction, 7), Vec3::new(i64::MAX, i64::MIN, i64::MAX));
    assert_eq!(Vec3::zero().offset(Vec3::new(i64::MIN, 0, 0), i64::MIN).x, i64::MAX);
}

#[test]
fn vec3_zero_is_the_origin() {
    assert_eq!(Vec3::zero(), Vec3::new(0, 0, 0));
    assert_eq!(Transform::identity().translation, Vec3::zero());
    assert_eq!(Transform::identity().rotation, 0);
}

#[test]
fn wrap_to_turn_keeps_the_direction() {
    assert_eq!(wrap_to_turn(0), 0);
    assert_eq!(wrap_to_turn(FULL_TURN as i128), 0);
    assert_eq!(wrap_to_turn(FULL_TURN as i128 + 5), 5);
    assert_eq!(wrap_to_turn(-1), FULL_TURN - 1);
    assert_eq!(wrap_to_turn(-(FULL_TURN as i128)), 0);
    assert_eq!(wrap_to_turn(-(FULL_TURN as i128) - 1), FULL_TURN - 1);
    assert_eq!(wrap_to_turn(725 * DEGREE as i128), 5 * DEGREE);
    assert_eq!(wrap_to_turn(-90 * DEGREE as i128), 270 * DEGREE);
    assert_eq!(wrap_to_turn(i128::MIN), wrap_to_turn(i128::MIN + FULL_TURN as i128));
    assert!(wrap_to_turn(i128::MAX) < FULL_TURN);
    assert!(wrap_to_turn(i128::MIN) >= 0);
}

#[test]
fn clamp_and_saturate_stop_at_their_limits() {
    assert_eq!(clamp_to_i64(5, -10, 10), 5);
    assert_eq!(clamp_to_i64(-11, -10, 10), -10);
    assert_eq!(clamp_to_i64(i128::MAX, -10, 10), 10);
    assert_eq!(clamp_to_i64(7, 7, 7), 7);
    assert_eq!(saturate_to_i64(i128::MAX), i64::MAX);
    assert_eq!(saturate_to_i64(i128::MIN), i64::MIN);
    assert_eq!(saturate_to_i64(-42), -42);
}

#[test]
fn round_div_rounds_to_the_nearest_integer() {
    assert_eq!(round_div_i128(7, 2), 4);
    assert_eq!(round_div_i128(-7, 2), -4);
    assert_eq!(round_div_i128(6, 4), 2);
    assert_eq!(round_div_i128(5, 4), 1);
    assert_eq!(round_div_i128(-5, 4), -1);
    assert_eq!(round_div_i128(0, 9), 0);
    assert_eq!(round_div_i128(3 * LENGTH_UNIT as i128 / 2, LENGTH_UNIT), 2);
}

#[test]
fn lerp_goes_a_share_of_the_way() {
    let start = Vec3::new(0, 100, -100);
    let end = Vec3::new(1_000, -100, -100);
    assert_eq!(start.lerp(end, 0), start);
    assert_eq!(start.lerp(end, WHOLE), end);
    assert_eq!(start.lerp(end, WHOLE / 2), Vec3::new(500, 0, -100));
    assert_eq!(start.lerp(end, WHOLE / 4), Vec3::new(250, 50, -100));
    assert_eq!(start.lerp(end, 1), Vec3::new(0, 100, -100));
    assert_eq!(start.lerp(end, 500), Vec3::new(1, 100, -100));
    assert_eq!(start.lerp(end, 2_500), Vec3::new(3, 99, -100));
    assert_eq!(end.lerp(start, 2_500), Vec3::new(997, -99, -100));
    // A share of more than the whole is the whole.
    assert_eq!(start.lerp(end, u32::MAX), end);
}

#[test]
fn lerp_never_leaves_the_way() {
    let low = Vec3::new(i64::MIN, -5, 0);
    let high = Vec3::new(i64::MAX, 5, 0);
    for blend in [0, 1, 333_333, 500_000, 999_999, WHOLE] {
        let there = low.lerp(high, blend);
        let back = high.lerp(low, blend);
        assert!(there.y >= -5 && there.y <= 5);
        assert!(back.y >= -5 && back.y <= 5);
        assert_eq!(there.z, 0);
    }
    assert_eq!(low.lerp(high, WHOLE), high);
    assert_eq!(high.lerp(low, WHOLE), low);
    assert_eq!(low.lerp(high, WHOLE / 2).x, 0);
    assert_eq!(high.lerp(low, WHOLE / 2).x, -1);
}

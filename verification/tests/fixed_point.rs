use viewport_nav::fixed::{Fixed, UNIT};
use viewport_nav::mapper::screen_to_world_delta;

#[test]
fn whole_numbers_count_millionths() {
    assert_eq!(UNIT, 1_000_000);
    assert_eq!(Fixed::from_int(0).raw, 0);
    assert_eq!(Fixed::from_int(1).raw, 1_000_000);
    assert_eq!(Fixed::from_int(-20).raw, -20_000_000);
    assert_eq!(Fixed::from_int(i32::MAX).raw, 2_147_483_647_000_000);
    assert_eq!(Fixed::from_int(i32::MIN).raw, -2_147_483_648_000_000);
    assert_eq!(Fixed::from_raw(1_500_000), Fixed { raw: 1_500_000 });
}

#[test]
fn sums_and_differences_saturate() {
    let a = Fixed::from_int(3);
    let b = Fixed::from_int(5);
    assert_eq!(a.saturating_add(b), Fixed::from_int(8));
    assert_eq!(a.saturating_sub(b), Fixed::from_int(-2));
    let top = Fixed::from_raw(i64::MAX);
    let bottom = Fixed::from_raw(i64::MIN);
    assert_eq!(top.saturating_add(Fixed::from_raw(1)), top);
    assert_eq!(bottom.saturating_sub(Fixed::from_raw(1)), bottom);
    assert_eq!(bottom.saturating_add(Fixed::from_raw(-1)), bottom);
    assert_eq!(top.saturating_sub(bottom), top);
    assert_eq!(bottom.saturating_sub(top), bottom);
    assert_eq!(top.saturating_add(bottom), Fixed::from_raw(-1));
}

#[test]
fn products_are_exact_where_they_fit_the_grid() {
    assert_eq!(Fixed::from_int(2).scaled_by(Fixed::from_int(3)), Fixed::from_int(6));
    assert_eq!(
        Fixed::from_raw(1_500_000).scaled_by(Fixed::from_raw(2_500_000)),
        Fixed::from_raw(3_750_000)
    );
    assert_eq!(Fixed::from_int(-7).scaled_by(Fixed::from_raw(500_000)), Fixed::from_raw(-3_500_000));
    assert_eq!(Fixed::from_int(0).scaled_by(Fixed::from_int(9)), Fixed::from_int(0));
    assert_eq!(Fixed::from_int(9).scaled_by(Fixed::from_int(0)), Fixed::from_int(0));
}

#[test]
fn products_round_away_from_zero() {
    // 0.000003 * 0.5 = 0.0000015
    assert_eq!(Fixed::from_raw(3).scaled_by(Fixed::from_raw(500_000)), Fixed::from_raw(2));
    assert_eq!(Fixed::from_raw(-3).scaled_by(Fixed::from_raw(500_000)), Fixed::from_raw(-2));
    assert_eq!(Fixed::from_raw(3).scaled_by(Fixed::from_raw(-500_000)), Fixed::from_raw(-2));
    // the smallest product there is does not vanish
    assert_eq!(Fixed::from_raw(1).scaled_by(Fixed::from_raw(1)), Fixed::from_raw(1));
    assert_eq!(Fixed::from_raw(-1).scaled_by(Fixed::from_raw(1)), Fixed::from_raw(-1));
}

#[test]
fn products_saturate() {
    let top = Fixed::from_raw(i64::MAX);
    let bottom = Fixed::from_raw(i64::MIN);
    assert_eq!(top.scaled_by(top), top);
    assert_eq!(bottom.scaled_by(top), bottom);
    assert_eq!(bottom.scaled_by(bottom), top);
    assert_eq!(top.scaled_by(Fixed::from_int(1)), top);
    assert_eq!(bottom.scaled_by(Fixed::from_int(1)), bottom);
}

#[test]
fn screen_delta_times_scale_is_world_delta() {
    let delta = (Fixed::from_int(50), Fixed::from_int(20));
    assert_eq!(screen_to_world_delta(delta, Fixed::from_int(1)), delta);
    assert_eq!(
        screen_to_world_delta(delta, Fixed::from_int(2)),
        (Fixed::from_int(100), Fixed::from_int(40))
    );
    assert_eq!(
        screen_to_world_delta(delta, Fixed::from_raw(980_000)),
        (Fixed::from_int(49), Fixed::from_raw(19_600_000))
    );
    assert_eq!(
        screen_to_world_delta((Fixed::from_int(-50), Fixed::from_int(20)), Fixed::from_raw(500_000)),
        (Fixed::from_int(-25), Fixed::from_int(10))
    );
}

#[test]
fn world_delta_is_zero_only_for_no_motion_or_no_scale() {
    let zero = (Fixed::from_int(0), Fixed::from_int(0));
    assert_eq!(screen_to_world_delta(zero, Fixed::from_int(3)), zero);
    assert_eq!(screen_to_world_delta((Fixed::from_int(4), Fixed::from_int(-4)), Fixed::from_int(0)), zero);
    // the smallest motion at the smallest scale still moves
    let small = screen_to_world_delta((Fixed::from_raw(1), Fixed::from_raw(-1)), Fixed::from_raw(1));
    assert_eq!(small, (Fixed::from_raw(1), Fixed::from_raw(-1)));
    let one_axis = screen_to_world_delta((Fixed::from_raw(0), Fixed::from_raw(7)), Fixed::from_int(1));
    assert_eq!(one_axis, (Fixed::from_raw(0), Fixed::from_raw(7)));
}

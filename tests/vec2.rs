use snake_term::vec2::{Vec2, SCALE};

#[test]
fn new_keeps_coordinates() {
    let v = Vec2::new(250_000, -40);
    assert_eq!(v.x, 250_000);
    assert_eq!(v.y, -40);
}

#[test]
fn add_and_sub_by_coordinate() {
    let a = Vec2::new(500_000, 200_000);
    let b = Vec2::new(110_000, -50_000);
    assert_eq!(a.add(b), Vec2::new(610_000, 150_000));
    assert_eq!(a.sub(b), Vec2::new(390_000, 250_000));
}

#[test]
fn add_assign_and_sub_assign_change_receiver() {
    let mut a = Vec2::new(1, 2);
    a.add_assign(Vec2::new(10, 20));
    assert_eq!(a, Vec2::new(11, 22));
    a.sub_assign(Vec2::new(1, 2));
    assert_eq!(a, Vec2::new(10, 20));
}

#[test]
fn mul_scales_in_fixed_point() {
    let v = Vec2::new(110_000, -110_000);
    assert_eq!(v.mul(SCALE), v);
    assert_eq!(v.mul(500_000), Vec2::new(55_000, -55_000));
    assert_eq!(v.mul(33_333), Vec2::new(3_666, -3_666));
}

#[test]
fn div_by_coordinate_in_fixed_point() {
    let v = Vec2::new(500_000, -300_000);
    let d = Vec2::new(250_000, 1_000_000);
    assert_eq!(v.div(d), Vec2::new(2_000_000, -300_000));
    assert_eq!(Vec2::new(1, -1).div(Vec2::new(3_000_000, 3_000_000)), Vec2::new(0, 0));
}

#[test]
fn rotate_by_quarter_turns() {
    let mut v = Vec2::new(110_000, 0);
    v.rotate(1);
    assert_eq!(v, Vec2::new(0, 110_000));
    v.rotate(1);
    assert_eq!(v, Vec2::new(-110_000, 0));
    v.rotate(-1);
    assert_eq!(v, Vec2::new(0, 110_000));
    v.rotate(-3);
    assert_eq!(v, Vec2::new(-110_000, 0));
    v.rotate(4);
    assert_eq!(v, Vec2::new(-110_000, 0));
}

#[test]
fn rotate_round_trip() {
    for a in [-7i64, -1, 0, 1, 2, 3, 5, 90] {
        let v = Vec2::new(123_456, -7_890);
        let mut w = v;
        w.rotate(a);
        w.rotate(-a);
        assert_eq!(w, v);
    }
}

#[test]
fn clamp_stays_in_box() {
    let lo = Vec2::new(-10_000, -10_000);
    let hi = Vec2::new(10_000, 10_000);
    assert_eq!(Vec2::new(110_000, 0).clamp(lo, hi), Vec2::new(10_000, 0));
    assert_eq!(Vec2::new(-110_000, 5).clamp(lo, hi), Vec2::new(-10_000, 5));
    assert_eq!(Vec2::new(3, 20_000).clamp(lo, hi), Vec2::new(3, 10_000));
    let r = Vec2::new(i64::MIN, i64::MAX).clamp(lo, hi);
    assert!(lo.x <= r.x && r.x <= hi.x && lo.y <= r.y && r.y <= hi.y);
}

#[test]
fn inside_rectange_borders_count() {
    let p1 = Vec2::new(0, 0);
    let p2 = Vec2::new(SCALE, SCALE);
    assert!(p1.inside_rectange(p1, p2));
    assert!(p2.inside_rectange(p1, p2));
    assert!(Vec2::new(500_000, 1_000_000).inside_rectange(p1, p2));
    assert!(!Vec2::new(1_000_001, 500_000).inside_rectange(p1, p2));
    assert!(!Vec2::new(500_000, -1).inside_rectange(p1, p2));
}

#[test]
fn round_to_whole_units() {
    assert_eq!(Vec2::new(1_499_999, 1_500_000).round(), Vec2::new(1_000_000, 2_000_000));
    assert_eq!(Vec2::new(-1_500_000, -400_000).round(), Vec2::new(-2_000_000, 0));
}

#[test]
fn outside_rectange_is_never_true_for_a_box() {
    let p1 = Vec2::new(0, 0);
    let p2 = Vec2::new(SCALE, SCALE);
    assert!(!Vec2::new(-5, -5).outside_rectange(p1, p2));
    assert!(!Vec2::new(2_000_000, 2_000_000).outside_rectange(p1, p2));
    assert!(Vec2::new(0, 0).outside_rectange(p2, p1) == false);
    assert!(Vec2::new(5, 5).outside_rectange(Vec2::new(10, 10), Vec2::new(0, 0)));
}

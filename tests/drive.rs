use teleop::{duty_forward, duty_reverse, Motor, MOTOR_RESOLUTION, SPEED_ONE};

#[test]
fn half_forward_rounds_to_nearest() {
    assert_eq!(duty_forward(500_000, 255), 191);
    assert_eq!(duty_reverse(500_000, 255), 64);
}

#[test]
fn quarter_reverse_rounds_to_nearest() {
    assert_eq!(duty_forward(-250_000, 255), 96);
    assert_eq!(duty_reverse(-250_000, 255), 159);
}

#[test]
fn full_reverse_and_full_forward() {
    assert_eq!(duty_forward(-SPEED_ONE, 255), 0);
    assert_eq!(duty_reverse(-SPEED_ONE, 255), 255);
    assert_eq!(duty_forward(SPEED_ONE, 255), 255);
    assert_eq!(duty_reverse(SPEED_ONE, 255), 0);
}

#[test]
fn zero_speed_is_balanced() {
    assert_eq!(duty_forward(0, 255), 128);
    assert_eq!(duty_reverse(0, 255), 127);
    assert_eq!(duty_forward(0, 100), 50);
    assert_eq!(duty_reverse(0, 100), 50);
}

#[test]
fn speeds_beyond_the_range_saturate() {
    assert_eq!(duty_forward(5 * SPEED_ONE, 255), duty_forward(SPEED_ONE, 255));
    assert_eq!(duty_forward(-5 * SPEED_ONE, 255), duty_forward(-SPEED_ONE, 255));
    assert_eq!(duty_forward(i64::MAX, 255), 255);
    assert_eq!(duty_forward(i64::MIN, 255), 0);
}

#[test]
fn duties_add_up_for_many_speeds_and_resolutions() {
    let speeds: Vec<i64> = vec![-2_000_000, -1_000_000, -999_999, -333_333, -1, 0, 1, 123_456, 999_999, 1_000_000, 7_000_000];
    let resolutions: Vec<u64> = vec![1, 2, 3, 100, 255, 1024, u64::MAX];
    for &s in &speeds {
        for &r in &resolutions {
            let f = duty_forward(s, r);
            assert!(f <= r);
            assert_eq!(f + duty_reverse(s, r), r);
        }
    }
}

#[test]
fn largest_resolution_full_forward() {
    assert_eq!(duty_forward(SPEED_ONE, u64::MAX), u64::MAX);
    assert_eq!(duty_reverse(SPEED_ONE, u64::MAX), 0);
}

#[test]
fn new_motor_starts_balanced() {
    let m = Motor::new();
    assert_eq!(m.forward_duty(), 128);
    assert_eq!(m.reverse_duty(), 127);
    assert_eq!(m.forward_duty() + m.reverse_duty(), MOTOR_RESOLUTION);
}

#[test]
fn motor_set_half_forward() {
    let mut m = Motor::new();
    m.set(500_000);
    assert_eq!(m.forward_duty(), 191);
    assert_eq!(m.reverse_duty(), 64);
}

#[test]
fn motor_set_twice_same_as_once() {
    let mut once = Motor::new();
    once.set(-250_000);
    let mut twice = Motor::new();
    twice.set(-250_000);
    twice.set(-250_000);
    assert_eq!(once.forward_duty(), twice.forward_duty());
    assert_eq!(once.reverse_duty(), twice.reverse_duty());
    assert_eq!(twice.forward_duty(), 96);
}

#[test]
fn motor_set_clamps_out_of_range_speed() {
    let mut a = Motor::new();
    a.set(5 * SPEED_ONE);
    let mut b = Motor::new();
    b.set(SPEED_ONE);
    assert_eq!((a.forward_duty(), a.reverse_duty()), (b.forward_duty(), b.reverse_duty()));
    assert_eq!(a.forward_duty(), 255);
    a.set(-5 * SPEED_ONE);
    b.set(-SPEED_ONE);
    assert_eq!((a.forward_duty(), a.reverse_duty()), (b.forward_duty(), b.reverse_duty()));
    assert_eq!(a.reverse_duty(), 255);
}

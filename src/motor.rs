use vstd::arithmetic::div_mod::{lemma_div_denominator, lemma_div_multiples_vanish};
use vstd::prelude::*;

verus! {

/// The fixed-point unit of speed: a speed of `SPEED_ONE` is full forward,
/// `-SPEED_ONE` full reverse, 0 balanced.
pub const SPEED_ONE: i64 = 1000000;

/// Duty steps of each channel of a motor; the two duties always add up to it.
pub const MOTOR_RESOLUTION: u64 = 255;

/// A speed limited to `[-SPEED_ONE, SPEED_ONE]`.
pub open spec fn clamped_speed(speed: int) -> int {
    if speed > SPEED_ONE {
        SPEED_ONE as int
    } else if speed < -SPEED_ONE {
        -SPEED_ONE
    } else {
        speed
    }
}

/// The integer nearest to `a / b` (for `b > 0`), halves rounded upward.
pub open spec fn round_div(a: int, b: int) -> int {
    (2 * a + b) / (2 * b)
}

/// Forward duty at a speed: the clamped speed mapped linearly from
/// `[-SPEED_ONE, SPEED_ONE]` onto `[0, resolution]`, rounded to the nearest step.
pub open spec fn forward_duty_of(speed: int, resolution: int) -> int {
    round_div((clamped_speed(speed) + SPEED_ONE) * resolution, 2 * SPEED_ONE)
}

/// Reverse duty at a speed: what the forward duty leaves of the resolution.
pub open spec fn reverse_duty_of(speed: int, resolution: int) -> int {
    resolution - forward_duty_of(speed, resolution)
}

proof fn lemma_forward_duty_bounds(speed: int, resolution: int)
    requires
        resolution >= 0,
    ensures
        0 <= forward_duty_of(speed, resolution) <= resolution,
        forward_duty_of(speed, resolution) == ((clamped_speed(speed) + SPEED_ONE) * resolution
            + SPEED_ONE) / (2 * SPEED_ONE),
{
    let a = clamped_speed(speed) + SPEED_ONE;
    let one = SPEED_ONE as int;
    assert(0 <= a <= 2 * one);
    assert((2 * (a * resolution) + 2 * one) / (2 * (2 * one)) == (a * resolution + one) / (2
        * one)) by {
        assert(2 * (a * resolution) + 2 * one == 2 * (a * resolution + one));
        assert(2 * (2 * one) == 2 * (2 * one));
        lemma_div_denominator(2 * (a * resolution + one), 2, 2 * one);
        lemma_div_multiples_vanish(a * resolution + one, 2);
    }
    assert(0 <= a * resolution <= 2 * one * resolution) by (nonlinear_arith)
        requires
            0 <= a <= 2 * one,
            resolution >= 0,
    ;
    assert((a * resolution + one) / (2 * one) <= resolution) by (nonlinear_arith)
        requires
            0 <= a * resolution <= 2 * one * resolution,
            one == 1000000,
    ;
}

/// The forward duty at `speed` on a channel of `resolution` steps.
pub fn duty_forward(speed: i64, resolution: u64) -> (d: u64)
    ensures
        d == forward_duty_of(speed as int, resolution as int),
        d <= resolution,
{
    proof {
        lemma_forward_duty_bounds(speed as int, resolution as int);
    }
    let clamped: i64 = if speed > SPEED_ONE {
        SPEED_ONE
    } else if speed < -SPEED_ONE {
        -SPEED_ONE
    } else {
        speed
    };
    let a: u128 = (clamped + SPEED_ONE) as u128;
    assert(a * (resolution as u128) <= 2000000 * 18446744073709551615u128) by (nonlinear_arith)
        requires
            a <= 2000000,
            resolution <= 18446744073709551615u64,
    ;
    let d: u128 = (a * (resolution as u128) + (SPEED_ONE as u128)) / (2 * (SPEED_ONE as u128));
    d as u64
}

/// The reverse duty at `speed`: the forward and reverse duties always add up
/// to `resolution`.
pub fn duty_reverse(speed: i64, resolution: u64) -> (d: u64)
    ensures
        d == reverse_duty_of(speed as int, resolution as int),
        d + forward_duty_of(speed as int, resolution as int) == resolution,
{
    resolution - duty_forward(speed, resolution)
}

/// The duties of the two channels of a motor, as plain values.
pub struct MotorView {
    pub forward: nat,
    pub reverse: nat,
}

impl MotorView {
    /// The duties after the motor is set to `speed`: they depend on that speed
    /// alone, not on what was set before.
    pub open spec fn after_set(self, speed: int) -> MotorView {
        MotorView {
            forward: forward_duty_of(speed, MOTOR_RESOLUTION as int) as nat,
            reverse: reverse_duty_of(speed, MOTOR_RESOLUTION as int) as nat,
        }
    }
}

/// A bidirectional motor driven by a forward and a reverse channel of
/// `MOTOR_RESOLUTION` steps each. The two duties are complementary at all
/// times. At speed 0 both channels are driven at about half duty, which most
/// motor drivers take as electrical braking rather than coasting: this is how
/// complementary drive behaves, and is kept on purpose.
pub struct Motor {
    forward: u64,
    reverse: u64,
}

impl View for Motor {
    type V = MotorView;

    closed spec fn view(&self) -> MotorView {
        MotorView { forward: self.forward as nat, reverse: self.reverse as nat }
    }
}

impl Motor {
    #[verifier::type_invariant]
    spec fn inv(self) -> bool {
        self.forward + self.reverse == MOTOR_RESOLUTION
    }

    /// A motor at speed 0.
    pub fn new() -> (m: Motor)
        ensures
            m@.forward == forward_duty_of(0, MOTOR_RESOLUTION as int),
            m@.reverse == reverse_duty_of(0, MOTOR_RESOLUTION as int),
    {
        let forward = duty_forward(0, MOTOR_RESOLUTION);
        let reverse = duty_reverse(0, MOTOR_RESOLUTION);
        Motor { forward, reverse }
    }

    /// Sets the motor to `speed` (in units of `SPEED_ONE`, clamped to
    /// `[-SPEED_ONE, SPEED_ONE]`), updating both duties.
    pub fn set(&mut self, speed: i64)
        ensures
            final(self)@ == old(self)@.after_set(speed as int),
    {
        let forward = duty_forward(speed, MOTOR_RESOLUTION);
        let reverse = duty_reverse(speed, MOTOR_RESOLUTION);
        *self = Motor { forward, reverse };
    }

    /// The duty of the forward channel.
    pub fn forward_duty(&self) -> (d: u64)
        ensures
            d == self@.forward,
            d <= MOTOR_RESOLUTION,
    {
        proof {
            use_type_invariant(self);
        }
        self.forward
    }

    /// The duty of the reverse channel.
    pub fn reverse_duty(&self) -> (d: u64)
        ensures
            d == self@.reverse,
            d + self@.forward == MOTOR_RESOLUTION,
    {
        proof {
            use_type_invariant(self);
        }
        self.reverse
    }
}

/// For every speed and every resolution, the forward and reverse duties lie
/// in `[0, resolution]` and add up to the resolution.
pub proof fn lemma_duties_complementary(speed: int, resolution: nat)
    ensures
        0 <= forward_duty_of(speed, resolution as int) <= resolution,
        0 <= reverse_duty_of(speed, resolution as int) <= resolution,
        forward_duty_of(speed, resolution as int) + reverse_duty_of(speed, resolution as int)
            == resolution,
{
    lemma_forward_duty_bounds(speed, resolution as int);
}

/// Setting a motor twice to the same speed leaves the same duties as setting
/// it once.
pub proof fn lemma_set_idempotent(m: MotorView, speed: int)
    ensures
        m.after_set(speed).after_set(speed) == m.after_set(speed),
{
}

/// Full reverse gives no forward duty, full forward gives all of it, and
/// speed 0 gives half the resolution, rounded up.
pub proof fn lemma_boundary_duties(resolution: nat)
    ensures
        forward_duty_of(-SPEED_ONE, resolution as int) == 0,
        forward_duty_of(SPEED_ONE as int, resolution as int) == resolution,
        forward_duty_of(0, resolution as int) == (resolution + 1) / 2,
{
    let r = resolution as int;
    let one = SPEED_ONE as int;
    lemma_forward_duty_bounds(-SPEED_ONE, r);
    lemma_forward_duty_bounds(SPEED_ONE as int, r);
    lemma_forward_duty_bounds(0, r);
    assert(clamped_speed(-SPEED_ONE) + one == 0);
    assert(0 * r == 0);
    assert((0 + one) / (2 * one) == 0) by (nonlinear_arith)
        requires
            one == 1000000,
    ;
    assert((2 * one * r + one) / (2 * one) == r) by (nonlinear_arith)
        requires
            one == 1000000,
            r >= 0,
    ;
    assert(one * r + one == one * (r + 1)) by (nonlinear_arith);
    assert(2 * one == one * 2);
    lemma_div_denominator(one * (r + 1), one, 2);
    lemma_div_multiples_vanish(r + 1, one);
}

/// A speed beyond full forward or full reverse behaves exactly as full
/// forward or full reverse.
pub proof fn lemma_speed_saturates(m: MotorView, speed: int)
    ensures
        speed >= SPEED_ONE ==> m.after_set(speed) == m.after_set(SPEED_ONE as int),
        speed <= -SPEED_ONE ==> m.after_set(speed) == m.after_set(-SPEED_ONE),
{
}

} // verus!

//! Software pulse-width modulation for a bidirectional motor driver.
//!
//! The waveform generator of one channel is a state machine: at each poll
//! of its loop it takes the setpoints delivered since the previous poll and
//! whether it was asked to stop, and answers with the next action (hold the
//! pin high, then low, for given durations; or halt). The motor driver turns
//! a signed speed into a pair of complementary duties, and the device rule
//! picks the controller to read from by name. Threads, sleeping, pin writes
//! and device reads are left to the caller.
pub mod device;
pub mod motor;
pub mod pwm;

pub use device::{contains_xbox, is_xbox_name, select_controller};
pub use motor::{duty_forward, duty_reverse, Motor, MotorView, MOTOR_RESOLUTION, SPEED_ONE};
pub use pwm::{
    clamp_setpoint, phase_durations, Action, Phases, PwmError, Waveform, WaveformView,
    MAX_RESOLUTION, UNIT_PERIOD_US,
};

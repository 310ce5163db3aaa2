use vstd::prelude::*;

verus! {

/// Length of one duty step, in microseconds.
pub const UNIT_PERIOD_US: u64 = 100;

/// Largest resolution whose whole cycle, in microseconds, fits in a `u64`.
pub const MAX_RESOLUTION: u64 = 184467440737095516;

/// Why a waveform could not be made.
#[derive(Debug, Clone, Copy, PartialEq, Eq, Structural)]
pub enum PwmError {
    /// A resolution of zero steps gives no cycle at all.
    ZeroResolution,
    /// The cycle would be too long to count in microseconds.
    ResolutionTooLarge,
}

/// How long the pin is held high, then low, in one cycle.
#[derive(Debug, Clone, Copy, PartialEq, Eq, Structural)]
pub struct Phases {
    pub high_us: u64,
    pub low_us: u64,
}

/// What the waveform loop does next.
#[derive(Debug, Clone, Copy, PartialEq, Eq, Structural)]
pub enum Action {
    /// Leave the loop: no further pin writes.
    Halt,
    /// Drive the pin high, then low, for the given durations.
    Pulse(Phases),
}

/// The setpoint actually used for a requested value: at most the resolution.
pub open spec fn clamped(value: int, resolution: int) -> int {
    if value > resolution {
        resolution
    } else {
        value
    }
}

/// The high and low phases of one cycle at a given setpoint.
pub open spec fn phases_of(setpoint: nat, resolution: nat) -> Phases {
    Phases {
        high_us: (setpoint * UNIT_PERIOD_US) as u64,
        low_us: ((resolution - setpoint) * UNIT_PERIOD_US) as u64,
    }
}

/// Clamps a requested setpoint to `[0, resolution]`.
pub fn clamp_setpoint(value: u64, resolution: u64) -> (r: u64)
    ensures
        r == clamped(value as int, resolution as int),
{
    if value > resolution {
        resolution
    } else {
        value
    }
}

/// The durations of the high and low phases at `setpoint`; together they
/// always make one full cycle of `resolution` steps.
pub fn phase_durations(setpoint: u64, resolution: u64) -> (p: Phases)
    requires
        0 < resolution <= MAX_RESOLUTION,
        setpoint <= resolution,
    ensures
        p == phases_of(setpoint as nat, resolution as nat),
        p.high_us == setpoint * UNIT_PERIOD_US,
        p.low_us == (resolution - setpoint) * UNIT_PERIOD_US,
        p.high_us + p.low_us == resolution * UNIT_PERIOD_US,
{
    assert(resolution * UNIT_PERIOD_US <= u64::MAX) by (nonlinear_arith)
        requires
            resolution <= MAX_RESOLUTION,
    ;
    assert(setpoint * UNIT_PERIOD_US <= resolution * UNIT_PERIOD_US) by (nonlinear_arith)
        requires
            setpoint <= resolution,
    ;
    assert((resolution - setpoint) * UNIT_PERIOD_US == resolution * UNIT_PERIOD_US - setpoint
        * UNIT_PERIOD_US) by (nonlinear_arith);
    Phases { high_us: setpoint * UNIT_PERIOD_US, low_us: (resolution - setpoint) * UNIT_PERIOD_US }
}

/// The state of one channel's waveform loop, as plain values.
pub struct WaveformView {
    pub resolution: nat,
    pub setpoint: nat,
    pub running: bool,
}

impl WaveformView {
    pub open spec fn wf(self) -> bool {
        &&& 0 < self.resolution <= MAX_RESOLUTION
        &&& self.setpoint <= self.resolution
    }

    /// The state after one poll, given the setpoints delivered since
    /// the previous one (oldest first) and whether a stop was requested.
    /// Only the latest delivered setpoint counts; once halted, nothing changes.
    pub open spec fn after_step(self, pending: Seq<u64>, stop_requested: bool) -> WaveformView {
        if !self.running {
            self
        } else {
            WaveformView {
                resolution: self.resolution,
                setpoint: if pending.len() > 0 {
                    clamped(pending.last() as int, self.resolution as int) as nat
                } else {
                    self.setpoint
                },
                running: !stop_requested,
            }
        }
    }

    /// What the loop does in this state.
    pub open spec fn action(self) -> Action {
        if self.running {
            Action::Pulse(phases_of(self.setpoint, self.resolution))
        } else {
            Action::Halt
        }
    }
}

/// The waveform generator of one channel: its resolution, the setpoint it
/// currently realises, and whether it still runs.
pub struct Waveform {
    resolution: u64,
    setpoint: u64,
    running: bool,
}

impl View for Waveform {
    type V = WaveformView;

    closed spec fn view(&self) -> WaveformView {
        WaveformView {
            resolution: self.resolution as nat,
            setpoint: self.setpoint as nat,
            running: self.running,
        }
    }
}

impl Waveform {
    #[verifier::type_invariant]
    spec fn inv(self) -> bool {
        self@.wf()
    }

    /// A running waveform at setpoint 0 (constant low). Rejects a resolution
    /// of zero, and one whose cycle is too long to count in microseconds.
    pub fn new(resolution: u64) -> (r: Result<Waveform, PwmError>)
        ensures
            resolution == 0 <==> r == Err::<Waveform, PwmError>(PwmError::ZeroResolution),
            resolution > MAX_RESOLUTION <==> r == Err::<Waveform, PwmError>(
                PwmError::ResolutionTooLarge,
            ),
            r is Ok ==> r->Ok_0@ == (WaveformView {
                resolution: resolution as nat,
                setpoint: 0,
                running: true,
            }),
    {
        if resolution == 0 {
            Err(PwmError::ZeroResolution)
        } else if resolution > MAX_RESOLUTION {
            Err(PwmError::ResolutionTooLarge)
        } else {
            Ok(Waveform { resolution, setpoint: 0, running: true })
        }
    }

    pub fn resolution(&self) -> (r: u64)
        ensures
            r == self@.resolution,
    {
        self.resolution
    }

    pub fn setpoint(&self) -> (r: u64)
        ensures
            r == self@.setpoint,
            r <= self@.resolution,
    {
        proof {
            use_type_invariant(self);
        }
        self.setpoint
    }

    pub fn is_running(&self) -> (r: bool)
        ensures
            r == self@.running,
    {
        self.running
    }

    /// One poll of the waveform loop. `pending` holds the setpoints
    /// delivered since the previous poll, oldest first; the latest one
    /// is adopted, clamped to the resolution. A stop request halts the loop
    /// for good. Returns what the loop does next.
    pub fn step(&mut self, pending: &Vec<u64>, stop_requested: bool) -> (a: Action)
        ensures
            final(self)@ == old(self)@.after_step(pending@, stop_requested),
            final(self)@.wf(),
            a == final(self)@.action(),
            a is Halt <==> (!old(self)@.running || stop_requested),
    {
        proof {
            use_type_invariant(&*self);
        }
        if !self.running {
            return Action::Halt;
        }
        if pending.len() > 0 {
            self.setpoint = clamp_setpoint(pending[pending.len() - 1], self.resolution);
        }
        if stop_requested {
            self.running = false;
            Action::Halt
        } else {
            Action::Pulse(phase_durations(self.setpoint, self.resolution))
        }
    }
}

/// Setpoints delivered in a burst before a poll: only the last one
/// takes effect, exactly as if it had been delivered alone.
pub proof fn lemma_latest_setpoint_wins(w: WaveformView, pending: Seq<u64>, stop_requested: bool)
    requires
        pending.len() > 0,
    ensures
        w.after_step(pending, stop_requested) == w.after_step(
            seq![pending.last()],
            stop_requested,
        ),
{
}

/// A stop request ends the loop, and a halted loop stays halted whatever is
/// delivered afterwards: it never pulses the pin again.
pub proof fn lemma_halt_is_final(
    w: WaveformView,
    pending: Seq<u64>,
    later: Seq<u64>,
    stop_later: bool,
)
    ensures
        w.after_step(pending, true).action() == Action::Halt,
        w.after_step(pending, true).after_step(later, stop_later) == w.after_step(pending, true),
{
}

} // verus!

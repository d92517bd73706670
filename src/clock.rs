//! The fixed-timestep scheduler, as a state machine driven by the host.
//!
//! Instants are whole microseconds since the host's time origin. The
//! accumulator counts units of `1 / (MICROS_PER_SECOND * updates_per_second)`
//! seconds, so that one fixed step is exactly `STEP_UNITS` units whatever the
//! update rate is, and no rounding enters the accounting of a tick.
use vstd::prelude::*;

verus! {

/// Microseconds in one second.
pub const MICROS_PER_SECOND: u64 = 1_000_000;

/// The length of one fixed step in accumulator units.
pub const STEP_UNITS: u128 = 1_000_000;

/// The accumulator saturates here (2^95 units), far beyond any real backlog.
pub const ACCUMULATOR_CAP: u128 = 0x8000_0000_0000_0000_0000_0000;

/// Where the scheduler stands in its lifecycle.
#[derive(PartialEq, Eq, Structural, Clone, Copy, Debug)]
pub enum Phase {
    /// Not started yet.
    Configuring,
    /// Started, waiting for the host to present the next frame.
    Waiting,
    /// Inside a tick, draining fixed updates.
    Updating,
    /// Inside a tick, the render callback is due or running.
    Rendering,
    /// Stopped for good after an exit request.
    Exited,
}

/// What the host is to do next.
#[derive(PartialEq, Eq, Structural, Clone, Copy, Debug)]
pub enum Action {
    /// Run the update callback once, then report `on_update_done`.
    RunUpdate,
    /// Run the render callback once, then report `on_render_done`.
    RunRender,
    /// Ask for the next frame, then report `on_frame` when it comes.
    RequestFrame,
    /// Request nothing more: the loop has ended.
    Stop,
}

/// An exact non-negative fraction.
#[derive(PartialEq, Eq, Structural, Clone, Copy, Debug)]
pub struct Ratio {
    pub numerator: u128,
    pub denominator: u128,
}

/// The mathematical state of a `FrameClock`.
pub ghost struct ClockView {
    pub phase: Phase,
    pub updates_per_second: nat,
    pub requested_updates_per_second: nat,
    pub max_frame_time: nat,
    pub accumulated: nat,
    pub previous_instant: nat,
    pub number_of_updates: nat,
    pub number_of_renders: nat,
    pub exit_requested: bool,
}

/// Time from `previous` to `now`, never negative, cut to `max_frame_time`.
pub open spec fn clamped_elapsed(previous: nat, now: nat, max_frame_time: nat) -> nat {
    let e: nat = if now > previous { (now - previous) as nat } else { 0 };
    if e > max_frame_time { max_frame_time } else { e }
}

/// `x` saturated at `ACCUMULATOR_CAP`.
pub open spec fn capped(x: nat) -> nat {
    if x > ACCUMULATOR_CAP { ACCUMULATOR_CAP as nat } else { x }
}

/// An accumulator expressed at rate `from`, re-expressed at rate `to`
/// (rounded down to a whole unit).
pub open spec fn rescaled(accumulated: nat, from: nat, to: nat) -> nat
    recommends from > 0,
{
    capped(accumulated * to / from)
}

/// The accumulator after adding the clamped time from `previous` to `now` at
/// `updates_per_second`.
pub open spec fn accumulated_after(
    accumulated: nat,
    previous: nat,
    now: nat,
    max_frame_time: nat,
    updates_per_second: nat,
) -> nat {
    capped(accumulated + clamped_elapsed(previous, now, max_frame_time) * updates_per_second)
}

/// A counter of `u32` advanced by one, wrapping at the top.
pub open spec fn bumped(n: nat) -> nat {
    if n == u32::MAX as nat { 0 } else { n + 1 }
}

/// The scheduler: its lifecycle phase, the fixed-step accounting and the
/// counters of updates and renders.
pub struct FrameClock {
    phase: Phase,
    updates_per_second: u32,
    requested_updates_per_second: u32,
    max_frame_time: u64,
    accumulated: u128,
    previous_instant: u64,
    number_of_updates: u32,
    number_of_renders: u32,
    exit_requested: bool,
}

impl View for FrameClock {
    type V = ClockView;

    closed spec fn view(&self) -> ClockView {
        ClockView {
            phase: self.phase,
            updates_per_second: self.updates_per_second as nat,
            requested_updates_per_second: self.requested_updates_per_second as nat,
            max_frame_time: self.max_frame_time as nat,
            accumulated: self.accumulated as nat,
            previous_instant: self.previous_instant as nat,
            number_of_updates: self.number_of_updates as nat,
            number_of_renders: self.number_of_renders as nat,
            exit_requested: self.exit_requested,
        }
    }
}

impl ClockView {
    /// The clock's invariant.
    pub open spec fn wf(self) -> bool {
        &&& self.accumulated <= ACCUMULATOR_CAP
        &&& self.updates_per_second <= u32::MAX
        &&& self.requested_updates_per_second <= u32::MAX
        &&& self.max_frame_time <= u64::MAX
        &&& self.previous_instant <= u64::MAX
        &&& self.number_of_updates <= u32::MAX
        &&& self.number_of_renders <= u32::MAX
        &&& self.phase != Phase::Configuring ==> {
            &&& self.updates_per_second > 0
            &&& self.requested_updates_per_second > 0
        }
        &&& self.phase == Phase::Updating ==> self.accumulated >= STEP_UNITS
    }

    /// How many fixed updates the accumulator holds.
    pub open spec fn updates_due(self) -> nat {
        self.accumulated / (STEP_UNITS as nat)
    }

    /// The phase a tick continues in, given what the accumulator holds.
    pub open spec fn draining_phase(accumulated: nat) -> Phase {
        if accumulated >= STEP_UNITS { Phase::Updating } else { Phase::Rendering }
    }
}

/// The action that belongs to a phase entered inside a tick.
pub open spec fn action_of(phase: Phase) -> Action {
    match phase {
        Phase::Updating => Action::RunUpdate,
        Phase::Rendering => Action::RunRender,
        Phase::Waiting => Action::RequestFrame,
        _ => Action::Stop,
    }
}

/// Time from `previous` to `now` in accumulator units at `updates_per_second`.
fn elapsed_units(previous: u64, now: u64, max_frame_time: u64, updates_per_second: u32) -> (r: u128)
    ensures
        r == clamped_elapsed(previous as nat, now as nat, max_frame_time as nat)
            * (updates_per_second as nat),
        r <= (u64::MAX as nat) * (u32::MAX as nat),
{
    let mut e: u64 = if now > previous { now - previous } else { 0 };
    if e > max_frame_time {
        e = max_frame_time;
    }
    proof {
        assert((e as nat) * (updates_per_second as nat) <= (u64::MAX as nat) * (u32::MAX as nat))
            by (nonlinear_arith)
            requires e <= u64::MAX, updates_per_second <= u32::MAX;
    }
    (e as u128) * (updates_per_second as u128)
}

/// `x` saturated at `ACCUMULATOR_CAP`.
fn cap(x: u128) -> (r: u128)
    ensures
        r == capped(x as nat),
{
    if x > ACCUMULATOR_CAP { ACCUMULATOR_CAP } else { x }
}

impl FrameClock {
    /// A clock that has not been started.
    pub fn new() -> (r: FrameClock)
        ensures
            r@.wf(),
            r@.phase == Phase::Configuring,
            r@.accumulated == 0,
            r@.previous_instant == 0,
            r@.number_of_updates == 0,
            r@.number_of_renders == 0,
            !r@.exit_requested,
    {
        FrameClock {
            phase: Phase::Configuring,
            updates_per_second: 0,
            requested_updates_per_second: 0,
            max_frame_time: 0,
            accumulated: 0,
            previous_instant: 0,
            number_of_updates: 0,
            number_of_renders: 0,
            exit_requested: false,
        }
    }

    /// Starts the loop: the fixed step becomes `1 / updates_per_second`
    /// seconds, single frames count for at most `max_frame_time`
    /// microseconds, and the host is to ask for the first frame.
    pub fn start(&mut self, updates_per_second: u32, max_frame_time: u64) -> (r: Action)
        requires
            old(self)@.wf(),
            old(self)@.phase == Phase::Configuring,
            updates_per_second > 0,
        ensures
            final(self)@.wf(),
            r == Action::RequestFrame,
            final(self)@ == (ClockView {
                phase: Phase::Waiting,
                updates_per_second: updates_per_second as nat,
                requested_updates_per_second: updates_per_second as nat,
                max_frame_time: max_frame_time as nat,
                accumulated: 0,
                previous_instant: 0,
                ..old(self)@
            }),
    {
        self.updates_per_second = updates_per_second;
        self.requested_updates_per_second = updates_per_second;
        self.max_frame_time = max_frame_time;
        self.accumulated = 0;
        self.previous_instant = 0;
        self.phase = Phase::Waiting;
        Action::RequestFrame
    }

    /// Adds the clamped time since the previous instant to the accumulator,
    /// and makes `now` the previous instant.
    fn accumulate(&mut self, now: u64)
        requires
            old(self)@.wf(),
            old(self)@.phase != Phase::Configuring,
        ensures
            final(self)@ == (ClockView {
                accumulated: accumulated_after(
                    old(self)@.accumulated,
                    old(self)@.previous_instant,
                    now as nat,
                    old(self)@.max_frame_time,
                    old(self)@.updates_per_second,
                ),
                previous_instant: now as nat,
                ..old(self)@
            }),
    {
        let units = elapsed_units(self.previous_instant, now, self.max_frame_time, self.updates_per_second);
        self.accumulated = cap(self.accumulated + units);
        self.previous_instant = now;
    }

    /// The host presented a frame at instant `now`: a new tick begins. A
    /// changed update rate takes effect here, then the elapsed time is
    /// added, and the tick goes on with updates while a whole step is
    /// accumulated, else with the render.
    pub fn on_frame(&mut self, now: u64) -> (r: Action)
        requires
            old(self)@.wf(),
            old(self)@.phase == Phase::Waiting,
        ensures
            final(self)@.wf(),
            final(self)@ == (ClockView {
                phase: ClockView::draining_phase(final(self)@.accumulated),
                updates_per_second: old(self)@.requested_updates_per_second,
                accumulated: accumulated_after(
                    rescaled(
                        old(self)@.accumulated,
                        old(self)@.updates_per_second,
                        old(self)@.requested_updates_per_second,
                    ),
                    old(self)@.previous_instant,
                    now as nat,
                    old(self)@.max_frame_time,
                    old(self)@.requested_updates_per_second,
                ),
                previous_instant: now as nat,
                ..old(self)@
            }),
            r == action_of(final(self)@.phase),
            r == Action::RunRender ==> final(self)@.accumulated < STEP_UNITS,
            r == Action::RunUpdate <==> final(self)@.updates_due() > 0,
    {
        let ups = self.requested_updates_per_second;
        proof {
            assert((self.accumulated as nat) * (ups as nat) <= (ACCUMULATOR_CAP as nat) * (u32::MAX as nat))
                by (nonlinear_arith)
                requires self.accumulated <= ACCUMULATOR_CAP, ups <= u32::MAX;
        }
        self.accumulated = cap(self.accumulated * (ups as u128) / (self.updates_per_second as u128));
        self.updates_per_second = ups;
        self.accumulate(now);
        proof {
            lemma_due_iff_whole_step(self.accumulated as nat);
        }
        if self.accumulated >= STEP_UNITS {
            self.phase = Phase::Updating;
            Action::RunUpdate
        } else {
            self.phase = Phase::Rendering;
            Action::RunRender
        }
    }

    /// The update callback returned: one fixed step is consumed and
    /// counted, and the tick goes on with another update while a whole step
    /// is left, else with the render.
    pub fn on_update_done(&mut self) -> (r: Action)
        requires
            old(self)@.wf(),
            old(self)@.phase == Phase::Updating,
        ensures
            final(self)@.wf(),
            final(self)@ == (ClockView {
                phase: ClockView::draining_phase(final(self)@.accumulated),
                accumulated: (old(self)@.accumulated - STEP_UNITS) as nat,
                number_of_updates: bumped(old(self)@.number_of_updates),
                ..old(self)@
            }),
            final(self)@.updates_due() + 1 == old(self)@.updates_due(),
            r == action_of(final(self)@.phase),
            r == Action::RunRender ==> final(self)@.accumulated < STEP_UNITS,
            r == Action::RunUpdate <==> final(self)@.updates_due() > 0,
    {
        self.accumulated = self.accumulated - STEP_UNITS;
        self.number_of_updates = self.number_of_updates.wrapping_add(1);
        proof {
            let a = old(self)@.accumulated;
            assert((a - STEP_UNITS) as nat / (STEP_UNITS as nat) + 1 == a / (STEP_UNITS as nat))
                by (nonlinear_arith)
                requires a >= STEP_UNITS;
        }
        proof {
            lemma_due_iff_whole_step(self.accumulated as nat);
        }
        if self.accumulated >= STEP_UNITS {
            self.phase = Phase::Updating;
            Action::RunUpdate
        } else {
            self.phase = Phase::Rendering;
            Action::RunRender
        }
    }

    /// The render callback returned: the render is counted, and the loop
    /// either waits for the next frame or, after an exit request, stops.
    pub fn on_render_done(&mut self) -> (r: Action)
        requires
            old(self)@.wf(),
            old(self)@.phase == Phase::Rendering,
        ensures
            final(self)@.wf(),
            final(self)@ == (ClockView {
                phase: if old(self)@.exit_requested { Phase::Exited } else { Phase::Waiting },
                number_of_renders: bumped(old(self)@.number_of_renders),
                ..old(self)@
            }),
            r == (if old(self)@.exit_requested { Action::Stop } else { Action::RequestFrame }),
    {
        self.number_of_renders = self.number_of_renders.wrapping_add(1);
        if self.exit_requested {
            self.phase = Phase::Exited;
            Action::Stop
        } else {
            self.phase = Phase::Waiting;
            Action::RequestFrame
        }
    }

    /// Measures the time again, from inside the render callback, just
    /// before drawing.
    pub fn re_accumulate(&mut self, now: u64)
        requires
            old(self)@.wf(),
            old(self)@.phase == Phase::Rendering,
        ensures
            final(self)@.wf(),
            final(self)@ == (ClockView {
                accumulated: accumulated_after(
                    old(self)@.accumulated,
                    old(self)@.previous_instant,
                    now as nat,
                    old(self)@.max_frame_time,
                    old(self)@.updates_per_second,
                ),
                previous_instant: now as nat,
                ..old(self)@
            }),
    {
        self.accumulate(now);
    }

    /// Asks the loop to stop at the end of the current tick.
    pub fn exit(&mut self)
        ensures
            final(self)@ == (ClockView { exit_requested: true, ..old(self)@ }),
    {
        self.exit_requested = true;
    }

    /// Sets the update rate that the fixed step follows from the next tick on.
    pub fn set_updates_per_second(&mut self, new_updates_per_second: u32)
        requires
            old(self)@.wf(),
            new_updates_per_second > 0,
        ensures
            final(self)@.wf(),
            final(self)@ == (ClockView {
                requested_updates_per_second: new_updates_per_second as nat,
                ..old(self)@
            }),
    {
        self.requested_updates_per_second = new_updates_per_second;
    }

    pub fn phase(&self) -> (r: Phase)
        ensures
            r == self@.phase,
    {
        self.phase
    }

    /// The fixed step in seconds: exactly `1 / updates_per_second`.
    pub fn fixed_time_step(&self) -> (r: Ratio)
        requires
            self@.wf(),
            self@.phase != Phase::Configuring,
        ensures
            r.numerator == 1,
            r.denominator == self@.updates_per_second,
    {
        Ratio { numerator: 1, denominator: self.updates_per_second as u128 }
    }

    /// The progress into the next fixed step: accumulated time over the step.
    pub fn blending_factor(&self) -> (r: Ratio)
        ensures
            r.numerator == self@.accumulated,
            r.denominator == STEP_UNITS,
    {
        Ratio { numerator: self.accumulated, denominator: STEP_UNITS }
    }

    /// The accumulated, not yet simulated, time in seconds.
    pub fn accumulated_time(&self) -> (r: Ratio)
        requires
            self@.wf(),
            self@.phase != Phase::Configuring,
        ensures
            r.numerator == self@.accumulated,
            r.denominator == (MICROS_PER_SECOND as nat) * self@.updates_per_second,
    {
        proof {
            assert((MICROS_PER_SECOND as nat) * (self.updates_per_second as nat) <= (MICROS_PER_SECOND as nat) * (u32::MAX as nat))
                by (nonlinear_arith)
                requires self.updates_per_second <= u32::MAX;
        }
        Ratio {
            numerator: self.accumulated,
            denominator: (MICROS_PER_SECOND as u128) * (self.updates_per_second as u128),
        }
    }

    pub fn updates_per_second(&self) -> (r: u32)
        ensures
            r == self@.updates_per_second,
    {
        self.updates_per_second
    }

    pub fn number_of_updates(&self) -> (r: u32)
        ensures
            r == self@.number_of_updates,
    {
        self.number_of_updates
    }

    pub fn number_of_renders(&self) -> (r: u32)
        ensures
            r == self@.number_of_renders,
    {
        self.number_of_renders
    }

    pub fn exit_requested(&self) -> (r: bool)
        ensures
            r == self@.exit_requested,
    {
        self.exit_requested
    }
}


/// What remains after draining `accumulated` one fixed step at a time while a
/// whole step is left, and how many steps were drained: the sequence of
/// `on_update_done` calls that follows `on_frame` within one tick.
pub open spec fn drain(accumulated: nat) -> (nat, nat)
    decreases accumulated,
{
    if accumulated >= STEP_UNITS {
        let rest = drain((accumulated - STEP_UNITS) as nat);
        (rest.0 + 1, rest.1)
    } else {
        (0, accumulated)
    }
}

/// At least one update is due exactly when a whole step is accumulated.
proof fn lemma_due_iff_whole_step(accumulated: nat)
    ensures
        accumulated >= STEP_UNITS <==> accumulated / (STEP_UNITS as nat) > 0,
{
    let s = STEP_UNITS as nat;
    if accumulated >= s {
        assert(accumulated / s >= 1) by (nonlinear_arith) requires accumulated >= s, s > 0;
    } else {
        assert(accumulated / s == 0) by (nonlinear_arith) requires accumulated < s, s > 0;
    }
}

/// Draining a tick's accumulator runs `floor(accumulated / step)` updates
/// and leaves less than one step and no less than zero, so the blending
/// factor seen by the render lies in `[0, 1)`.
pub proof fn lemma_drain(accumulated: nat)
    ensures
        drain(accumulated).0 == accumulated / (STEP_UNITS as nat),
        drain(accumulated).1 == accumulated % (STEP_UNITS as nat),
        0 <= drain(accumulated).1 < STEP_UNITS,
    decreases accumulated,
{
    let s = STEP_UNITS as nat;
    if accumulated >= s {
        lemma_drain((accumulated - s) as nat);
        assert(((accumulated - s) as nat) / s + 1 == accumulated / s
            && ((accumulated - s) as nat) % s == accumulated % s) by (nonlinear_arith)
            requires accumulated >= s, s > 0;
    } else {
        assert(accumulated / s == 0 && accumulated % s == accumulated) by (nonlinear_arith)
            requires accumulated < s, s > 0;
    }
}

/// However long a stall lasts, once it reaches `max_frame_time` the tick
/// adds exactly `max_frame_time` worth of simulated time.
pub proof fn lemma_stall_is_clamped(
    accumulated: nat,
    previous: nat,
    now: nat,
    max_frame_time: nat,
    updates_per_second: nat,
)
    requires
        now >= previous + max_frame_time,
    ensures
        accumulated_after(accumulated, previous, now, max_frame_time, updates_per_second)
            == capped(accumulated + max_frame_time * updates_per_second),
{
}

/// The fixed step of `STEP_UNITS` accumulator units lasts
/// `STEP_UNITS / (MICROS_PER_SECOND * updates_per_second)` seconds, which is
/// `1 / updates_per_second` exactly (the two fractions cross-multiplied).
pub proof fn lemma_step_is_reciprocal(updates_per_second: nat)
    requires
        updates_per_second > 0,
    ensures
        (STEP_UNITS as nat) * updates_per_second == 1 * ((MICROS_PER_SECOND as nat) * updates_per_second),
{
}

} // verus!

//! Motion profile engine for one stepper-driven linear axis.
//!
//! A move is a trapezoidal pulse schedule: the step rate starts at the
//! minimum, accelerates towards the maximum over the first half of the
//! steps, optionally cruises, then decelerates symmetrically, and the
//! schedule always holds exactly one sample per step. Step rates are kept
//! in milli-steps-per-second so the acceleration increments keep their
//! fractional part without floating point.
//!
//! The constant-rate burst that follows an early ramp-out tracks the
//! ramp-up count, and is capped so the total pulse count stays exact
//! whatever the numeric drift of the rate samples.

use vstd::prelude::*;

use crate::gpio::{pause_micros, HwError, LocalGpioConfig, OutputLine};

verus! {

/// The persisted profile of one axis: pin assignments, direction
/// polarity, travel limit, last known position and the speed profile, in
/// millimetre units. Re-read at startup and rewritten after
/// state-changing operations, so a restart resumes from the last known
/// physical position without re-homing.
#[derive(Clone, Debug)]
pub struct LocalLinearConfig {
    pub reverse: bool,
    pub step_pin: LocalGpioConfig,
    pub dir_pin: LocalGpioConfig,
    pub limit: u32,
    pub position: u32,
    pub min_mm_per_s: u32,
    pub max_mm_per_s: u32,
    pub accelerate: u32,
    pub step_per_mm: u32,
}

impl LocalLinearConfig {
    /// The bounds a usable axis profile keeps; `valid` holding is what
    /// `StepperLinear::from_config` asks of its caller.
    pub open spec fn spec_valid(self) -> bool {
        &&& 1 <= self.min_mm_per_s <= self.max_mm_per_s
        &&& 1 <= self.step_per_mm
        &&& self.max_mm_per_s * self.step_per_mm <= 1_000_000
        &&& self.accelerate * self.step_per_mm <= 1_000_000
        &&& self.position <= self.limit
        &&& self.limit <= 1_000
    }

    /// Checks the profile bounds at run time, for callers that read the
    /// profile from storage.
    pub fn valid(&self) -> (b: bool)
        ensures
            b == self.spec_valid(),
    {
        1 <= self.min_mm_per_s && self.min_mm_per_s <= self.max_mm_per_s && 1 <= self.step_per_mm
            && mul_u32(self.max_mm_per_s, self.step_per_mm) <= 1_000_000 && mul_u32(
            self.accelerate,
            self.step_per_mm,
        ) <= 1_000_000 && self.position <= self.limit && self.limit <= 1_000
    }
}

impl Default for LocalLinearConfig {
    /// The stock axis profile.
    fn default() -> (d: LocalLinearConfig)
        ensures
            d.reverse == false,
            d.limit == 200,
            d.position == 0,
            d.min_mm_per_s == 10,
            d.max_mm_per_s == 50,
            d.accelerate == 100,
            d.step_per_mm == 40,
            d.spec_valid(),
    {
        LocalLinearConfig {
            reverse: false,
            step_pin: Default::default(),
            dir_pin: Default::default(),
            limit: 200,
            position: 0,
            min_mm_per_s: 10,
            max_mm_per_s: 50,
            accelerate: 100,
            step_per_mm: 40,
        }
    }
}

/// Widening product of two pin-profile parameters.
fn mul_u32(a: u32, b: u32) -> (r: u64)
    ensures
        r == a as int * b as int,
{
    proof {
        assert((a as int) * (b as int) <= 4294967295 * 4294967295) by (nonlinear_arith)
            requires
                a <= 4294967295,
                b <= 4294967295,
        ;
    }
    (a as u64) * (b as u64)
}

/// One rate increment upwards: the rate gains `accel / sps` steps per
/// second (in milli-units: `accel * 1_000_000 / sps`), clamped at the
/// maximum rate.
pub open spec fn spec_next_up(sps: u64, accel: u64, max_sps: u64) -> u64 {
    let d = (accel * 1_000_000) / (sps as int);
    if sps + d >= max_sps {
        max_sps
    } else {
        (sps + d) as u64
    }
}

/// One rate increment downwards, clamped at the minimum rate.
pub open spec fn spec_next_down(sps: u64, accel: u64, min_sps: u64) -> u64 {
    let d = (accel * 1_000_000) / (sps as int);
    if sps <= min_sps + d {
        min_sps
    } else {
        (sps - d) as u64
    }
}

/// Rate samples of the acceleration phase: one sample per pulse, starting
/// at `sps`, stopping when the maximum rate is reached or `fuel` pulses
/// were scheduled.
pub open spec fn spec_accel_samples(sps: u64, accel: u64, max_sps: u64, fuel: nat) -> Seq<u64>
    decreases fuel,
{
    if fuel == 0 || sps >= max_sps {
        Seq::empty()
    } else {
        seq![sps] + spec_accel_samples(
            spec_next_up(sps, accel, max_sps),
            accel,
            max_sps,
            (fuel - 1) as nat,
        )
    }
}

/// The rate at which the acceleration phase ends.
pub open spec fn spec_accel_end(sps: u64, accel: u64, max_sps: u64, fuel: nat) -> u64
    decreases fuel,
{
    if fuel == 0 || sps >= max_sps {
        sps
    } else {
        spec_accel_end(spec_next_up(sps, accel, max_sps), accel, max_sps, (fuel - 1) as nat)
    }
}

/// Rate samples of the deceleration phase: exactly `fuel` samples,
/// decrementing symmetrically and clamped at the minimum rate.
pub open spec fn spec_decel_samples(sps: u64, accel: u64, min_sps: u64, fuel: nat) -> Seq<u64>
    decreases fuel,
{
    if fuel == 0 {
        Seq::empty()
    } else {
        seq![sps] + spec_decel_samples(
            spec_next_down(sps, accel, min_sps),
            accel,
            min_sps,
            (fuel - 1) as nat,
        )
    }
}

/// The complete rate schedule of a move of `steps` pulses: accelerate over
/// at most the first half, cruise for up to twice the ramp-up count when
/// the maximum rate was reached early (capped so the total stays exact),
/// then decelerate for whatever remains.
pub open spec fn spec_profile(min_sps: u64, max_sps: u64, accel: u64, steps: u32) -> Seq<u64> {
    let mid = steps as int / 2;
    let a = spec_accel_samples(min_sps, accel, max_sps, mid as nat);
    let alen = a.len() as int;
    let s1 = spec_accel_end(min_sps, accel, max_sps, mid as nat);
    let cruise_n = if alen < mid {
        if 2 * alen <= steps - alen {
            2 * alen
        } else {
            steps - alen
        }
    } else {
        0
    };
    let decel_n = steps - alen - cruise_n;
    a + Seq::new(cruise_n as nat, |i: int| s1) + spec_decel_samples(
        s1,
        accel,
        min_sps,
        decel_n as nat,
    )
}

/// Unfolds one step of the acceleration phase.
proof fn lemma_accel_unfold(sps: u64, accel: u64, max_sps: u64, fuel: nat)
    requires
        fuel > 0,
        sps < max_sps,
    ensures
        spec_accel_samples(sps, accel, max_sps, fuel) == seq![sps] + spec_accel_samples(
            spec_next_up(sps, accel, max_sps),
            accel,
            max_sps,
            (fuel - 1) as nat,
        ),
        spec_accel_end(sps, accel, max_sps, fuel) == spec_accel_end(
            spec_next_up(sps, accel, max_sps),
            accel,
            max_sps,
            (fuel - 1) as nat,
        ),
{
}

/// Unfolds one step of the deceleration phase.
proof fn lemma_decel_unfold(sps: u64, accel: u64, min_sps: u64, fuel: nat)
    requires
        fuel > 0,
    ensures
        spec_decel_samples(sps, accel, min_sps, fuel) == seq![sps] + spec_decel_samples(
            spec_next_down(sps, accel, min_sps),
            accel,
            min_sps,
            (fuel - 1) as nat,
        ),
{
}

/// The acceleration phase never schedules more samples than its fuel.
proof fn lemma_accel_len(sps: u64, accel: u64, max_sps: u64, fuel: nat)
    ensures
        spec_accel_samples(sps, accel, max_sps, fuel).len() <= fuel,
    decreases fuel,
{
    if fuel > 0 && sps < max_sps {
        lemma_accel_len(spec_next_up(sps, accel, max_sps), accel, max_sps, (fuel - 1) as nat);
    }
}

/// The rate the acceleration phase ends at stays within the configured
/// band.
proof fn lemma_accel_end_bounds(sps: u64, accel: u64, max_sps: u64, fuel: nat)
    requires
        1 <= sps <= max_sps,
    ensures
        sps <= spec_accel_end(sps, accel, max_sps, fuel) <= max_sps,
    decreases fuel,
{
    if fuel > 0 && sps < max_sps {
        lemma_accel_end_bounds(spec_next_up(sps, accel, max_sps), accel, max_sps, (fuel - 1) as nat);
    }
}

/// Computes one upward rate increment.
fn next_up(sps: u64, accel: u64, max_sps: u64) -> (r: u64)
    requires
        1 <= sps,
        sps <= 1_000_000_000_000,
        accel <= 1_000_000,
    ensures
        r == spec_next_up(sps, accel, max_sps),
{
    let d: u64 = accel * 1_000_000 / sps;
    if sps + d >= max_sps {
        max_sps
    } else {
        sps + d
    }
}

/// Computes one downward rate increment.
fn next_down(sps: u64, accel: u64, min_sps: u64) -> (r: u64)
    requires
        1 <= sps,
        sps <= 1_000_000_000_000,
        min_sps <= 1_000_000_000_000,
        accel <= 1_000_000,
    ensures
        r == spec_next_down(sps, accel, min_sps),
{
    let d: u64 = accel * 1_000_000 / sps;
    if sps <= min_sps + d {
        min_sps
    } else {
        sps - d
    }
}

/// Computes the trapezoidal rate schedule for a move of `steps` pulses.
/// The schedule holds exactly one rate sample per pulse, and every sample
/// is clamped within the configured `[min_sps, max_sps]` band.
pub fn ramp_profile(min_sps: u64, max_sps: u64, accel: u64, steps: u32) -> (plan: Vec<u64>)
    requires
        1 <= min_sps <= max_sps,
        max_sps <= 1_000_000_000_000,
        accel <= 1_000_000,
    ensures
        plan@ == spec_profile(min_sps, max_sps, accel, steps),
        plan@.len() == steps,
        forall|i: int| 0 <= i < plan@.len() ==> min_sps <= #[trigger] plan@[i] <= max_sps,
{
    let mid: u32 = steps / 2;
    let ghost fuel0: nat = mid as nat;
    let mut plan: Vec<u64> = Vec::new();
    let mut sps: u64 = min_sps;
    while sps < max_sps && plan.len() < mid as usize
        invariant
            1 <= min_sps <= sps <= max_sps <= 1_000_000_000_000,
            accel <= 1_000_000,
            mid == steps / 2,
            fuel0 == mid as nat,
            plan@.len() <= mid,
            forall|i: int| 0 <= i < plan@.len() ==> min_sps <= #[trigger] plan@[i] <= max_sps,
            spec_accel_samples(min_sps, accel, max_sps, fuel0) == plan@ + spec_accel_samples(
                sps,
                accel,
                max_sps,
                (fuel0 - plan@.len()) as nat,
            ),
            spec_accel_end(min_sps, accel, max_sps, fuel0) == spec_accel_end(
                sps,
                accel,
                max_sps,
                (fuel0 - plan@.len()) as nat,
            ),
        decreases mid as int - plan@.len(),
    {
        proof {
            assert(plan@.len() < fuel0);
            lemma_accel_unfold(sps, accel, max_sps, (fuel0 - plan@.len()) as nat);
        }
        let ghost prefix = plan@;
        plan.push(sps);
        proof {
            assert(plan@ =~= prefix + seq![sps]);
            assert(prefix + (seq![sps] + spec_accel_samples(
                spec_next_up(sps, accel, max_sps),
                accel,
                max_sps,
                (fuel0 - prefix.len() - 1) as nat,
            )) =~= plan@ + spec_accel_samples(
                spec_next_up(sps, accel, max_sps),
                accel,
                max_sps,
                (fuel0 - plan@.len()) as nat,
            ));
        }
        sps = next_up(sps, accel, max_sps);
    }
    proof {
        assert(spec_accel_samples(sps, accel, max_sps, (fuel0 - plan@.len()) as nat)
            =~= Seq::<u64>::empty());
        assert(spec_accel_samples(min_sps, accel, max_sps, fuel0) =~= plan@);
        assert(spec_accel_end(min_sps, accel, max_sps, fuel0) == sps);
    }
    let ghost accel_part = plan@;
    let ghost s1 = sps;
    let alen: usize = plan.len();
    let mut cruise_n: u32 = 0;
    if alen < mid as usize {
        let rem: u32 = steps - (alen as u32);
        let twice: u64 = 2 * (alen as u64);
        cruise_n = if twice < rem as u64 {
            twice as u32
        } else {
            rem
        };
        let mut j: u32 = 0;
        while j < cruise_n
            invariant
                j <= cruise_n,
                sps == s1,
                1 <= min_sps <= sps <= max_sps,
                plan@ =~= accel_part + Seq::new(j as nat, |i: int| s1),
                forall|i: int| 0 <= i < plan@.len() ==> min_sps <= #[trigger] plan@[i] <= max_sps,
            decreases cruise_n - j,
        {
            plan.push(sps);
            proof {
                assert(plan@ =~= accel_part + Seq::new((j + 1) as nat, |i: int| s1));
            }
            j = j + 1;
        }
    }
    proof {
        assert(plan@ =~= accel_part + Seq::new(cruise_n as nat, |i: int| s1));
        lemma_accel_len(min_sps, accel, max_sps, fuel0);
    }
    let ghost head = plan@;
    let ghost decel_fuel: nat = (steps - plan@.len()) as nat;
    while plan.len() < steps as usize
        invariant
            1 <= min_sps <= sps <= max_sps <= 1_000_000_000_000,
            accel <= 1_000_000,
            plan@.len() <= steps,
            forall|i: int| 0 <= i < plan@.len() ==> min_sps <= #[trigger] plan@[i] <= max_sps,
            head + spec_decel_samples(s1, accel, min_sps, decel_fuel) =~= plan@
                + spec_decel_samples(sps, accel, min_sps, (steps - plan@.len()) as nat),
        decreases steps as int - plan@.len(),
    {
        proof {
            lemma_decel_unfold(sps, accel, min_sps, (steps - plan@.len()) as nat);
        }
        let ghost prefix = plan@;
        plan.push(sps);
        proof {
            assert(plan@ =~= prefix + seq![sps]);
            assert(prefix + (seq![sps] + spec_decel_samples(
                spec_next_down(sps, accel, min_sps),
                accel,
                min_sps,
                (steps - prefix.len() - 1) as nat,
            )) =~= plan@ + spec_decel_samples(
                spec_next_down(sps, accel, min_sps),
                accel,
                min_sps,
                (steps - plan@.len()) as nat,
            ));
        }
        sps = next_down(sps, accel, min_sps);
    }
    proof {
        assert(spec_decel_samples(sps, accel, min_sps, (steps - plan@.len()) as nat)
            =~= Seq::<u64>::empty());
        assert(plan@ =~= head + spec_decel_samples(s1, accel, min_sps, decel_fuel));
        lemma_accel_end_bounds(min_sps, accel, max_sps, fuel0);
        assert(plan@ =~= spec_profile(min_sps, max_sps, accel, steps));
    }
    plan
}

/// The level the direction line is left at for a move: the forward level
/// equals the `reversed` polarity flag, a negative move inverts it.
pub open spec fn spec_dir_level(reversed: bool, diff_neg: bool) -> bool {
    if diff_neg {
        !reversed
    } else {
        reversed
    }
}

/// The same position difference yields the opposite direction-line level
/// under the opposite `reversed` polarity.
pub proof fn lemma_direction_polarity(diff_neg: bool)
    ensures
        spec_dir_level(false, diff_neg) != spec_dir_level(true, diff_neg),
{
}

/// Number of step pulses a move between two axis positions takes.
pub open spec fn spec_steps_between(from: i32, to: i32, steps_per_mm: u32) -> int {
    if to >= from {
        (to - from) * steps_per_mm
    } else {
        (from - to) * steps_per_mm
    }
}

/// A move that starts at its own target computes zero pulses, so repeating
/// a completed move emits nothing and leaves the axis where it is.
pub proof fn lemma_repeat_move_is_empty(p: i32, steps_per_mm: u32)
    ensures
        spec_steps_between(p, p, steps_per_mm) == 0,
{
}

/// One stepper-driven linear axis: its direction and step lines, the
/// polarity of the direction line, the position reached by the last
/// completed move, and the speed profile parameters (millimetre units,
/// converted to step units per move).
pub struct StepperLinear {
    pub dir_pin: OutputLine,
    pub step_pin: OutputLine,
    pub reversed: bool,
    pub position: i32,
    pub min_speed: u32,
    pub max_speed: u32,
    pub accelerate: u32,
    pub steps_per_mm: u32,
}

impl StepperLinear {
    /// Profile parameters an axis must keep: a positive speed band in
    /// order, a positive steps-per-millimetre ratio, machine bounds that
    /// keep every step computation in range, and the position within the
    /// travel the rig can address.
    pub open spec fn wf(self) -> bool {
        &&& 1 <= self.min_speed
        &&& self.min_speed <= self.max_speed
        &&& 1 <= self.steps_per_mm
        &&& self.max_speed * self.steps_per_mm <= 1_000_000
        &&& self.accelerate * self.steps_per_mm <= 1_000_000
        &&& -1_000 <= self.position <= 1_000
    }

    /// The profile parameters and line ports two axis states share when
    /// only a move happened between them.
    pub open spec fn same_config(self, other: StepperLinear) -> bool {
        &&& self.reversed == other.reversed
        &&& self.min_speed == other.min_speed
        &&& self.max_speed == other.max_speed
        &&& self.accelerate == other.accelerate
        &&& self.steps_per_mm == other.steps_per_mm
        &&& self.dir_pin.port == other.dir_pin.port
        &&& self.step_pin.port == other.step_pin.port
    }

    /// Builds an axis around its two opened output lines.
    pub fn new(
        dir_pin: OutputLine,
        step_pin: OutputLine,
        reversed: bool,
        min_speed: u32,
        max_speed: u32,
        accelerate: u32,
        steps_per_mm: u32,
    ) -> (axis: StepperLinear)
        requires
            1 <= min_speed <= max_speed,
            1 <= steps_per_mm,
            max_speed * steps_per_mm <= 1_000_000,
            accelerate * steps_per_mm <= 1_000_000,
        ensures
            axis.wf(),
            axis.position == 0,
            axis.dir_pin == dir_pin,
            axis.step_pin == step_pin,
            axis.reversed == reversed,
            axis.min_speed == min_speed,
            axis.max_speed == max_speed,
            axis.accelerate == accelerate,
            axis.steps_per_mm == steps_per_mm,
    {
        StepperLinear {
            dir_pin,
            step_pin,
            reversed,
            position: 0,
            min_speed,
            max_speed,
            accelerate,
            steps_per_mm,
        }
    }

    /// Builds an axis from its persisted profile and its two opened
    /// output lines, resuming at the profile's recorded position.
    pub fn from_config(cfg: &LocalLinearConfig, dir_pin: OutputLine, step_pin: OutputLine) -> (axis:
        StepperLinear)
        requires
            cfg.spec_valid(),
        ensures
            axis.wf(),
            axis.reversed == cfg.reverse,
            axis.position == cfg.position as i32,
            axis.min_speed == cfg.min_mm_per_s,
            axis.max_speed == cfg.max_mm_per_s,
            axis.accelerate == cfg.accelerate,
            axis.steps_per_mm == cfg.step_per_mm,
            axis.dir_pin == dir_pin,
            axis.step_pin == step_pin,
    {
        StepperLinear {
            dir_pin,
            step_pin,
            reversed: cfg.reverse,
            position: cfg.position as i32,
            min_speed: cfg.min_mm_per_s,
            max_speed: cfg.max_mm_per_s,
            accelerate: cfg.accelerate,
            steps_per_mm: cfg.step_per_mm,
        }
    }

    /// Sets the direction line to its forward level and lets it settle.
    pub fn forward(&mut self) -> (r: Result<(), HwError>)
        requires
            old(self).dir_pin.rises < u64::MAX,
        ensures
            old(self).dir_pin.port is Stub ==> r is Ok,
            final(self).position == old(self).position,
            final(self).same_config(*old(self)),
            final(self).step_pin == old(self).step_pin,
            old(self).dir_pin.rises <= final(self).dir_pin.rises <= old(self).dir_pin.rises + 1,
            r is Ok ==> final(self).dir_pin.level == old(self).reversed,
            r is Err ==> final(self).dir_pin.level == old(self).dir_pin.level,
    {
        let high = self.reversed;
        match self.dir_pin.set_level(high) {
            Ok(_) => {},
            Err(e) => {
                return Err(e);
            },
        }
        pause_micros(10);
        Ok(())
    }

    /// Sets the direction line to its backward level and lets it settle.
    pub fn backward(&mut self) -> (r: Result<(), HwError>)
        requires
            old(self).dir_pin.rises < u64::MAX,
        ensures
            old(self).dir_pin.port is Stub ==> r is Ok,
            final(self).position == old(self).position,
            final(self).same_config(*old(self)),
            final(self).step_pin == old(self).step_pin,
            old(self).dir_pin.rises <= final(self).dir_pin.rises <= old(self).dir_pin.rises + 1,
            r is Ok ==> final(self).dir_pin.level == !old(self).reversed,
            r is Err ==> final(self).dir_pin.level == old(self).dir_pin.level,
    {
        let high = !self.reversed;
        match self.dir_pin.set_level(high) {
            Ok(_) => {},
            Err(e) => {
                return Err(e);
            },
        }
        pause_micros(10);
        Ok(())
    }

    /// Emits one pulse per schedule entry on the step line: a high-then-low
    /// transition separated by a fixed minimum assert width, followed by
    /// the entry's computed inter-step delay. Aborts on the first line
    /// fault.
    fn drive_pulses(line: &mut OutputLine, plan: &Vec<u64>) -> (r: Result<(), HwError>)
        requires
            old(line).level == false,
            old(line).rises + plan@.len() <= u64::MAX,
            forall|i: int| 0 <= i < plan@.len() ==> 1 <= #[trigger] plan@[i],
        ensures
            old(line).port is Stub ==> r is Ok,
            final(line).port == old(line).port,
            r is Ok ==> final(line).rises == old(line).rises + plan@.len() && final(line).level
                == false,
            old(line).rises <= final(line).rises <= old(line).rises + plan@.len(),
    {
        let mut i: usize = 0;
        while i < plan.len()
            invariant
                i <= plan@.len(),
                line.level == false,
                line.rises == old(line).rises + i,
                old(line).rises + plan@.len() <= u64::MAX,
                line.port == old(line).port,
                forall|k: int| 0 <= k < plan@.len() ==> 1 <= #[trigger] plan@[k],
            decreases plan@.len() - i,
        {
            match line.set_level(true) {
                Ok(_) => {},
                Err(e) => {
                    return Err(e);
                },
            }
            pause_micros(2);
            match line.set_level(false) {
                Ok(_) => {},
                Err(e) => {
                    return Err(e);
                },
            }
            pause_micros(1_000_000_000 / plan[i]);
            i = i + 1;
        }
        Ok(())
    }

    /// Moves the axis to `position`: sets the direction line (honouring the
    /// `reversed` polarity) with a settle delay, then emits exactly one
    /// step pulse per step of the trapezoidal schedule. The recorded
    /// position is updated only when the whole move completed; a hardware
    /// fault aborts without updating it, and the axis must then be re-homed
    /// before its timing-derived position can be trusted again.
    pub fn goto(&mut self, position: i32) -> (r: Result<i32, HwError>)
        requires
            old(self).wf(),
            -1_000 <= position <= 1_000,
            old(self).step_pin.rises <= u64::MAX - 2_000_000_000,
            old(self).dir_pin.rises < u64::MAX - 1,
        ensures
            old(self).dir_pin.port is Stub && old(self).step_pin.port is Stub ==> r is Ok,
            final(self).wf(),
            final(self).same_config(*old(self)),
            r is Ok ==> final(self).position == position && r == Ok::<i32, HwError>(position),
            r is Ok ==> final(self).step_pin.rises == old(self).step_pin.rises
                + spec_steps_between(old(self).position, position, old(self).steps_per_mm),
            r is Ok ==> final(self).step_pin.level == false,
            r is Ok ==> final(self).dir_pin.level == spec_dir_level(
                old(self).reversed,
                position < old(self).position,
            ),
            r is Err ==> final(self).position == old(self).position,
            old(self).step_pin.rises <= final(self).step_pin.rises <= old(self).step_pin.rises
                + spec_steps_between(old(self).position, position, old(self).steps_per_mm),
    {
        if self.step_pin.level {
            match self.step_pin.set_level(false) {
                Ok(_) => {},
                Err(e) => {
                    return Err(e);
                },
            }
        }
        let diff: i32 = position - self.position;
        match self.forward() {
            Ok(_) => {},
            Err(e) => {
                return Err(e);
            },
        }
        if diff < 0 {
            match self.backward() {
                Ok(_) => {},
                Err(e) => {
                    return Err(e);
                },
            }
        }
        let spm: u64 = self.steps_per_mm as u64;
        let absdiff: u64 = if diff >= 0 {
            diff as u64
        } else {
            (-(diff as i64)) as u64
        };
        proof {
            assert(1 * 1 <= self.min_speed * self.steps_per_mm) by (nonlinear_arith)
                requires
                    1 <= self.min_speed,
                    1 <= self.steps_per_mm,
            ;
            assert(self.min_speed * self.steps_per_mm <= self.max_speed * self.steps_per_mm)
                by (nonlinear_arith)
                requires
                    self.min_speed <= self.max_speed,
                    1 <= self.steps_per_mm,
            ;
            assert(absdiff * self.steps_per_mm <= 2_000 * self.steps_per_mm) by (nonlinear_arith)
                requires
                    absdiff <= 2_000,
                    1 <= self.steps_per_mm,
            ;
            assert(self.steps_per_mm <= self.max_speed * self.steps_per_mm) by (nonlinear_arith)
                requires
                    1 <= self.max_speed,
                    1 <= self.steps_per_mm,
            ;
        }
        let steps64: u64 = absdiff * spm;
        let steps: u32 = steps64 as u32;
        let min_sps: u64 = (self.min_speed as u64) * spm * 1000;
        let max_sps: u64 = (self.max_speed as u64) * spm * 1000;
        let accel: u64 = (self.accelerate as u64) * spm;
        let plan = ramp_profile(min_sps, max_sps, accel, steps);
        match Self::drive_pulses(&mut self.step_pin, &plan) {
            Ok(_) => {},
            Err(e) => {
                return Err(e);
            },
        }
        self.position = position;
        Ok(self.position)
    }

    /// Moves the axis by `length` millimetres relative to where it is, as
    /// a move to `position + length`.
    pub fn move_by(&mut self, length: i32) -> (r: Result<i32, HwError>)
        requires
            old(self).wf(),
            -1_000 <= old(self).position + length <= 1_000,
            old(self).step_pin.rises <= u64::MAX - 2_000_000_000,
            old(self).dir_pin.rises < u64::MAX - 1,
        ensures
            old(self).dir_pin.port is Stub && old(self).step_pin.port is Stub ==> r is Ok,
            final(self).wf(),
            final(self).same_config(*old(self)),
            r is Ok ==> final(self).position == old(self).position + length && r
                == Ok::<i32, HwError>((old(self).position + length) as i32),
            r is Ok ==> final(self).step_pin.rises == old(self).step_pin.rises
                + spec_steps_between(
                old(self).position,
                (old(self).position + length) as i32,
                old(self).steps_per_mm,
            ),
            r is Err ==> final(self).position == old(self).position,
    {
        let target: i32 = self.position + length;
        self.goto(target)
    }
}

} // verus!

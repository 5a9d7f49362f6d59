use vstd::prelude::*;
use rand::rngs::SmallRng;
use rand::{Rng, SeedableRng};
use crate::motor::{Motor, MotorDirection, MAX_PWM_DUTY_PERCENT};
use crate::params::{
    duration_bound_ok, duty_bound_ok, ParameterStore, MIN_MOTOR_DUTY_PERCENT,
    MIN_MOVEMENT_DURATION_MS,
};

verus! {

/// Period of the scheduler's and the monitors' polling, in milliseconds.
pub const POLL_TICK_MS: u64 = 200;

/// rand's `SmallRng`, the scheduler's source of randomness, carried as an
/// opaque value.
#[verifier::external_type_specification]
#[verifier::external_body]
pub struct ExSmallRng(SmallRng);

/// Relies on rand_core's `SeedableRng::seed_from_u64` to build the generator
/// for SmallRng from a seed; nothing is assumed of its state.
#[verifier::external_body]
fn seeded_rng(seed: u64) -> SmallRng {
    SmallRng::seed_from_u64(seed)
}

/// Relies on rand's `Rng::gen_range` over `low..=high`: the value drawn lies
/// in `[low, high]`. It panics on an empty range, which `requires` excludes.
#[verifier::external_body]
fn draw_between(rng: &mut SmallRng, low: u16, high: u16) -> (r: u16)
    requires
        low <= high,
    ensures
        low <= r <= high,
{
    rng.gen_range(low..=high)
}

/// One contiguous motor-on interval of fixed direction, intensity and
/// planned length.
#[derive(Clone, Copy, Debug, PartialEq, Eq, Structural)]
pub struct Segment {
    pub direction: MotorDirection,
    pub duty_percent: u8,
    pub duration_ms: u16,
}

/// Direction of the segment with index `i`, counting from zero: forward
/// first, then alternating.
pub open spec fn direction_of_segment(i: nat) -> MotorDirection {
    if i % 2 == 0 {
        MotorDirection::Forward
    } else {
        MotorDirection::Reverse
    }
}

/// Whether a segment of planned length `duration_ms`, polled `elapsed_ms`
/// after its start, is over.
pub open spec fn segment_over(elapsed_ms: int, duration_ms: int, drastic: bool) -> bool {
    drastic || elapsed_ms > duration_ms
}

impl Segment {
    /// Whether the segment should end at a poll `elapsed_ms` after its start:
    /// its planned length has passed, or a drastic change was signalled.
    pub fn should_end(&self, elapsed_ms: u64, store: &ParameterStore) -> (r: bool)
        ensures
            r == segment_over(elapsed_ms as int, self.duration_ms as int, store.drastic()),
    {
        store.drastic_change_raised() || elapsed_ms > self.duration_ms as u64
    }
}

/// The main control loop's decisions: which segment comes next.
pub struct MotionScheduler {
    direction: MotorDirection,
    rng: SmallRng,
    started: Ghost<nat>,
}

impl MotionScheduler {
    /// The direction of the next segment agrees with how many have started.
    pub closed spec fn wf(&self) -> bool {
        self.direction == direction_of_segment(self.started@)
    }

    /// How many segments have started so far.
    pub closed spec fn segments_started(&self) -> nat {
        self.started@
    }

    /// A scheduler whose first segment will run forward.
    pub fn new(seed: u64) -> (s: Self)
        ensures
            s.wf(),
            s.segments_started() == 0,
    {
        MotionScheduler {
            direction: MotorDirection::Forward,
            rng: seeded_rng(seed),
            started: Ghost(0),
        }
    }

    /// Direction of the next segment.
    pub fn next_direction(&self) -> (r: MotorDirection)
        requires
            self.wf(),
        ensures
            r == direction_of_segment(self.segments_started()),
    {
        self.direction
    }

    /// Draws the next segment under the given ceilings: intensity from
    /// `[20, max_duty]` and length from `[200, max_duration]`, in the
    /// direction opposite to the previous segment.
    pub fn plan_segment(&mut self, max_duty: u8, max_duration: u16) -> (seg: Segment)
        requires
            old(self).wf(),
            duty_bound_ok(max_duty as int),
            duration_bound_ok(max_duration as int),
        ensures
            final(self).wf(),
            final(self).segments_started() == old(self).segments_started() + 1,
            seg.direction == direction_of_segment(old(self).segments_started()),
            MIN_MOTOR_DUTY_PERCENT <= seg.duty_percent <= max_duty,
            MIN_MOVEMENT_DURATION_MS <= seg.duration_ms <= max_duration,
    {
        let duty = draw_between(&mut self.rng, MIN_MOTOR_DUTY_PERCENT as u16, max_duty as u16);
        let duration = draw_between(&mut self.rng, MIN_MOVEMENT_DURATION_MS, max_duration);
        let seg = Segment {
            direction: self.direction,
            duty_percent: duty as u8,
            duration_ms: duration,
        };
        self.direction = self.direction.opposite();
        self.started = Ghost(self.started@ + 1);
        seg
    }

    /// Starts the next segment: reads the current ceilings from `store`,
    /// draws the segment under them, drives `motor` accordingly, and then
    /// lowers the drastic-change signal, so that only changes detected while
    /// the segment runs can end it early.
    pub fn start_segment(&mut self, store: &mut ParameterStore, motor: &mut Motor) -> (seg: Segment)
        requires
            old(self).wf(),
        ensures
            final(self).wf(),
            final(self).segments_started() == old(self).segments_started() + 1,
            seg.direction == direction_of_segment(old(self).segments_started()),
            MIN_MOTOR_DUTY_PERCENT <= seg.duty_percent <= old(store).max_duty(),
            MIN_MOVEMENT_DURATION_MS <= seg.duration_ms <= old(store).max_duration(),
            final(motor).duty_towards(seg.direction) == seg.duty_percent,
            final(motor).duty_towards(seg.direction.flipped()) == 0,
            !final(store).drastic(),
            final(store).max_duty() == old(store).max_duty(),
            final(store).max_duration() == old(store).max_duration(),
    {
        let max_duty = store.get_max_duty();
        let max_duration = store.get_max_duration();
        let seg = self.plan_segment(max_duty, max_duration);
        assert(seg.duty_percent <= MAX_PWM_DUTY_PERCENT);
        motor.start_movement(seg.direction, seg.duty_percent);
        store.take_and_clear_drastic_change();
        seg
    }
}

/// The first segment runs forward, and each later one runs opposite to the
/// one before it.
pub proof fn lemma_directions_alternate(i: nat)
    ensures
        direction_of_segment(0) == MotorDirection::Forward,
        direction_of_segment(i + 1) == direction_of_segment(i).flipped(),
{
}

/// Index (from one) of the first poll that comes at or after `t`
/// milliseconds into a segment.
pub open spec fn first_poll_at_or_after(t: nat) -> nat {
    if t == 0 {
        1
    } else {
        ((t + POLL_TICK_MS - 1) / (POLL_TICK_MS as int)) as nat
    }
}

/// Whether a segment of planned length `d`, in which a drastic change was
/// signalled `t` milliseconds after its start, ends at its `k`-th poll.
pub open spec fn ends_at_poll(k: nat, d: nat, t: nat) -> bool {
    segment_over(k * POLL_TICK_MS, d as int, t <= k * POLL_TICK_MS)
}

/// A drastic change signalled at `t`, before the planned length `d` has
/// passed, ends the segment at the first poll at or after `t`, which comes at
/// most one tick later; no earlier poll ends it.
pub proof fn lemma_drastic_change_ends_segment_early(d: nat, t: nat)
    requires
        t < d,
    ensures
        ({
            let k = first_poll_at_or_after(t);
            &&& k >= 1
            &&& t <= k * POLL_TICK_MS <= t + POLL_TICK_MS
            &&& ends_at_poll(k, d, t)
            &&& forall|j: nat| 1 <= j < k ==> !ends_at_poll(j, d, t)
        }),
{
    let k = first_poll_at_or_after(t);
    if t > 0 {
        assert(t <= k * 200 <= t + 199) by (nonlinear_arith)
            requires
                t > 0,
                k == (t + 199) / 200,
        ;
        assert forall|j: nat| 1 <= j < k implies !#[trigger] ends_at_poll(j, d, t) by {
            assert(j * 200 < t) by (nonlinear_arith)
                requires
                    j < k,
                    k == (t + 199) / 200,
                    t > 0,
            ;
        }
    }
}

} // verus!

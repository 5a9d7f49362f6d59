use vstd::prelude::*;
use crate::params::{
    ParameterStore, MAX_MOTOR_DUTY_PERCENT, MAX_MOVEMENT_DURATION_MS, MIN_MOTOR_DUTY_PERCENT,
    MIN_MOVEMENT_DURATION_MS,
};
use crate::range_map::{abs, lemma_map_within_output, map_range, map_spec};

verus! {

/// Raw samples taken per sampling burst.
pub const SAMPLES_PER_AVERAGE: usize = 100;

/// Lowest reading of the analog inputs, in millivolts.
pub const MIN_ADC_MILLIVOLTS: u16 = 0;

/// Highest reading of the analog inputs, in millivolts.
pub const MAX_ADC_MILLIVOLTS: u16 = 3000;

/// A change of a mapped value by more than this, between two consecutive
/// bursts of one monitor, counts as drastic.
pub const DRASTIC_CHANGE_THRESHOLD: u16 = 10;

/// Sum of the samples.
pub open spec fn sum_of(s: Seq<u16>) -> int
    decreases s.len(),
{
    if s.len() == 0 {
        0
    } else {
        sum_of(s.drop_last()) + s.last()
    }
}

/// Truncated mean of a non-empty burst.
pub open spec fn average_of(s: Seq<u16>) -> int
    recommends
        s.len() > 0,
{
    sum_of(s) / (s.len() as int)
}

proof fn lemma_sum_bounded(s: Seq<u16>)
    ensures
        0 <= sum_of(s) <= s.len() * 0xffff,
    decreases s.len(),
{
    if s.len() > 0 {
        lemma_sum_bounded(s.drop_last());
    }
}

/// The truncated mean of the samples, or `None` for an empty burst.
pub fn average_reading(samples: &Vec<u16>) -> (r: Option<u16>)
    ensures
        samples@.len() == 0 ==> r is None,
        samples@.len() > 0 ==> r == Some(average_of(samples@) as u16),
        samples@.len() > 0 ==> 0 <= average_of(samples@) <= u16::MAX,
{
    let n = samples.len();
    if n == 0 {
        return None;
    }
    let mut total: u128 = 0;
    let mut i: usize = 0;
    while i < n
        invariant
            n == samples@.len(),
            i <= n,
            total == sum_of(samples@.take(i as int)),
            total <= i * 0xffff,
        decreases n - i,
    {
        assert(samples@.take(i as int + 1).drop_last() == samples@.take(i as int));
        total = total + samples[i] as u128;
        i = i + 1;
    }
    assert(samples@.take(n as int) == samples@);
    proof {
        lemma_sum_bounded(samples@);
        assert(0 <= sum_of(samples@) / (n as int) <= 0xffff) by (nonlinear_arith)
            requires
                0 <= sum_of(samples@) <= n * 0xffff,
                n > 0,
        ;
    }
    Some((total / n as u128) as u16)
}

/// One of the two tuning knobs, each feeding one bound of the store.
#[derive(Clone, Copy, Debug, PartialEq, Eq, Structural)]
pub enum Potentiometer {
    /// Sets the ceiling on motor intensity.
    Speed,
    /// Sets the ceiling on segment length.
    Duration,
}

impl Potentiometer {
    /// Low end of the knob's output domain.
    pub open spec fn out_min(self) -> int {
        match self {
            Potentiometer::Speed => MIN_MOTOR_DUTY_PERCENT as int,
            Potentiometer::Duration => MIN_MOVEMENT_DURATION_MS as int,
        }
    }

    /// High end of the knob's output domain.
    pub open spec fn out_max(self) -> int {
        match self {
            Potentiometer::Speed => MAX_MOTOR_DUTY_PERCENT as int,
            Potentiometer::Duration => MAX_MOVEMENT_DURATION_MS as int,
        }
    }

    /// The knob's output for an average reading of `mv` millivolts.
    pub open spec fn mapped(self, mv: int) -> int {
        map_spec(mv, MIN_ADC_MILLIVOLTS as int, MAX_ADC_MILLIVOLTS as int, self.out_min(), self.out_max())
    }

    /// The bound of the store that this knob drives.
    pub open spec fn bound_in(self, s: &ParameterStore) -> int {
        match self {
            Potentiometer::Speed => s.max_duty() as int,
            Potentiometer::Duration => s.max_duration() as int,
        }
    }

    /// The bound of the store that this knob leaves alone.
    pub open spec fn other_bound_in(self, s: &ParameterStore) -> int {
        match self {
            Potentiometer::Speed => s.max_duration() as int,
            Potentiometer::Duration => s.max_duty() as int,
        }
    }
}

/// Whether a monitor's mapped value moving from `prev` to `next` is drastic.
pub open spec fn jump_exceeds_threshold(prev: int, next: int) -> bool {
    abs(next - prev) > DRASTIC_CHANGE_THRESHOLD
}

/// Decides whether a move of a mapped value from `prev` to `next` is drastic.
pub fn is_drastic_jump(prev: u16, next: u16) -> (r: bool)
    ensures
        r == jump_exceeds_threshold(prev as int, next as int),
{
    let diff: u16 = if prev > next { prev - next } else { next - prev };
    diff > DRASTIC_CHANGE_THRESHOLD
}

/// Why a sampling burst could not be used.
#[derive(Clone, Copy, Debug, PartialEq, Eq, Structural)]
pub enum MonitorError {
    /// The burst held no samples.
    EmptyBurst,
    /// The average reading lies above the analog input range.
    ReadingOutOfRange,
}

/// Periodic sampler of one potentiometer. It remembers its own last mapped
/// value, to detect its own jumps only.
pub struct PotentiometerMonitor {
    pot: Potentiometer,
    previous: u16,
}

impl PotentiometerMonitor {
    /// The knob this monitor samples.
    pub closed spec fn knob(&self) -> Potentiometer {
        self.pot
    }

    /// The mapped value of the last burst this monitor used.
    pub closed spec fn previous_value(&self) -> int {
        self.previous as int
    }

    /// A monitor for `pot` that has seen no burst: its previous value is the
    /// low end of the knob's domain.
    pub fn new(pot: Potentiometer) -> (m: Self)
        ensures
            m.knob() == pot,
            m.previous_value() == pot.out_min(),
    {
        let previous: u16 = match pot {
            Potentiometer::Speed => MIN_MOTOR_DUTY_PERCENT as u16,
            Potentiometer::Duration => MIN_MOVEMENT_DURATION_MS,
        };
        PotentiometerMonitor { pot, previous }
    }

    /// The mapped value of the last burst this monitor used.
    pub fn previous(&self) -> (r: u16)
        ensures
            r == self.previous_value(),
    {
        self.previous
    }

    /// Uses one sampling burst: averages it, maps the average onto the
    /// knob's domain, publishes the result into its bound of `store`, and
    /// raises the drastic-change signal when the value jumped by more than
    /// the threshold since this monitor's previous burst.
    ///
    /// An empty burst, or one whose average lies above the analog input
    /// range, changes nothing and is reported as an error.
    pub fn process_burst(&mut self, samples: &Vec<u16>, store: &mut ParameterStore) -> (r: Result<
        u16,
        MonitorError,
    >)
        ensures
            final(self).knob() == old(self).knob(),
            samples@.len() == 0 ==> r == Err::<u16, MonitorError>(MonitorError::EmptyBurst),
            samples@.len() > 0 && average_of(samples@) > MAX_ADC_MILLIVOLTS ==> r == Err::<
                u16,
                MonitorError,
            >(MonitorError::ReadingOutOfRange),
            r is Err ==> final(self).previous_value() == old(self).previous_value(),
            r is Err ==> *final(store) == *old(store),
            samples@.len() > 0 && average_of(samples@) <= MAX_ADC_MILLIVOLTS ==> ({
                let v = old(self).knob().mapped(average_of(samples@));
                &&& r == Ok::<u16, MonitorError>(v as u16)
                &&& old(self).knob().out_min() <= v <= old(self).knob().out_max()
                &&& final(self).previous_value() == v
                &&& old(self).knob().bound_in(final(store)) == v
                &&& old(self).knob().other_bound_in(final(store)) == old(self).knob().other_bound_in(
                    old(store),
                )
                &&& final(store).drastic() == (old(store).drastic() || jump_exceeds_threshold(
                    old(self).previous_value(),
                    v,
                ))
            }),
    {
        let avg = match average_reading(samples) {
            Some(a) => a,
            None => {
                return Err(MonitorError::EmptyBurst);
            },
        };
        if avg > MAX_ADC_MILLIVOLTS {
            return Err(MonitorError::ReadingOutOfRange);
        }
        let (out_min, out_max): (i32, i32) = match self.pot {
            Potentiometer::Speed => (MIN_MOTOR_DUTY_PERCENT as i32, MAX_MOTOR_DUTY_PERCENT as i32),
            Potentiometer::Duration => (
                MIN_MOVEMENT_DURATION_MS as i32,
                MAX_MOVEMENT_DURATION_MS as i32,
            ),
        };
        proof {
            lemma_map_within_output(
                avg as int,
                MIN_ADC_MILLIVOLTS as int,
                MAX_ADC_MILLIVOLTS as int,
                out_min as int,
                out_max as int,
            );
        }
        let mapped = map_range(
            avg as i32,
            MIN_ADC_MILLIVOLTS as i32,
            MAX_ADC_MILLIVOLTS as i32,
            out_min,
            out_max,
        );
        let v: u16 = match mapped {
            Some(m) => m as u16,
            None => {
                return Err(MonitorError::ReadingOutOfRange);
            },
        };
        match self.pot {
            Potentiometer::Speed => store.set_max_duty(v as u8),
            Potentiometer::Duration => store.set_max_duration(v),
        }
        if is_drastic_jump(self.previous, v) {
            store.raise_drastic_change();
        }
        self.previous = v;
        Ok(v)
    }
}

} // verus!

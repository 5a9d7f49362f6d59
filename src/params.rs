use vstd::prelude::*;

verus! {

/// Lowest ceiling on the randomized motor intensity, in percent.
pub const MIN_MOTOR_DUTY_PERCENT: u8 = 20;

/// Highest ceiling on the randomized motor intensity, in percent.
pub const MAX_MOTOR_DUTY_PERCENT: u8 = 100;

/// Lowest ceiling on the randomized segment length, in milliseconds.
pub const MIN_MOVEMENT_DURATION_MS: u16 = 200;

/// Highest ceiling on the randomized segment length, in milliseconds.
pub const MAX_MOVEMENT_DURATION_MS: u16 = 2000;

/// The tunable bounds shared between the potentiometer monitors and the
/// motion scheduler, and the one-shot "drastic change" signal.
///
/// Each bound stays within its static range at all times; the two bounds are
/// independent of each other. Callers that share the store between tasks
/// hold it behind a lock for the length of one call.
pub struct ParameterStore {
    max_duty_percent: u8,
    max_movement_duration_ms: u16,
    drastic_change: bool,
}

/// Whether `v` is an admissible ceiling on the motor intensity.
pub open spec fn duty_bound_ok(v: int) -> bool {
    MIN_MOTOR_DUTY_PERCENT <= v <= MAX_MOTOR_DUTY_PERCENT
}

/// Whether `v` is an admissible ceiling on the segment length.
pub open spec fn duration_bound_ok(v: int) -> bool {
    MIN_MOVEMENT_DURATION_MS <= v <= MAX_MOVEMENT_DURATION_MS
}

impl ParameterStore {
    #[verifier::type_invariant]
    spec fn within_bounds(&self) -> bool {
        &&& duty_bound_ok(self.max_duty_percent as int)
        &&& duration_bound_ok(self.max_movement_duration_ms as int)
    }

    /// The current ceiling on motor intensity.
    pub closed spec fn max_duty(&self) -> u8 {
        self.max_duty_percent
    }

    /// The current ceiling on segment length.
    pub closed spec fn max_duration(&self) -> u16 {
        self.max_movement_duration_ms
    }

    /// Whether a drastic change has been signalled and not yet taken.
    pub closed spec fn drastic(&self) -> bool {
        self.drastic_change
    }

    /// A fresh store: both bounds at their static minimum, no signal raised.
    pub fn new() -> (s: Self)
        ensures
            s.max_duty() == MIN_MOTOR_DUTY_PERCENT,
            s.max_duration() == MIN_MOVEMENT_DURATION_MS,
            !s.drastic(),
    {
        ParameterStore {
            max_duty_percent: MIN_MOTOR_DUTY_PERCENT,
            max_movement_duration_ms: MIN_MOVEMENT_DURATION_MS,
            drastic_change: false,
        }
    }

    /// The current ceiling on motor intensity: whatever sequence of writes
    /// led here, within its static range.
    pub fn get_max_duty(&self) -> (r: u8)
        ensures
            r == self.max_duty(),
            duty_bound_ok(r as int),
    {
        proof {
            use_type_invariant(self);
        }
        self.max_duty_percent
    }

    pub fn set_max_duty(&mut self, v: u8)
        requires
            duty_bound_ok(v as int),
        ensures
            final(self).max_duty() == v,
            final(self).max_duration() == old(self).max_duration(),
            final(self).drastic() == old(self).drastic(),
    {
        proof {
            use_type_invariant(&*self);
        }
        *self = ParameterStore { max_duty_percent: v, ..*self };
    }

    /// The current ceiling on segment length: whatever sequence of writes
    /// led here, within its static range.
    pub fn get_max_duration(&self) -> (r: u16)
        ensures
            r == self.max_duration(),
            duration_bound_ok(r as int),
    {
        proof {
            use_type_invariant(self);
        }
        self.max_movement_duration_ms
    }

    pub fn set_max_duration(&mut self, v: u16)
        requires
            duration_bound_ok(v as int),
        ensures
            final(self).max_duration() == v,
            final(self).max_duty() == old(self).max_duty(),
            final(self).drastic() == old(self).drastic(),
    {
        proof {
            use_type_invariant(&*self);
        }
        *self = ParameterStore { max_movement_duration_ms: v, ..*self };
    }

    /// Signals that an in-progress segment should end early.
    pub fn raise_drastic_change(&mut self)
        ensures
            final(self).drastic(),
            final(self).max_duty() == old(self).max_duty(),
            final(self).max_duration() == old(self).max_duration(),
    {
        proof {
            use_type_invariant(&*self);
        }
        *self = ParameterStore { drastic_change: true, ..*self };
    }

    /// Whether the signal is raised, leaving it as it is.
    pub fn drastic_change_raised(&self) -> (r: bool)
        ensures
            r == self.drastic(),
    {
        self.drastic_change
    }

    /// Returns whether the signal was raised, and lowers it.
    pub fn take_and_clear_drastic_change(&mut self) -> (r: bool)
        ensures
            r == old(self).drastic(),
            !final(self).drastic(),
            final(self).max_duty() == old(self).max_duty(),
            final(self).max_duration() == old(self).max_duration(),
    {
        proof {
            use_type_invariant(&*self);
        }
        let r = self.drastic_change;
        *self = ParameterStore { drastic_change: false, ..*self };
        r
    }
}

} // verus!

use vstd::prelude::*;

verus! {

/// Which way the motor turns.
#[derive(Clone, Copy, Debug, PartialEq, Eq, Structural)]
pub enum MotorDirection {
    Forward,
    Reverse,
}

impl MotorDirection {
    pub open spec fn flipped(self) -> MotorDirection {
        match self {
            MotorDirection::Forward => MotorDirection::Reverse,
            MotorDirection::Reverse => MotorDirection::Forward,
        }
    }

    /// The other direction.
    pub fn opposite(self) -> (r: MotorDirection)
        ensures
            r == self.flipped(),
    {
        match self {
            MotorDirection::Forward => MotorDirection::Reverse,
            MotorDirection::Reverse => MotorDirection::Forward,
        }
    }
}

/// Highest duty a PWM channel accepts, in percent.
pub const MAX_PWM_DUTY_PERCENT: u8 = 100;

/// The duty of the two PWM channels of an H-bridge.
///
/// At most one channel is driven at any time: both driven at once would
/// short the bridge.
pub struct Motor {
    forward_duty: u8,
    reverse_duty: u8,
}

impl Motor {
    #[verifier::type_invariant]
    spec fn bridge_safe(&self) -> bool {
        &&& self.forward_duty == 0 || self.reverse_duty == 0
        &&& self.forward_duty <= MAX_PWM_DUTY_PERCENT
        &&& self.reverse_duty <= MAX_PWM_DUTY_PERCENT
    }

    /// Duty of the forward channel, in percent.
    pub closed spec fn forward(&self) -> u8 {
        self.forward_duty
    }

    /// Duty of the reverse channel, in percent.
    pub closed spec fn reverse(&self) -> u8 {
        self.reverse_duty
    }

    /// Duty of the channel that turns the motor in direction `d`.
    pub open spec fn duty_towards(&self, d: MotorDirection) -> u8 {
        match d {
            MotorDirection::Forward => self.forward(),
            MotorDirection::Reverse => self.reverse(),
        }
    }

    /// A stopped motor.
    pub fn new() -> (m: Self)
        ensures
            m.forward() == 0,
            m.reverse() == 0,
    {
        Motor { forward_duty: 0, reverse_duty: 0 }
    }

    /// Drives the channel for `direction` at `duty_percent` and idles the
    /// other one, in a single step.
    pub fn start_movement(&mut self, direction: MotorDirection, duty_percent: u8)
        requires
            duty_percent <= MAX_PWM_DUTY_PERCENT,
        ensures
            final(self).duty_towards(direction) == duty_percent,
            final(self).duty_towards(direction.flipped()) == 0,
    {
        match direction {
            MotorDirection::Forward => {
                *self = Motor { forward_duty: duty_percent, reverse_duty: 0 };
            },
            MotorDirection::Reverse => {
                *self = Motor { forward_duty: 0, reverse_duty: duty_percent };
            },
        }
    }

    /// Idles both channels.
    pub fn stop(&mut self)
        ensures
            final(self).forward() == 0,
            final(self).reverse() == 0,
    {
        *self = Motor { forward_duty: 0, reverse_duty: 0 };
    }

    /// Duty of the forward channel. Whatever the calls that led here, it is
    /// within the PWM range, and non-zero only while the reverse channel idles.
    pub fn forward_duty(&self) -> (r: u8)
        ensures
            r == self.forward(),
            r <= MAX_PWM_DUTY_PERCENT,
            r == 0 || self.reverse() == 0,
    {
        proof {
            use_type_invariant(self);
        }
        self.forward_duty
    }

    /// Duty of the reverse channel. Whatever the calls that led here, it is
    /// within the PWM range, and non-zero only while the forward channel idles.
    pub fn reverse_duty(&self) -> (r: u8)
        ensures
            r == self.reverse(),
            r <= MAX_PWM_DUTY_PERCENT,
            r == 0 || self.forward() == 0,
    {
        proof {
            use_type_invariant(self);
        }
        self.reverse_duty
    }
}

} // verus!

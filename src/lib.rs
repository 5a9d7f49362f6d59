//! Control core of a battery-powered oscillating actuator: randomized
//! forward/reverse motor bursts whose intensity and length are tuned by two
//! potentiometers, with a session ceiling after which the device sleeps.

pub mod range_map;
pub mod motor;
pub mod params;
pub mod monitor;
pub mod scheduler;
pub mod watchdog;

//! The settings that the boat-side programs take from the command line and
//! the environment.
use vstd::prelude::*;

verus! {

/// The settings of the telemetry service.
pub struct Configuration {
    /// The broker's URL.
    pub amqp_addr: String,
    /// The radio's serial device.
    pub tty: String,
    pub baud: u32,
    /// The GPIO chip and pin that enable the radio.
    pub gpio_chip: String,
    pub gpio_pin: u32,
}

/// The settings of the radio test program.
pub struct Config {
    pub tty: String,
    pub baud: u32,
}

} // verus!

//! Core logic of an adaptive GPU frequency governor daemon.
//!
//! The daemon scales a GPU's clock frequency and voltage from measured
//! activity, while a thermal supervisor protects the device. This crate
//! holds the verified decision logic: the sample history and hysteresis
//! ramp of the governor, the command/acknowledgement protocol with the
//! actuator that performs hardware writes, the safe operating-point
//! table with its ceiling voltage lookup, and the fan-curve and
//! emergency decisions of the thermal loop. Hardware and filesystem
//! access live outside this crate and exchange plain values with it.

pub mod actuator;
pub mod config;
pub mod governor;
pub mod history;
pub mod parse;
pub mod table;
pub mod thermal;

//! Closed-loop thermal control for a solder-reflow oven, in fixed-point
//! arithmetic and with every function proved against its contract.
//!
//! The crate holds the decisions of the control path and none of its
//! input and output: decoding thermocouple frames, scheduling the PID gains
//! by phase, computing the heater command, choosing what the heater and the
//! status LED do, and encoding an LED colour as a pulse train.

pub mod led;
pub mod oven;
pub mod pid;
pub mod profile;
pub mod temperature;

//! Verified core of a small plant-monitoring appliance.
//!
//! The device samples three analog channels (temperature, soil moisture,
//! ambient light), converts the raw ADC codes to physical quantities,
//! drives a binary relay from the soil-moisture reading, and chooses the
//! status texts and cycling image shown on its display.  This crate holds
//! everything the device computes between a sample and a side effect:
//! the unit converters, the threshold decision policy, and the per-cycle
//! controller state.  Sampling, drawing and logging themselves are
//! peripheral I/O and live outside the library.
//!
//! Physical quantities are carried in fixed point so that every formula
//! has an exact arithmetic meaning: voltages in millivolts, temperatures
//! in thousandths of a degree Celsius, soil moisture in hundredths of a
//! percent, light as a re-centered raw code.

pub mod control;
pub mod policy;
pub mod units;

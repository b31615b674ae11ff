//! Decision logic of a battery-powered temperature and humidity sensor node.
//!
//! Each wake event drives one bounded cycle: sample the sensor, classify the
//! outcome, then either redraw the display or relay the reading to a fixed set
//! of wireless peers, and finally return to the lowest-power waiting state.
//! Everything here is computed on plain values; the firmware performs the
//! peripheral operations that the functions of this crate ask for.

pub mod binary32;
pub mod brightness;
pub mod controller;
pub mod decimal;
pub mod payload;
pub mod reading;
pub mod relay;
pub mod surface;

pub use crate::brightness::{next_brightness, BrightnessLevel};

//! Télémètre laser VL53L0X et sa calibration persistante.
pub mod vl53l0x;
pub mod calibration;

//! Centrale inertielle MPU9250.
pub mod mpu9250;

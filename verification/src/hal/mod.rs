//! Couche d'abstraction matérielle : bus I²C et port série.
pub mod i2c;
pub mod uart;

//! Drivers des capteurs et périphériques.
pub mod controleur_servo;
pub mod gps;
pub mod telemetre;
pub mod barometre;
pub mod imu;

//! Interfaces communes des capteurs.
pub mod gps;
pub mod telemetre;
pub mod barometre;

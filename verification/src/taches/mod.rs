//! Tâches capteurs et actionneurs : politique de reprise, messages publiés, santé.
pub mod reprise;
pub mod capteurs;
pub mod gps;
pub mod servo;

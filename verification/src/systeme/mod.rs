//! Services système : outils de texte, calibrations persistantes, journalisation.
pub mod texte;
pub mod calibration;
pub mod journalisation;

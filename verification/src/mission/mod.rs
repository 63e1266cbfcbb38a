//! Mission : machine à états du vol, préparation au vol.
pub mod etat_machine;
pub mod preparation;

//! AirHaum II — cœur vérifié du pilote automatique.
//!
//! Types fondamentaux, interfaces des capteurs, bus matériels, drivers,
//! tâches capteurs, services système, sûreté et mission.
pub mod types;
pub mod hal;
pub mod interfaces;
pub mod drivers;
pub mod diagnostiques;
pub mod surete;
pub mod mission;
pub mod taches;
pub mod systeme;

pub use types::{ErreursAirHaum, Result};
pub use diagnostiques::tester_bmp280;

use vstd::prelude::*;

verus! {

/// Version du système (informative).
pub const VERSION: &'static str = "AirHaum II – développement 0.023";

/// Point d'entrée logique du vol autonome ; la séquence (initialisation
/// matérielle, tâches, supervision) n'est pas encore définie : ne fait rien.
pub fn demarrer_vol_autonome() {
}

/// Point d'entrée logique des outils de test ; ne fait rien pour l'instant.
pub fn demarrer_tests() {
}

/// Test du GPS ; aucune vérification n'est encore définie : réussit toujours.
pub fn tester_gps() -> (r: Result<()>)
    ensures
        r is Ok,
{
    Ok(())
}

} // verus!

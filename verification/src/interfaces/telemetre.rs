//! Interface des télémètres (capteurs de distance).
use vstd::prelude::*;
use crate::types::{EtatCapteur, Result};

verus! {

/// Capteur de distance.
///
/// Les implémentations de la bibliothèque redéfinissent le modèle
/// (`etat_capteur`) et en prouvent les contrats ; le modèle par défaut n'existe que pour
/// les implémentations écrites hors de la bibliothèque, dont les contrats ne
/// sont pas vérifiés ; le raisonnement sur un capteur générique ne s'en sert pas.
pub trait Telemetre {
    /// État courant du capteur.
    closed spec fn etat_capteur(&self) -> EtatCapteur {
        EtatCapteur::Inconnu
    }

    /// Initialise le capteur. `calibration_valide` indique qu'une calibration
    /// persistée et encore valide existe (reprise rapide possible).
    fn initialiser(&mut self, calibration_valide: bool) -> (r: Result<()>)
        ensures
            r is Ok ==> final(self).etat_capteur().spec_est_utilisable(),
    ;

    /// Effectue une mesure de distance (mm).
    fn mesurer_distance(&mut self) -> (r: Result<u16>)
        ensures
            !old(self).etat_capteur().spec_est_utilisable() ==> (r matches Err(e) && e is CapteurNonInitialise),
    ;

    /// Vrai si le capteur est prêt à mesurer.
    fn est_pret(&mut self) -> (r: Result<bool>)
        ensures
            r == Ok::<bool, crate::types::ErreursAirHaum>(old(self).etat_capteur().spec_est_utilisable()),
    ;

    /// Précision estimée d'une mesure (± mm).
    fn obtenir_precision(&self) -> u16;

    /// Portée maximale (mm).
    fn obtenir_portee_max(&self) -> u16;

    /// État actuel du capteur.
    fn obtenir_etat(&self) -> (e: &EtatCapteur)
        ensures
            *e == self.etat_capteur(),
    ;

    /// Vrai si le capteur est opérationnel.
    fn est_operationnel(&self) -> (r: bool)
        ensures
            r == self.etat_capteur().spec_est_utilisable(),
    {
        self.obtenir_etat().est_utilisable()
    }
}

} // verus!

//! Interface des baromètres.
use vstd::prelude::*;
use crate::types::{DonneesBarometre, EtatCapteur, Result};

verus! {

/// Baromètre : pression et température.
///
/// Les implémentations de la bibliothèque redéfinissent le modèle
/// (`etat_capteur`) et en prouvent les contrats ; le modèle par défaut n'existe que pour
/// les implémentations écrites hors de la bibliothèque, dont les contrats ne
/// sont pas vérifiés ; le raisonnement sur un capteur générique ne s'en sert pas.
pub trait Barometre {
    /// État courant du capteur.
    closed spec fn etat_capteur(&self) -> EtatCapteur {
        EtatCapteur::Inconnu
    }

    /// Initialise le capteur (communication, configuration, coefficients).
    /// `calibration_valide` indique qu'une calibration au sol persistée et
    /// encore valide existe : le capteur peut alors être opérationnel.
    fn initialiser(&mut self, calibration_valide: bool) -> (r: Result<()>)
        ensures
            r is Ok ==> final(self).etat_capteur() is Operationnel || final(self).etat_capteur() is Configure,
            r is Ok && calibration_valide ==> final(self).etat_capteur() is Operationnel,
    ;

    /// Lit pression et température (peut bloquer le temps d'une conversion).
    fn lire(&mut self) -> (r: Result<DonneesBarometre>)
        ensures
            !old(self).etat_capteur().spec_est_utilisable() ==> (r matches Err(e) && e is CapteurNonInitialise),
    ;

    /// Configure la fréquence d'échantillonnage (limitée par le matériel).
    fn configurer_frequence(&mut self, frequence_hz: u32) -> (r: Result<()>);

    /// État actuel du capteur.
    fn obtenir_etat(&self) -> (e: &EtatCapteur)
        ensures
            *e == self.etat_capteur(),
    ;

    /// Vrai si le capteur est opérationnel.
    fn est_operationnel(&self) -> (r: bool)
        ensures
            r == self.etat_capteur().spec_est_utilisable(),
    {
        self.obtenir_etat().est_utilisable()
    }
}

} // verus!

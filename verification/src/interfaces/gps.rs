//! Interface des récepteurs GPS.
use vstd::prelude::*;
use crate::types::{DonneesGps, Result};

verus! {

/// Récepteur GPS en flux : les trames arrivent en continu sur la liaison.
///
/// Les implémentations de la bibliothèque redéfinissent le modèle
/// (`position`, `bien_forme`) et en prouvent les contrats ; le modèle par défaut n'existe que pour
/// les implémentations écrites hors de la bibliothèque, dont les contrats ne
/// sont pas vérifiés ; le raisonnement sur un capteur générique ne s'en sert pas.
pub trait CapteurGps {
    /// Dernière position complète disponible.
    closed spec fn position(&self) -> Option<DonneesGps> {
        None
    }

    /// Cohérence interne du récepteur.
    closed spec fn bien_forme(&self) -> bool {
        true
    }

    /// Initialise le récepteur (détection du protocole, configuration, vidage
    /// de la réception) ; à appeler une fois avant la boucle de mise à jour.
    fn initialiser(&mut self) -> (r: Result<()>)
        requires
            old(self).bien_forme(),
        ensures
            final(self).bien_forme(),
            final(self).position() == old(self).position(),
    ;

    /// Consomme les octets disponibles sans bloquer ; vrai si une nouvelle
    /// position a été décodée pendant l'appel.
    fn mettre_a_jour(&mut self) -> (r: bool)
        requires
            old(self).bien_forme(),
        ensures
            final(self).bien_forme(),
            r ==> final(self).position() is Some,
    ;

    /// Dernière position complète disponible (`None` avant la première trame valide).
    fn derniere_donnee(&self) -> (r: Option<DonneesGps>)
        ensures
            r == self.position(),
    ;

    /// Vrai si la dernière position a un fix au moins 2D.
    fn est_operationnel(&self) -> (r: bool)
        ensures
            r == (self.position() matches Some(d) && d.type_fix.spec_est_valide()),
    ;
}

} // verus!

//! Messages publiés par la tâche GPS, compteurs de santé et suivi du fix.
use vstd::prelude::*;
use std::sync::Arc;
use std::sync::atomic::AtomicU32;
use std::sync::atomic::Ordering;
use crate::types::{DonneesGps, TypeFixGps};
use crate::taches::reprise::ActionTache;

verus! {

/// Nombre de satellites à partir duquel le fix est considéré stable.
pub const SEUIL_SATELLITES: u8 = 6;

/// Résultat d'une demande de sauvegarde d'assistance GPS.
#[derive(Debug, Clone)]
pub enum ResultatAssistance {
    /// Assistance sauvegardée ; taille de la base d'orbites.
    Sauvegardee { octets_orbites: usize },
    /// Échec de l'export ou de la sauvegarde.
    Erreur(String),
}

/// Mesure GPS avec métadonnées de fiabilité.
#[derive(Debug, Clone)]
pub struct MesureGps {
    /// Dernière position valide, `None` si aucun fix depuis le démarrage.
    pub donnees: Option<DonneesGps>,
    /// Vrai si le dernier fix est au moins 2D.
    pub valide: bool,
    /// Erreurs consécutives (silence prolongé).
    pub erreurs_consecutives: u32,
}

/// Validité d'une mesure : une position avec un fix au moins 2D.
pub fn mesure_valide(donnees: &Option<DonneesGps>) -> (r: bool)
    ensures
        r == (match donnees {
            Some(d) => d.type_fix.spec_est_valide(),
            None => false,
        }),
{
    match donnees {
        Some(d) => d.type_fix.est_valide(),
        None => false,
    }
}

/// Évolution du nombre de satellites par rapport au seuil de stabilité.
#[derive(Debug, Clone, Copy, PartialEq, Eq)]
pub enum TendanceSatellites {
    /// Passage sous le seuil.
    Degradation,
    /// Passage au seuil ou au-dessus.
    Stabilisation,
    /// Pas de franchissement du seuil.
    Inchangee,
}

/// Franchissement du seuil de satellites entre deux positions successives.
pub fn tendance_satellites(precedents: u8, actuels: u8) -> (t: TendanceSatellites)
    ensures
        t == (if precedents >= SEUIL_SATELLITES && actuels < SEUIL_SATELLITES {
            TendanceSatellites::Degradation
        } else if precedents < SEUIL_SATELLITES && actuels >= SEUIL_SATELLITES {
            TendanceSatellites::Stabilisation
        } else {
            TendanceSatellites::Inchangee
        }),
{
    if precedents >= SEUIL_SATELLITES && actuels < SEUIL_SATELLITES {
        TendanceSatellites::Degradation
    } else if precedents < SEUIL_SATELLITES && actuels >= SEUIL_SATELLITES {
        TendanceSatellites::Stabilisation
    } else {
        TendanceSatellites::Inchangee
    }
}

/// Vrai si le type de fix a changé depuis la position précédente.
pub fn fix_change(precedent: Option<TypeFixGps>, actuel: TypeFixGps) -> (r: bool)
    ensures
        r == (precedent != Some(actuel)),
{
    match precedent {
        Some(p) => match (p, actuel) {
            (TypeFixGps::Aucun, TypeFixGps::Aucun) => false,
            (TypeFixGps::Fix2D, TypeFixGps::Fix2D) => false,
            (TypeFixGps::Fix3D, TypeFixGps::Fix3D) => false,
            (TypeFixGps::GnssDr, TypeFixGps::GnssDr) => false,
            _ => true,
        },
        None => true,
    }
}

/// Compteurs de santé GPS, lisibles depuis n'importe quel fil.
#[derive(Debug)]
pub struct SanteGps {
    pub erreurs: Arc<AtomicU32>,
    pub reinit: Arc<AtomicU32>,
}

impl SanteGps {
    /// Compteurs à zéro.
    pub fn nouveau() -> SanteGps {
        SanteGps { erreurs: Arc::new(AtomicU32::new(0)), reinit: Arc::new(AtomicU32::new(0)) }
    }

    /// Reporte sur les compteurs les incréments demandés par `action`.
    pub fn enregistrer(&self, action: &ActionTache) {
        if action.compter_erreur {
            self.erreurs.fetch_add(1, Ordering::Relaxed);
        }
        if action.compter_reinit {
            self.reinit.fetch_add(1, Ordering::Relaxed);
        }
    }
}

} // verus!

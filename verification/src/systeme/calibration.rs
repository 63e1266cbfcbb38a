//! Calibrations persistantes : format commun, chemin des fichiers, choix de
//! la calibration retenue au chargement.
//!
//! La lecture, l'écriture et la suppression des fichiers se font hors de ce
//! module ; il fournit le chemin et décide, à partir du contenu lu, si une
//! calibration est retenue.
use vstd::prelude::*;
use crate::types::{ErreursAirHaum, Horodatage, Result};

verus! {

/// Calibration stockée de manière persistante (un fichier texte par capteur).
pub trait CalibrationPersistante: Sized {
    /// Identifiant du capteur, utilisé pour nommer le fichier
    /// (`barometre` → `calibration_barometre.toml`).
    fn identifiant_capteur() -> &'static str;

    /// Contenu texte `clé = valeur` reconstruisible par [`Self::depuis_toml`].
    fn vers_toml(&self) -> String;

    /// Reconstruit la calibration ; `CalibrationEchouee` si le contenu est
    /// invalide, incomplet ou hors limites.
    fn depuis_toml(contenu: &str) -> Result<Self>;

    /// Âge de la calibration en secondes depuis sa création (temps réel).
    fn age_secondes(&self) -> u64;

    /// Vrai si la calibration est encore valide.
    fn est_valide(&self) -> bool;

    /// Horodatage de la calibration (affichage, débogage).
    fn obtenir_horodatage(&self) -> Horodatage;
}

/// Issue de l'examen d'un fichier de calibration.
#[derive(Debug)]
pub enum IssueChargement<C> {
    /// Aucun fichier.
    Absente,
    /// Contenu illisible ; l'erreur de [`CalibrationPersistante::depuis_toml`].
    Corrompue(ErreursAirHaum),
    /// Calibration lue mais expirée.
    Expiree,
    /// Calibration lue et valide.
    Valide(C),
}

impl<C> IssueChargement<C> {
    /// La calibration est à refaire par l'opérateur : absente ou expirée
    /// (une calibration corrompue est signalée mais n'est pas comptée).
    pub fn a_renouveler(&self) -> (r: bool)
        ensures
            r == (self is Absente || self is Expiree),
    {
        match self {
            IssueChargement::Absente | IssueChargement::Expiree => true,
            _ => false,
        }
    }

    /// Calibration retenue : seule une calibration valide l'est.
    pub fn retenue(self) -> (r: Option<C>)
        ensures
            match self {
                IssueChargement::Valide(c) => r == Some(c),
                _ => r is None,
            },
    {
        match self {
            IssueChargement::Valide(c) => Some(c),
            _ => None,
        }
    }
}

/// Sort d'une calibration, la lecture de son fichier faite : `None` si le
/// fichier est absent, sinon l'issue de `depuis_toml` et, pour une
/// calibration lue, sa validité (`est_valide`).
pub fn issue_examen<C>(lecture: Option<Result<(C, bool)>>) -> (r: IssueChargement<C>)
    ensures
        match lecture {
            None => r is Absente,
            Some(Err(e)) => r == IssueChargement::<C>::Corrompue(e),
            Some(Ok((c, true))) => r == IssueChargement::Valide(c),
            Some(Ok((_, false))) => r is Expiree,
        },
{
    match lecture {
        None => IssueChargement::Absente,
        Some(Err(e)) => IssueChargement::Corrompue(e),
        Some(Ok((c, valide))) => {
            if valide {
                IssueChargement::Valide(c)
            } else {
                IssueChargement::Expiree
            }
        },
    }
}

/// Décide du sort d'une calibration à partir du contenu de son fichier
/// (`None` : fichier absent) : absente, corrompue, expirée ou valide.
///
/// Le contenu est lu par `C::depuis_toml` et la validité jugée par
/// `C::est_valide`, qu'implémente chaque calibration ; [`issue_examen`] dit
/// l'issue pour chacun de leurs résultats.
pub fn examiner_calibration<C: CalibrationPersistante>(contenu: Option<&str>) -> (r: IssueChargement<C>)
    ensures
        contenu is None <==> r is Absente,
        contenu matches Some(t) ==> match r {
            IssueChargement::Absente => false,
            IssueChargement::Corrompue(e) => call_ensures(C::depuis_toml, (t,), Err::<C, ErreursAirHaum>(e)),
            IssueChargement::Valide(c) => call_ensures(C::depuis_toml, (t,), Ok::<C, ErreursAirHaum>(c))
                && call_ensures(C::est_valide, (&c,), true),
            IssueChargement::Expiree => exists|c: C| call_ensures(C::depuis_toml, (t,), Ok::<C, ErreursAirHaum>(c))
                && #[trigger] call_ensures(C::est_valide, (&c,), false),
        },
{
    let lecture = match contenu {
        None => None,
        Some(texte) => match C::depuis_toml(texte) {
            Err(e) => Some(Err(e)),
            Ok(c) => {
                let valide = c.est_valide();
                Some(Ok((c, valide)))
            },
        },
    };
    issue_examen(lecture)
}

/// Gestionnaire des fichiers de calibration, rangés sous un répertoire de base.
pub struct GestionnaireCalibration {
    chemin_base: String,
}

impl GestionnaireCalibration {
    /// Répertoire de base des fichiers.
    pub closed spec fn base(&self) -> Seq<char> {
        self.chemin_base@
    }

    /// Gestionnaire rangeant ses fichiers sous `chemin_base`.
    pub fn nouveau(chemin_base: &str) -> (g: GestionnaireCalibration)
        ensures
            g.base() == chemin_base@,
    {
        GestionnaireCalibration { chemin_base: String::from_str(chemin_base) }
    }

    /// Répertoire de base des fichiers.
    pub fn chemin_base(&self) -> (s: &str)
        ensures
            s@ == self.base(),
    {
        self.chemin_base.as_str()
    }

    /// Chemin du fichier d'une calibration : `{base}/calibration_{identifiant}.toml`.
    pub fn chemin_fichier(&self, identifiant: &str) -> (s: String)
        ensures
            s@ == self.base() + "/calibration_"@ + identifiant@ + ".toml"@,
    {
        self.chemin_base.clone().concat("/calibration_").concat(identifiant).concat(".toml")
    }
}

} // verus!

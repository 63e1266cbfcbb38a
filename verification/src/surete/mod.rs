//! Sûreté : état de la machine à états de sécurité, prioritaire sur la MAÉ vol.
use vstd::prelude::*;

verus! {

/// État courant de la MAÉ sécurité, par criticité croissante.
#[derive(Debug, Clone, PartialEq, Default)]
pub enum EtatSecurite {
    /// Paramètres dans les limites nominales.
    #[default]
    Normal,
    /// Anomalie, vol maintenu, opérateur notifié.
    AlerteMineure { raison: String },
    /// Anomalie sérieuse, pas de nouvelle phase de vol.
    AlerteMajeure { raison: String },
    /// Liaison perdue ou condition dégradée : loiter puis atterrissage.
    FailSafe,
    /// Atterrissage immédiat.
    AtterrissageUrgence { raison: String },
    /// Coupure moteur immédiate puis planeur vers l'atterrissage d'urgence.
    ArretUrgence { raison: String },
}

impl EtatSecurite {
    /// La MAÉ vol doit abandonner son plan nominal.
    pub open spec fn spec_est_critique(&self) -> bool {
        self is FailSafe || self is AtterrissageUrgence || self is ArretUrgence
    }

    /// Le vol autonome nominal peut continuer.
    pub open spec fn spec_est_nominal(&self) -> bool {
        self is Normal || self is AlerteMineure
    }

    /// Vrai si la MAÉ vol doit abandonner son plan nominal immédiatement.
    pub fn est_critique(&self) -> (r: bool)
        ensures
            r == self.spec_est_critique(),
    {
        match self {
            EtatSecurite::FailSafe => true,
            EtatSecurite::AtterrissageUrgence { .. } => true,
            EtatSecurite::ArretUrgence { .. } => true,
            _ => false,
        }
    }

    /// Vrai si le vol autonome nominal peut continuer.
    pub fn est_nominal(&self) -> (r: bool)
        ensures
            r == self.spec_est_nominal(),
    {
        match self {
            EtatSecurite::Normal => true,
            EtatSecurite::AlerteMineure { .. } => true,
            _ => false,
        }
    }

    /// Nom de l'état suivi de la raison éventuelle (`Nom: raison`).
    pub fn texte(&self) -> (s: String)
        ensures
            s@ == self.spec_texte(),
    {
        match self {
            EtatSecurite::Normal => String::from_str("Normal"),
            EtatSecurite::AlerteMineure { raison } => String::from_str("AlerteMineure: ").concat(raison.as_str()),
            EtatSecurite::AlerteMajeure { raison } => String::from_str("AlerteMajeure: ").concat(raison.as_str()),
            EtatSecurite::FailSafe => String::from_str("FailSafe"),
            EtatSecurite::AtterrissageUrgence { raison } => String::from_str("AtterrissageUrgence: ").concat(raison.as_str()),
            EtatSecurite::ArretUrgence { raison } => String::from_str("ArretUrgence: ").concat(raison.as_str()),
        }
    }

    /// Texte affiché pour l'état.
    pub open spec fn spec_texte(&self) -> Seq<char> {
        match self {
            EtatSecurite::Normal => "Normal"@,
            EtatSecurite::AlerteMineure { raison } => "AlerteMineure: "@ + raison@,
            EtatSecurite::AlerteMajeure { raison } => "AlerteMajeure: "@ + raison@,
            EtatSecurite::FailSafe => "FailSafe"@,
            EtatSecurite::AtterrissageUrgence { raison } => "AtterrissageUrgence: "@ + raison@,
            EtatSecurite::ArretUrgence { raison } => "ArretUrgence: "@ + raison@,
        }
    }
}

/// Un état de sécurité critique n'est jamais nominal.
pub proof fn loi_critique_exclut_nominal(s: EtatSecurite)
    ensures
        s.spec_est_critique() ==> !s.spec_est_nominal(),
{
}

} // verus!

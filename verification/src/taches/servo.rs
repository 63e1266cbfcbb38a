//! Tâche de commande des servos : cadence d'envoi et suivi de la liaison
//! avec le Nano (perte du signal RC, chien de garde).
use vstd::prelude::*;
use crate::drivers::controleur_servo::EtatArduino;

verus! {

/// Période d'envoi des consignes (ms), 50 Hz.
pub const PERIODE_ENVOI_MS: u32 = 20;

/// Changement d'un indicateur booléen entre deux remontées.
#[derive(Debug, Clone, Copy, PartialEq, Eq)]
pub enum Changement {
    /// L'indicateur vient de passer à vrai.
    Apparition,
    /// L'indicateur vient de passer à faux.
    Disparition,
    /// Pas de changement.
    Aucun,
}

/// Changement d'un indicateur de `precedent` à `actuel`.
pub open spec fn spec_changement(precedent: bool, actuel: bool) -> Changement {
    if actuel && !precedent {
        Changement::Apparition
    } else if !actuel && precedent {
        Changement::Disparition
    } else {
        Changement::Aucun
    }
}

/// Changement d'un indicateur de `precedent` à `actuel`.
pub fn changement(precedent: bool, actuel: bool) -> (c: Changement)
    ensures
        c == spec_changement(precedent, actuel),
{
    if actuel && !precedent {
        Changement::Apparition
    } else if !actuel && precedent {
        Changement::Disparition
    } else {
        Changement::Aucun
    }
}

/// Suivi des indicateurs de liaison de la dernière remontée reçue ; au
/// démarrage le signal RC est tenu pour perdu et le chien de garde au repos.
#[derive(Debug, Clone, Copy, PartialEq, Eq)]
pub struct SuiviLiaison {
    pub rc_perdu: bool,
    pub chien_de_garde: bool,
}

impl SuiviLiaison {
    /// État au démarrage de la tâche.
    pub fn nouveau() -> (s: SuiviLiaison)
        ensures
            s == (SuiviLiaison { rc_perdu: true, chien_de_garde: false }),
    {
        SuiviLiaison { rc_perdu: true, chien_de_garde: false }
    }

    /// Prend en compte une remontée : changements du signal RC et du chien de
    /// garde depuis la précédente, qui devient la référence.
    pub fn observer(&mut self, etat: &EtatArduino) -> (r: (Changement, Changement))
        ensures
            r == (spec_changement(old(self).rc_perdu, etat.rc_perdu), spec_changement(old(self).chien_de_garde, etat.chien_de_garde)),
            *final(self) == (SuiviLiaison { rc_perdu: etat.rc_perdu, chien_de_garde: etat.chien_de_garde }),
    {
        let rc = changement(self.rc_perdu, etat.rc_perdu);
        let cdg = changement(self.chien_de_garde, etat.chien_de_garde);
        self.rc_perdu = etat.rc_perdu;
        self.chien_de_garde = etat.chien_de_garde;
        (rc, cdg)
    }
}


/// Un changement n'est signalé que si l'indicateur a changé de valeur :
/// apparition s'il est passé à vrai, disparition s'il est passé à faux. Le
/// changement inverse (de `actuel` à `precedent`) est le changement opposé.
pub proof fn loi_changement(precedent: bool, actuel: bool)
    ensures
        spec_changement(precedent, actuel) is Aucun <==> precedent == actuel,
        spec_changement(precedent, actuel) is Apparition <==> (!precedent && actuel),
        spec_changement(precedent, actuel) is Disparition <==> (precedent && !actuel),
        spec_changement(precedent, actuel) is Apparition <==> spec_changement(actuel, precedent) is Disparition,
{
}

} // verus!

//! Journalisation : échappement des messages de la boîte noire (JSON Lines)
//! et filtrage du fil de vie (texte lisible).
//!
//! L'écriture des fichiers, l'horloge et la façade de journalisation vivent
//! hors de ce module.
use vstd::prelude::*;
use crate::systeme::texte::{caracteres, pousser};

verus! {

/// Échappement JSON d'un caractère : guillemet, barre oblique inverse et
/// caractères de contrôle `\n`, `\r`, `\t` ; les autres restent tels quels.
pub open spec fn echappement_car(c: char) -> Seq<char> {
    if c == '"' {
        "\\\""@
    } else if c == '\\' {
        "\\\\"@
    } else if c == '\n' {
        "\\n"@
    } else if c == '\r' {
        "\\r"@
    } else if c == '\t' {
        "\\t"@
    } else {
        seq![c]
    }
}

/// Échappement JSON d'un texte, caractère par caractère.
pub open spec fn echappement(s: Seq<char>) -> Seq<char>
    decreases s.len(),
{
    if s.len() == 0 {
        Seq::empty()
    } else {
        echappement(s.drop_last()) + echappement_car(s.last())
    }
}

/// Texte `s` échappé pour figurer entre guillemets dans une chaîne JSON.
pub fn echapper_json(s: &str) -> (r: String)
    ensures
        r@ == echappement(s@),
{
    let v = caracteres(s);
    let mut out = String::new();
    let mut i: usize = 0;
    while i < v.len()
        invariant
            v@ == s@,
            i <= v.len(),
            out@ == echappement(v@.take(i as int)),
        decreases v.len() - i,
    {
        let c = v[i];
        assert(v@.take(i + 1).drop_last() == v@.take(i as int));
        if c == '"' {
            out.append("\\\"");
        } else if c == '\\' {
            out.append("\\\\");
        } else if c == '\n' {
            out.append("\\n");
        } else if c == '\r' {
            out.append("\\r");
        } else if c == '\t' {
            out.append("\\t");
        } else {
            pousser(&mut out, c);
        }
        i = i + 1;
    }
    assert(v@.take(v.len() as int) == v@);
    out
}

/// Une entrée de boîte noire tient sur une ligne : le texte échappé ne
/// contient ni saut de ligne, ni retour chariot, ni tabulation.
pub proof fn loi_echappement_une_ligne(s: Seq<char>)
    ensures
        forall|i: int| 0 <= i < echappement(s).len() ==> {
            let c = #[trigger] echappement(s)[i];
            c != '\n' && c != '\r' && c != '\t'
        },
    decreases s.len(),
{
    reveal_strlit("\\\"");
    reveal_strlit("\\\\");
    reveal_strlit("\\n");
    reveal_strlit("\\r");
    reveal_strlit("\\t");
    if s.len() > 0 {
        loi_echappement_une_ligne(s.drop_last());
        let a = echappement(s.drop_last());
        let b = echappement_car(s.last());
        assert forall|i: int| 0 <= i < echappement(s).len() implies {
            let c = #[trigger] echappement(s)[i];
            c != '\n' && c != '\r' && c != '\t'
        } by {
            if i < a.len() {
                assert(echappement(s)[i] == a[i]);
            } else {
                assert(echappement(s)[i] == b[i - a.len()]);
            }
        }
    }
}

/// Niveau d'une entrée de journal.
#[derive(Debug, Clone, Copy, PartialEq, Eq)]
pub enum NiveauJournal {
    Erreur,
    Avertissement,
    Info,
    Debogage,
    Trace,
}

/// Décision pour une entrée du fil de vie.
#[derive(Debug, Clone, Copy, PartialEq, Eq)]
pub struct DecisionFilDeVie {
    /// L'entrée est écrite.
    pub ecrire: bool,
    /// L'instant de la dernière entrée de navigation devient l'instant présent.
    pub noter_navigation: bool,
}

/// Intervalle minimal entre deux entrées d'information de navigation (µs).
pub const INTERVALLE_NAVIGATION_MICROS: u64 = 1_000_000;

/// Filtrage du fil de vie : erreurs et avertissements toujours écrits,
/// débogage et trace jamais ; les informations le sont, sauf celles de la
/// cible `nav`, limitées à une par seconde (`ecoule_depuis_nav_micros` : temps
/// depuis la dernière écrite, `None` s'il n'y en a pas eu).
pub fn decision_fil_de_vie(niveau: NiveauJournal, cible_navigation: bool, ecoule_depuis_nav_micros: Option<u64>) -> (d: DecisionFilDeVie)
    ensures
        d == (match niveau {
            NiveauJournal::Erreur | NiveauJournal::Avertissement => DecisionFilDeVie { ecrire: true, noter_navigation: false },
            NiveauJournal::Info => if cible_navigation {
                let ok = match ecoule_depuis_nav_micros {
                    None => true,
                    Some(e) => e >= INTERVALLE_NAVIGATION_MICROS,
                };
                DecisionFilDeVie { ecrire: ok, noter_navigation: ok }
            } else {
                DecisionFilDeVie { ecrire: true, noter_navigation: false }
            },
            NiveauJournal::Debogage | NiveauJournal::Trace => DecisionFilDeVie { ecrire: false, noter_navigation: false },
        }),
{
    match niveau {
        NiveauJournal::Erreur | NiveauJournal::Avertissement => DecisionFilDeVie { ecrire: true, noter_navigation: false },
        NiveauJournal::Info => {
            if cible_navigation {
                let ok = match ecoule_depuis_nav_micros {
                    None => true,
                    Some(e) => e >= INTERVALLE_NAVIGATION_MICROS,
                };
                DecisionFilDeVie { ecrire: ok, noter_navigation: ok }
            } else {
                DecisionFilDeVie { ecrire: true, noter_navigation: false }
            }
        },
        NiveauJournal::Debogage | NiveauJournal::Trace => DecisionFilDeVie { ecrire: false, noter_navigation: false },
    }
}

} // verus!

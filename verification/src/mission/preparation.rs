//! Préparation au vol : bilan des calibrations et check-liste d'armement.
//!
//! Les consoles opérateur affichent et lisent ; les décisions (ce qui bloque
//! l'armement, ce que chaque touche fait) sont prises ici.
use vstd::prelude::*;
use crate::systeme::texte::Saisie;

verus! {

// ── Bilan des calibrations ──────────────────────────────────────────────────

/// Action demandée depuis le bilan des calibrations.
#[derive(Debug, Clone, Copy, PartialEq, Eq)]
pub enum ChoixBilan {
    Continuer,
    Quitter,
    RecalibrerGyro,
    RecalibrerAccel,
    RecalibrerMag,
    RecalibrerBaro,
    Journal,
    NonReconnu,
}

/// Action associée à une saisie du bilan (lettres sans distinction de casse).
pub open spec fn spec_choix_bilan(s: Saisie) -> ChoixBilan {
    match s {
        Saisie::Vide => ChoixBilan::Continuer,
        Saisie::Touche(c) => {
            if c == 'q' || c == 'Q' {
                ChoixBilan::Quitter
            } else if c == 'g' || c == 'G' {
                ChoixBilan::RecalibrerGyro
            } else if c == 'a' || c == 'A' {
                ChoixBilan::RecalibrerAccel
            } else if c == 'm' || c == 'M' {
                ChoixBilan::RecalibrerMag
            } else if c == 'b' || c == 'B' {
                ChoixBilan::RecalibrerBaro
            } else if c == 'j' || c == 'J' {
                ChoixBilan::Journal
            } else {
                ChoixBilan::NonReconnu
            }
        },
        Saisie::Autre => ChoixBilan::NonReconnu,
    }
}

/// Décode une saisie du bilan des calibrations.
pub fn choix_bilan(s: Saisie) -> (r: ChoixBilan)
    ensures
        r == spec_choix_bilan(s),
{
    match s {
        Saisie::Vide => ChoixBilan::Continuer,
        Saisie::Touche(c) => {
            if c == 'q' || c == 'Q' {
                ChoixBilan::Quitter
            } else if c == 'g' || c == 'G' {
                ChoixBilan::RecalibrerGyro
            } else if c == 'a' || c == 'A' {
                ChoixBilan::RecalibrerAccel
            } else if c == 'm' || c == 'M' {
                ChoixBilan::RecalibrerMag
            } else if c == 'b' || c == 'B' {
                ChoixBilan::RecalibrerBaro
            } else if c == 'j' || c == 'J' {
                ChoixBilan::Journal
            } else {
                ChoixBilan::NonReconnu
            }
        },
        Saisie::Autre => ChoixBilan::NonReconnu,
    }
}

// ── Check-liste d'armement ──────────────────────────────────────────────────

/// Nombre minimal de satellites pour un GPS apte au vol.
pub const SATELLITES_MIN_ARMEMENT: u8 = 6;

/// Précision horizontale maximale pour un GPS apte au vol (millièmes).
pub const PRECISION_H_MAX_ARMEMENT: u32 = 5000;

/// GPS apte au vol : fix valide, au moins six satellites, précision
/// horizontale d'au plus 5 (`precision_h` en millièmes).
pub fn gps_apte(fix_valide: bool, satellites: u8, precision_h: u32) -> (r: bool)
    ensures
        r == (fix_valide && satellites >= SATELLITES_MIN_ARMEMENT && precision_h <= PRECISION_H_MAX_ARMEMENT),
{
    fix_valide && satellites >= SATELLITES_MIN_ARMEMENT && precision_h <= PRECISION_H_MAX_ARMEMENT
}

/// Liaison Arduino apte au vol : port ouvert, trames reçues, signal RC présent.
pub fn liaison_apte(port_ouvert: bool, liaison_detectee: bool, rc_perdu: bool) -> (r: bool)
    ensures
        r == (port_ouvert && liaison_detectee && !rc_perdu),
{
    port_ouvert && liaison_detectee && !rc_perdu
}

/// Constats de la check-liste, établis par la console à chaque affichage.
#[derive(Debug, Clone, Copy, PartialEq, Eq)]
pub struct ConstatsArmement {
    pub calibration_gyro: bool,
    pub calibration_accel: bool,
    pub calibration_baro: bool,
    pub estimation_active: bool,
    pub liaison_arduino: bool,
    pub gps: bool,
    pub calibration_mag: bool,
}

/// Conclusion de la check-liste.
#[derive(Debug, Clone, Copy, PartialEq, Eq)]
pub enum VerdictArmement {
    /// Tout est satisfait ou acquitté.
    Pret,
    /// Au moins un item bloquant n'est pas satisfait.
    Bloque,
    /// Bloquants satisfaits ; avertissements à acquitter.
    AvertissementsActifs,
}

/// Action demandée depuis la check-liste.
#[derive(Debug, Clone, Copy, PartialEq, Eq)]
pub enum ChoixChecklist {
    /// Vers le menu.
    Continuer,
    /// Fin du programme.
    Quitter,
    /// Afficher le journal puis réafficher la check-liste.
    Journal,
    /// Réafficher la check-liste (acquittement fait ou saisie sans effet).
    Reafficher,
}

/// Acquittements de l'opérateur : avertissements GPS et magnétomètre,
/// vérification visuelle des servos.
#[derive(Debug, Clone, Copy, PartialEq, Eq)]
pub struct ChecklisteArmement {
    pub acquitte_gps: bool,
    pub acquitte_mag: bool,
    pub prevol_confirme: bool,
}

impl ChecklisteArmement {
    /// Items bloquants : calibrations gyro, accel et baro, estimation,
    /// liaison Arduino et vérification pré-vol.
    pub open spec fn spec_bloquants_ok(self, c: ConstatsArmement) -> bool {
        c.calibration_gyro && c.calibration_accel && c.calibration_baro && c.estimation_active
            && c.liaison_arduino && self.prevol_confirme
    }

    /// Avertissements satisfaits ou acquittés : GPS et magnétomètre.
    pub open spec fn spec_avertissements_ok(self, c: ConstatsArmement) -> bool {
        (c.gps || self.acquitte_gps) && (c.calibration_mag || self.acquitte_mag)
    }

    /// Verdict de la check-liste pour des constats donnés.
    pub open spec fn spec_verdict(self, c: ConstatsArmement) -> VerdictArmement {
        if !self.spec_bloquants_ok(c) {
            VerdictArmement::Bloque
        } else if self.spec_avertissements_ok(c) {
            VerdictArmement::Pret
        } else {
            VerdictArmement::AvertissementsActifs
        }
    }

    /// Aucun acquittement.
    pub fn nouvelle() -> (l: ChecklisteArmement)
        ensures
            !l.acquitte_gps,
            !l.acquitte_mag,
            !l.prevol_confirme,
    {
        ChecklisteArmement { acquitte_gps: false, acquitte_mag: false, prevol_confirme: false }
    }

    /// Verdict pour les constats courants.
    pub fn verdict(&self, c: &ConstatsArmement) -> (v: VerdictArmement)
        ensures
            v == self.spec_verdict(*c),
    {
        let bloquants_ok = c.calibration_gyro && c.calibration_accel && c.calibration_baro
            && c.estimation_active && c.liaison_arduino && self.prevol_confirme;
        let avertissements_ok = (c.gps || self.acquitte_gps) && (c.calibration_mag || self.acquitte_mag);
        if !bloquants_ok {
            VerdictArmement::Bloque
        } else if avertissements_ok {
            VerdictArmement::Pret
        } else {
            VerdictArmement::AvertissementsActifs
        }
    }

    /// Traite une saisie : `g` acquitte un GPS inapte, `m` une calibration
    /// magnétomètre invalide, `p` confirme la vérification pré-vol (chacun une
    /// seule fois) ; ligne vide : continuer ; `q` : quitter ; `j` : journal.
    pub fn traiter_saisie(&mut self, s: Saisie, c: &ConstatsArmement) -> (r: ChoixChecklist)
        ensures
            r == (match s {
                Saisie::Vide => ChoixChecklist::Continuer,
                Saisie::Touche(k) => if k == 'q' || k == 'Q' {
                    ChoixChecklist::Quitter
                } else if k == 'j' || k == 'J' {
                    ChoixChecklist::Journal
                } else {
                    ChoixChecklist::Reafficher
                },
                Saisie::Autre => ChoixChecklist::Reafficher,
            }),
            final(self).acquitte_gps == (old(self).acquitte_gps
                || (s == Saisie::Touche('g') || s == Saisie::Touche('G')) && !c.gps),
            final(self).acquitte_mag == (old(self).acquitte_mag
                || (s == Saisie::Touche('m') || s == Saisie::Touche('M')) && !c.calibration_mag),
            final(self).prevol_confirme == (old(self).prevol_confirme
                || s == Saisie::Touche('p') || s == Saisie::Touche('P')),
    {
        match s {
            Saisie::Vide => ChoixChecklist::Continuer,
            Saisie::Touche(k) => {
                if k == 'q' || k == 'Q' {
                    ChoixChecklist::Quitter
                } else if k == 'j' || k == 'J' {
                    ChoixChecklist::Journal
                } else {
                    if (k == 'g' || k == 'G') && !c.gps {
                        self.acquitte_gps = true;
                    } else if (k == 'm' || k == 'M') && !c.calibration_mag {
                        self.acquitte_mag = true;
                    } else if k == 'p' || k == 'P' {
                        self.prevol_confirme = true;
                    }
                    ChoixChecklist::Reafficher
                }
            },
            Saisie::Autre => ChoixChecklist::Reafficher,
        }
    }
}

/// Un acquittement ne fait jamais passer un item bloquant : tant qu'un
/// constat bloquant manque, aucune suite de saisies ne rend l'armement prêt.
pub proof fn loi_acquittement_sans_effet_bloquant(l: ChecklisteArmement, c: ConstatsArmement)
    requires
        !(c.calibration_gyro && c.calibration_accel && c.calibration_baro && c.estimation_active
            && c.liaison_arduino),
    ensures
        l.spec_verdict(c) == VerdictArmement::Bloque,
{
}


/// Verdict de la check-liste : l'armement est bloqué tant qu'une des
/// calibrations gyro, accéléromètre ou baromètre, l'estimation, la liaison
/// Arduino ou la vérification pré-vol manque ; il est prêt quand tout cela
/// est acquis et que le GPS et le magnétomètre sont aptes ou acquittés ;
/// sinon des avertissements restent actifs. Acquitter davantage ne dégrade
/// jamais le verdict.
pub proof fn loi_verdict_armement(l: ChecklisteArmement, l2: ChecklisteArmement, c: ConstatsArmement)
    ensures
        l.spec_verdict(c) is Bloque <==> !(c.calibration_gyro && c.calibration_accel && c.calibration_baro
            && c.estimation_active && c.liaison_arduino && l.prevol_confirme),
        l.spec_verdict(c) is Pret <==> (c.calibration_gyro && c.calibration_accel && c.calibration_baro
            && c.estimation_active && c.liaison_arduino && l.prevol_confirme
            && (c.gps || l.acquitte_gps) && (c.calibration_mag || l.acquitte_mag)),
        (l.acquitte_gps ==> l2.acquitte_gps) && (l.acquitte_mag ==> l2.acquitte_mag)
            && (l.prevol_confirme ==> l2.prevol_confirme) && l.spec_verdict(c) is Pret
            ==> l2.spec_verdict(c) is Pret,
        (l.acquitte_gps ==> l2.acquitte_gps) && (l.acquitte_mag ==> l2.acquitte_mag)
            && (l.prevol_confirme ==> l2.prevol_confirme) && l2.spec_verdict(c) is Bloque
            ==> l.spec_verdict(c) is Bloque,
{
}


/// Touches du bilan des calibrations, sans distinction de casse : chaque
/// action est choisie par sa lettre et par elle seule (q quitter, g, a, m, b
/// recalibrer gyro, accéléromètre, magnétomètre, baromètre, j journal) ; une
/// ligne vide continue ; toute autre saisie n'est pas reconnue. Une lettre et
/// sa majuscule choisissent la même action.
pub proof fn loi_touches_bilan(s: Saisie, c: char)
    ensures
        spec_choix_bilan(s) is Continuer <==> s is Vide,
        spec_choix_bilan(Saisie::Touche(c)) is Quitter <==> (c == 'q' || c == 'Q'),
        spec_choix_bilan(Saisie::Touche(c)) is RecalibrerGyro <==> (c == 'g' || c == 'G'),
        spec_choix_bilan(Saisie::Touche(c)) is RecalibrerAccel <==> (c == 'a' || c == 'A'),
        spec_choix_bilan(Saisie::Touche(c)) is RecalibrerMag <==> (c == 'm' || c == 'M'),
        spec_choix_bilan(Saisie::Touche(c)) is RecalibrerBaro <==> (c == 'b' || c == 'B'),
        spec_choix_bilan(Saisie::Touche(c)) is Journal <==> (c == 'j' || c == 'J'),
        spec_choix_bilan(Saisie::Autre) is NonReconnu,
        ('a' <= c <= 'z') ==> spec_choix_bilan(Saisie::Touche(c))
            == spec_choix_bilan(Saisie::Touche(((c as u32) - 32) as char)),
{
}

} // verus!

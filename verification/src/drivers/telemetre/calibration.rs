//! Calibration système du télémètre VL53L0X.
//!
//! Le VL53L0X ne demande pas de calibration de mesure avant le vol : ce
//! fichier mémorise seulement qu'une initialisation complète a réussi, pour
//! permettre une reprise rapide au redémarrage.
use vstd::prelude::*;
use crate::types::{ErreursAirHaum, Horodatage, Result, secondes_unix};
use crate::systeme::calibration::CalibrationPersistante;
use crate::systeme::texte::{
    analyse_u64, analyser_ligne, bornes_lignes, bornes_rognees, caracteres, champ_requis, chiffres,
    decoupe, ecrire_decimal, egal_mot, est_blanc, lemme_decoupe_sans_saut, lemme_decoupe_saut,
    lemme_ligne_commentaire, lemme_ligne_entier, lignes, lire_u64, paire_cle_valeur, rogner, texte_de,
};

verus! {

/// Calibration du télémètre : instant de la dernière initialisation complète
/// réussie et durée de validité.
#[derive(Debug, Clone, Copy, PartialEq, Eq)]
pub struct CalibrationTelemetre {
    /// Instant de l'initialisation (secondes Unix).
    pub timestamp_unix_sec: u64,
    /// Durée de validité (s).
    pub validite_sec: u64,
}

/// Première ligne de commentaire du fichier.
pub open spec fn commentaire_titre() -> Seq<char> {
    "# Calibration télémètre VL53L0X"@
}

/// Seconde ligne de commentaire du fichier.
pub open spec fn commentaire_avertissement() -> Seq<char> {
    "# Générée automatiquement - ne pas éditer manuellement"@
}

/// Texte du fichier de calibration.
pub open spec fn texte_telemetre(timestamp_unix_sec: u64, validite_sec: u64) -> Seq<char> {
    commentaire_titre() + "\n"@ + commentaire_avertissement() + "\n\n"@
        + "timestamp_unix_sec"@ + " = "@ + chiffres(timestamp_unix_sec as nat) + "\n"@
        + "validite_sec"@ + " = "@ + chiffres(validite_sec as nat) + "\n"@
}

/// Champs lus dans les lignes `ls`, dans l'ordre : pour chaque ligne
/// `clé = valeur`, une clé connue dont la valeur rognée n'est pas un entier
/// arrête la lecture avec le message d'erreur ; une clé connue lue remplace
/// la valeur précédente ; les autres lignes sont ignorées.
pub open spec fn champs_telemetre(ls: Seq<Seq<char>>) -> core::result::Result<(Option<u64>, Option<u64>), Seq<char>>
    decreases ls.len(),
{
    if ls.len() == 0 {
        Ok((None, None))
    } else {
        match champs_telemetre(ls.drop_last()) {
            Err(m) => Err(m),
            Ok((ts, va)) => match paire_cle_valeur(ls.last()) {
                None => Ok((ts, va)),
                Some((cle, valeur)) => {
                    if cle == "timestamp_unix_sec"@ {
                        match analyse_u64(rogner(valeur)) {
                            Some(n) => Ok((Some(n), va)),
                            None => Err("Timestamp invalide: "@ + valeur),
                        }
                    } else if cle == "validite_sec"@ {
                        match analyse_u64(rogner(valeur)) {
                            Some(n) => Ok((ts, Some(n))),
                            None => Err("Validité invalide: "@ + valeur),
                        }
                    } else {
                        Ok((ts, va))
                    }
                },
            },
        }
    }
}

/// Calibration décrite par le texte `s`, ou message d'erreur.
pub open spec fn telemetre_depuis_texte(s: Seq<char>) -> core::result::Result<CalibrationTelemetre, Seq<char>> {
    match champs_telemetre(lignes(s)) {
        Err(m) => Err(m),
        Ok((None, _)) => Err("Champ 'timestamp_unix_sec' manquant"@),
        Ok((Some(_), None)) => Err("Champ 'validite_sec' manquant"@),
        Ok((Some(t), Some(v))) => Ok(CalibrationTelemetre { timestamp_unix_sec: t, validite_sec: v }),
    }
}

proof fn lemme_erreur_persiste(ls: Seq<Seq<char>>, k: int, m: Seq<char>)
    requires
        0 <= k <= ls.len(),
        champs_telemetre(ls.take(k)) == core::result::Result::<(Option<u64>, Option<u64>), Seq<char>>::Err(m),
    ensures
        champs_telemetre(ls) == core::result::Result::<(Option<u64>, Option<u64>), Seq<char>>::Err(m),
    decreases ls.len() - k,
{
    if k < ls.len() {
        assert(ls.take(k + 1).drop_last() == ls.take(k));
        lemme_erreur_persiste(ls, k + 1, m);
    } else {
        assert(ls.take(k) == ls);
    }
}

impl CalibrationTelemetre {
    /// Instant de l'initialisation (secondes Unix).
    pub open spec fn spec_timestamp(&self) -> u64 {
        self.timestamp_unix_sec
    }

    /// Durée de validité (s).
    pub open spec fn spec_validite(&self) -> u64 {
        self.validite_sec
    }

    /// Calibration datée de l'instant présent.
    pub fn nouvelle(validite_sec: u64) -> (c: CalibrationTelemetre)
        ensures
            c.validite_sec == validite_sec,
    {
        CalibrationTelemetre { timestamp_unix_sec: secondes_unix(), validite_sec }
    }

    /// Calibration datée de `timestamp_unix_sec`.
    pub fn depuis_champs(timestamp_unix_sec: u64, validite_sec: u64) -> (c: CalibrationTelemetre)
        ensures
            c == (CalibrationTelemetre { timestamp_unix_sec, validite_sec }),
    {
        CalibrationTelemetre { timestamp_unix_sec, validite_sec }
    }

    /// Instant de l'initialisation (secondes Unix).
    pub fn timestamp_unix_sec(&self) -> (t: u64)
        ensures
            t == self.timestamp_unix_sec,
    {
        self.timestamp_unix_sec
    }

    /// Durée de validité (s).
    pub fn validite_sec(&self) -> (v: u64)
        ensures
            v == self.validite_sec,
    {
        self.validite_sec
    }

    /// Âge à l'instant `maintenant_sec` (nul si la calibration est postérieure).
    pub open spec fn spec_age_a(self, maintenant_sec: u64) -> u64 {
        if maintenant_sec >= self.timestamp_unix_sec { (maintenant_sec - self.timestamp_unix_sec) as u64 } else { 0 }
    }

    /// Âge à l'instant `maintenant_sec` (nul si la calibration est postérieure).
    pub fn age_a(&self, maintenant_sec: u64) -> (a: u64)
        ensures
            a == (if maintenant_sec >= self.timestamp_unix_sec {
                (maintenant_sec - self.timestamp_unix_sec) as u64
            } else {
                0
            }),
    {
        maintenant_sec.saturating_sub(self.timestamp_unix_sec)
    }

    /// Validité à l'instant `maintenant_sec` : âge strictement inférieur à la durée de validité.
    pub fn est_valide_a(&self, maintenant_sec: u64) -> (r: bool)
        ensures
            r == (if maintenant_sec >= self.timestamp_unix_sec {
                maintenant_sec - self.timestamp_unix_sec
            } else {
                0
            } < self.validite_sec),
    {
        self.age_a(maintenant_sec) < self.validite_sec
    }

    /// Texte `clé = valeur` de la calibration.
    pub fn texte(&self) -> (s: String)
        ensures
            s@ == texte_telemetre(self.timestamp_unix_sec, self.validite_sec),
    {
        let mut s = String::from_str("# Calibration télémètre VL53L0X");
        s.append("\n");
        s.append("# Générée automatiquement - ne pas éditer manuellement");
        s.append("\n\n");
        s.append("timestamp_unix_sec");
        s.append(" = ");
        ecrire_decimal(self.timestamp_unix_sec, &mut s);
        s.append("\n");
        s.append("validite_sec");
        s.append(" = ");
        ecrire_decimal(self.validite_sec, &mut s);
        s.append("\n");
        s
    }

    /// Relit une calibration depuis son texte.
    pub fn depuis_texte(contenu: &str) -> (r: Result<CalibrationTelemetre>)
        ensures
            match telemetre_depuis_texte(contenu@) {
                Ok(c) => r == Ok::<CalibrationTelemetre, ErreursAirHaum>(c),
                Err(m) => r matches Err(ErreursAirHaum::CalibrationEchouee(msg)) && msg@ == m,
            },
    {
        let v = caracteres(contenu);
        let lb = bornes_lignes(&v);
        let ghost ls = lignes(v@);
        let mut ts: Option<u64> = None;
        let mut va: Option<u64> = None;
        let mut k: usize = 0;
        while k < lb.len()
            invariant
                v@ == contenu@,
                ls == lignes(v@),
                lb.len() == ls.len(),
                forall|j: int| 0 <= j < lb.len() ==> (#[trigger] lb[j]).0 <= lb[j].1 <= v.len(),
                forall|j: int| 0 <= j < lb.len() ==> v@.subrange(lb[j].0 as int, lb[j].1 as int) == #[trigger] ls[j],
                k <= lb.len(),
                champs_telemetre(ls.take(k as int)) == core::result::Result::<(Option<u64>, Option<u64>), Seq<char>>::Ok((ts, va)),
            decreases lb.len() - k,
        {
            let (d, f) = lb[k];
            assert(ls.take(k + 1).drop_last() == ls.take(k as int));
            assert(ls.take(k + 1).last() == ls[k as int]);
            match analyser_ligne(&v, d, f) {
                None => {},
                Some((cle, valeur)) => {
                    let (ka, kb) = cle;
                    let (wa, wb) = valeur;
                    if egal_mot(&v, ka, kb, "timestamp_unix_sec") {
                        let (ra, rb) = bornes_rognees(&v, wa, wb);
                        match lire_u64(&v, ra, rb) {
                            Some(n) => {
                                ts = Some(n);
                            },
                            None => {
                                let msg = String::from_str("Timestamp invalide: ").concat(texte_de(&v, wa, wb).as_str());
                                proof {
                                    lemme_erreur_persiste(ls, k + 1, msg@);
                                }
                                return Err(ErreursAirHaum::CalibrationEchouee(msg));
                            },
                        }
                    } else if egal_mot(&v, ka, kb, "validite_sec") {
                        let (ra, rb) = bornes_rognees(&v, wa, wb);
                        match lire_u64(&v, ra, rb) {
                            Some(n) => {
                                va = Some(n);
                            },
                            None => {
                                let msg = String::from_str("Validité invalide: ").concat(texte_de(&v, wa, wb).as_str());
                                proof {
                                    lemme_erreur_persiste(ls, k + 1, msg@);
                                }
                                return Err(ErreursAirHaum::CalibrationEchouee(msg));
                            },
                        }
                    }
                },
            }
            k = k + 1;
        }
        assert(ls.take(lb.len() as int) == ls);
        proof {
            reveal_strlit("Champ '");
            reveal_strlit("' manquant");
            reveal_strlit("timestamp_unix_sec");
            reveal_strlit("validite_sec");
            reveal_strlit("Champ 'timestamp_unix_sec' manquant");
            reveal_strlit("Champ 'validite_sec' manquant");
            assert("Champ '"@ + "timestamp_unix_sec"@ + "' manquant"@ =~= "Champ 'timestamp_unix_sec' manquant"@);
            assert("Champ '"@ + "validite_sec"@ + "' manquant"@ =~= "Champ 'validite_sec' manquant"@);
        }
        let t = match champ_requis(ts, "timestamp_unix_sec") {
            Ok(t) => t,
            Err(e) => {
                return Err(e);
            },
        };
        let w = match champ_requis(va, "validite_sec") {
            Ok(w) => w,
            Err(e) => {
                return Err(e);
            },
        };
        Ok(CalibrationTelemetre { timestamp_unix_sec: t, validite_sec: w })
    }
}

impl CalibrationPersistante for CalibrationTelemetre {
    fn identifiant_capteur() -> (s: &'static str)
        ensures
            s@ == "telemetre"@,
    {
        "telemetre"
    }

    fn vers_toml(&self) -> (s: String)
        ensures
            s@ == texte_telemetre(self.timestamp_unix_sec, self.validite_sec),
    {
        self.texte()
    }

    fn depuis_toml(contenu: &str) -> (r: Result<CalibrationTelemetre>)
        ensures
            match telemetre_depuis_texte(contenu@) {
                Ok(c) => r == Ok::<CalibrationTelemetre, ErreursAirHaum>(c),
                Err(m) => r matches Err(ErreursAirHaum::CalibrationEchouee(msg)) && msg@ == m,
            },
    {
        CalibrationTelemetre::depuis_texte(contenu)
    }

    /// Âge à l'heure système lue (la lecture de l'horloge n'est pas spécifiée).
    fn age_secondes(&self) -> (a: u64)
        ensures
            exists|t: u64| a == #[trigger] self.spec_age_a(t),
    {
        let t = secondes_unix();
        let a = self.age_a(t);
        assert(a == self.spec_age_a(t));
        a
    }

    /// Validité à l'heure système lue (la lecture de l'horloge n'est pas spécifiée).
    fn est_valide(&self) -> (r: bool)
        ensures
            exists|t: u64| r == (#[trigger] self.spec_age_a(t) < self.validite_sec),
    {
        let t = secondes_unix();
        let r = self.est_valide_a(t);
        assert(r == (self.spec_age_a(t) < self.validite_sec));
        r
    }

    /// Non significatif pour une calibration persistée : l'instant présent.
    fn obtenir_horodatage(&self) -> Horodatage {
        Horodatage::maintenant()
    }
}

/// Relire le texte d'une calibration du télémètre redonne cette calibration.
pub proof fn loi_aller_retour_telemetre(c: CalibrationTelemetre)
    ensures
        telemetre_depuis_texte(texte_telemetre(c.timestamp_unix_sec, c.validite_sec)) == Ok::<CalibrationTelemetre, Seq<char>>(c),
{
    reveal_strlit("# Calibration télémètre VL53L0X");
    reveal_strlit("# Générée automatiquement - ne pas éditer manuellement");
    reveal_strlit("\n");
    reveal_strlit("\n\n");
    reveal_strlit("timestamp_unix_sec");
    reveal_strlit("validite_sec");
    reveal_strlit(" = ");
    let c1 = commentaire_titre();
    let c2 = commentaire_avertissement();
    let k1 = "timestamp_unix_sec"@;
    let k2 = "validite_sec"@;
    let l4 = k1 + " = "@ + chiffres(c.timestamp_unix_sec as nat);
    let l5 = k2 + " = "@ + chiffres(c.validite_sec as nat);
    lemme_ligne_entier(k1, c.timestamp_unix_sec);
    lemme_ligne_entier(k2, c.validite_sec);
    lemme_ligne_commentaire(c1);
    lemme_ligne_commentaire(c2);
    let vide = Seq::<char>::empty();
    // Découpage en lignes, fragment par fragment.
    lemme_decoupe_sans_saut(vide, c1);
    assert(vide + c1 == c1);
    let s2 = c1.push('\n');
    lemme_decoupe_saut(c1);
    lemme_decoupe_sans_saut(s2, c2);
    let s3 = s2 + c2;
    let s4 = s3.push('\n');
    lemme_decoupe_saut(s3);
    let s5 = s4.push('\n');
    lemme_decoupe_saut(s4);
    lemme_decoupe_sans_saut(s5, l4);
    let s6 = s5 + l4;
    let s7 = s6.push('\n');
    lemme_decoupe_saut(s6);
    lemme_decoupe_sans_saut(s7, l5);
    let s8 = s7 + l5;
    let s9 = s8.push('\n');
    lemme_decoupe_saut(s8);
    assert(texte_telemetre(c.timestamp_unix_sec, c.validite_sec) =~= s9);
    let ls = seq![c1, c2, vide, l4, l5];
    assert(decoupe(s9).0 =~= ls);
    assert(lignes(s9) == ls);
    // Lecture des champs, ligne par ligne.
    assert(ls.drop_last() =~= seq![c1, c2, vide, l4]);
    assert(seq![c1, c2, vide, l4].drop_last() =~= seq![c1, c2, vide]);
    assert(seq![c1, c2, vide].drop_last() =~= seq![c1, c2]);
    assert(seq![c1, c2].drop_last() =~= seq![c1]);
    assert(seq![c1].drop_last() =~= Seq::<Seq<char>>::empty());
    assert(rogner(vide) =~= vide);
    assert(paire_cle_valeur(vide) is None);
    assert(k2 != k1);
    let t = c.timestamp_unix_sec;
    let v = c.validite_sec;
    assert(champs_telemetre(Seq::<Seq<char>>::empty()) == core::result::Result::<(Option<u64>, Option<u64>), Seq<char>>::Ok((None, None)));
    assert(champs_telemetre(seq![c1]) == core::result::Result::<(Option<u64>, Option<u64>), Seq<char>>::Ok((None, None)));
    assert(champs_telemetre(seq![c1, c2]) == core::result::Result::<(Option<u64>, Option<u64>), Seq<char>>::Ok((None, None)));
    assert(champs_telemetre(seq![c1, c2, vide]) == core::result::Result::<(Option<u64>, Option<u64>), Seq<char>>::Ok((None, None)));
    assert(champs_telemetre(seq![c1, c2, vide, l4]) == core::result::Result::<(Option<u64>, Option<u64>), Seq<char>>::Ok((Some(t), None)));
    assert(champs_telemetre(ls) == core::result::Result::<(Option<u64>, Option<u64>), Seq<char>>::Ok((Some(t), Some(v))));
}

} // verus!

//! Driver du capteur de pression et de température BMP280 (Bosch).
//!
//! Mesure en mode FORCED : déclenchement, attente de fin de conversion,
//! lecture des registres bruts puis compensation entière.
use vstd::prelude::*;
use crate::hal::i2c::{BusI2c, lecture_couvre, registre_lu};
use crate::systeme::texte::{chiffres, ecrire_centiemes, ecrire_decimal, hex2_maj, pousser_hex2, texte_centiemes};
use crate::interfaces::barometre::Barometre;
use crate::types::{
    DonneesBarometre, ErreursAirHaum, EtatCapteur, Horodatage, Result, instant_maintenant, micros_ecoulees,
    PRESSION_MAX_PA, PRESSION_MIN_PA, TEMP_MAX_BMP280_CENTI, TEMP_MIN_BMP280_CENTI,
    TIMEOUT_INIT_BMP280_MS, VARIATION_PRESSION_MAX_PA_S,
};
use crate::drivers::barometre::compensation::{
    ADRESSE_BMP280, Calibration, REG_CALIB_START, calibration_de, pression_compensee, temperature_compensee,
};

verus! {

/// La conversion est terminée : bit 3 (`measuring`) du statut à zéro.
pub fn conversion_terminee(statut: u8) -> (r: bool)
    ensures
        r == (statut & 0x08 == 0),
{
    (statut & 0b0000_1000) == 0
}

/// L'attente de conversion a dépassé sa durée maximale (`ecoule_us` en µs).
pub fn attente_expiree(ecoule_us: u64) -> (r: bool)
    ensures
        r == (ecoule_us >= MAX_ATTENTE_CONVERSION_MS * 1000),
{
    ecoule_us >= MAX_ATTENTE_CONVERSION_MS * 1000
}

/// Sur le bus relu, le statut signale une conversion terminée.
pub open spec fn conversion_prete<B: BusI2c>(bus: B) -> bool {
    registre_lu(bus, ADRESSE_BMP280, REG_STATUS) matches Some(st) && st & 0x08 == 0
}

/// Sur le bus relu : conversion terminée, données lisibles et compensables
/// avec les coefficients chargés.
pub open spec fn lecture_prete<B: BusI2c>(bus: B, coefficients: Option<Calibration>) -> bool {
    &&& conversion_prete(bus)
    &&& bus.lecture_acceptee(ADRESSE_BMP280, seq![REG_PRESS_MSB], 6)
    &&& coefficients matches Some(c) && mesure_de(c, bus.reponse(ADRESSE_BMP280, seq![REG_PRESS_MSB], 6)) is Some
}

/// Les lectures des données brutes (6 octets depuis 0xF7) et des
/// coefficients (24 octets depuis 0x88) rendent la même chose sur `apres`
/// que sur `avant`.
pub open spec fn mesures_intactes<B: BusI2c>(apres: B, avant: B) -> bool {
    &&& apres.reponse(ADRESSE_BMP280, seq![REG_PRESS_MSB], 6) == avant.reponse(ADRESSE_BMP280, seq![REG_PRESS_MSB], 6)
    &&& apres.lecture_acceptee(ADRESSE_BMP280, seq![REG_PRESS_MSB], 6)
        == avant.lecture_acceptee(ADRESSE_BMP280, seq![REG_PRESS_MSB], 6)
    &&& apres.reponse(ADRESSE_BMP280, seq![REG_CALIB_START], 24) == avant.reponse(ADRESSE_BMP280, seq![REG_CALIB_START], 24)
    &&& apres.lecture_acceptee(ADRESSE_BMP280, seq![REG_CALIB_START], 24)
        == avant.lecture_acceptee(ADRESSE_BMP280, seq![REG_CALIB_START], 24)
}

/// Message d'un identifiant lu différent de 0x58.
pub open spec fn texte_id_invalide(id: u8) -> Seq<char> {
    "BMP280 ID invalide: 0x"@ + hex2_maj(id) + " (attendu 0x58)"@
}

fn message_id_invalide(id: u8) -> (s: String)
    ensures
        s@ == texte_id_invalide(id),
{
    let mut s = String::from_str("BMP280 ID invalide: 0x");
    pousser_hex2(&mut s, id);
    s.append(" (attendu 0x58)");
    s
}

/// Message d'une lecture refusée faute d'état utilisable.
pub open spec fn texte_non_operationnel(etat: EtatCapteur) -> Seq<char> {
    "BMP280 non opérationnel (état: "@ + etat.spec_texte() + ")"@
}

fn message_non_operationnel(etat: &EtatCapteur) -> (s: String)
    ensures
        s@ == texte_non_operationnel(*etat),
{
    let t = etat.texte();
    let mut s = String::from_str("BMP280 non opérationnel (état: ");
    s.append(t.as_str());
    s.append(")");
    s
}

/// Message d'une mesure hors plages ou incohérente.
pub open spec fn texte_donnees(d: DonneesBarometre) -> Seq<char> {
    "BMP280: P="@ + chiffres(d.pression_pa as nat) + " Pa, T="@ + texte_centiemes(d.temperature_centi as int) + "°C"@
}

fn message_donnees(d: &DonneesBarometre) -> (s: String)
    ensures
        s@ == texte_donnees(*d),
{
    let mut s = String::from_str("BMP280: P=");
    ecrire_decimal(d.pression_pa as u64, &mut s);
    s.append(" Pa, T=");
    ecrire_centiemes(d.temperature_centi, &mut s);
    s.append("°C");
    s
}

/// Registre d'identification (doit valoir [`ID_VALEUR_ATTENDUE`]).
pub const REG_ID: u8 = 0xD0;
/// Identifiant du BMP280.
pub const ID_VALEUR_ATTENDUE: u8 = 0x58;
/// Registre de réinitialisation logicielle.
pub const REG_RESET: u8 = 0xE0;
/// Commande de réinitialisation.
pub const RESET_COMMANDE: u8 = 0xB6;
/// Registre d'état (bit 3 : conversion en cours).
pub const REG_STATUS: u8 = 0xF3;
/// Registre de contrôle des mesures.
pub const REG_CTRL_MEAS: u8 = 0xF4;
/// Registre de configuration.
pub const REG_CONFIG: u8 = 0xF5;
/// Premier registre des données brutes (pression puis température, 6 octets).
pub const REG_PRESS_MSB: u8 = 0xF7;

/// Suréchantillonnage température ×16.
pub const OSRS_T_X16: u8 = 0b101_000_00;
/// Suréchantillonnage pression ×16.
pub const OSRS_P_X16: u8 = 0b000_101_00;
/// Mode veille.
pub const MODE_SLEEP: u8 = 0b00;
/// Mode mesure unique.
pub const MODE_FORCED: u8 = 0b01;

/// Pause entre deux lectures du registre d'état (ms).
pub const INTERVALLE_SONDAGE_MS: u32 = 1;

/// Délai maximal d'une conversion (ms).
pub const MAX_ATTENTE_CONVERSION_MS: u64 = 100;

/// Valeur brute 20 bits formée de trois octets (MSB, LSB, XLSB sur 4 bits).
pub open spec fn brut_20_bits(msb: u8, lsb: u8, xlsb: u8) -> int {
    msb as int * 4096 + lsb as int * 16 + xlsb as int / 16
}

/// Mesure compensée (pression en Pa, température en centièmes de °C) des six
/// octets bruts lus à partir de `REG_PRESS_MSB`.
pub open spec fn mesure_de(c: Calibration, o: Seq<u8>) -> Option<(u32, i32)> {
    let adc_p = brut_20_bits(o[0], o[1], o[2]);
    let adc_t = brut_20_bits(o[3], o[4], o[5]);
    match temperature_compensee(c, adc_t) {
        Some((t, t_fine)) => match pression_compensee(c, adc_p, t_fine) {
            Some(p) => Some((p, t as i32)),
            None => None,
        },
        None => None,
    }
}

/// Plage plausible des données.
pub open spec fn dans_les_plages(d: DonneesBarometre) -> bool {
    &&& PRESSION_MIN_PA <= d.pression_pa <= PRESSION_MAX_PA
    &&& TEMP_MIN_BMP280_CENTI <= d.temperature_centi <= TEMP_MAX_BMP280_CENTI
}

/// Cohérence d'une lecture : plages plausibles et, par rapport à la lecture
/// précédente acceptée (si elle est antérieure), variation de pression d'au
/// plus `VARIATION_PRESSION_MAX_PA_S` pascals par seconde.
pub open spec fn lecture_coherente(d: DonneesBarometre, precedente: Option<(u32, Horodatage)>) -> bool {
    &&& dans_les_plages(d)
    &&& match precedente {
        Some((p, h)) => d.horodatage.micros > h.micros ==> {
            let ecart = if d.pression_pa >= p { d.pression_pa - p } else { p - d.pression_pa };
            ecart * 1_000_000 <= VARIATION_PRESSION_MAX_PA_S * (d.horodatage.micros - h.micros)
        },
        None => true,
    }
}

/// Écriture déclenchant une mesure en mode FORCED avec la configuration `cfg`.
pub open spec fn ecriture_mesure(cfg: u8) -> (u8, Seq<u8>) {
    (ADRESSE_BMP280, seq![REG_CTRL_MEAS, cfg | MODE_FORCED])
}

/// Écritures de l'initialisation complète : réinitialisation, filtre et
/// veille coupés, suréchantillonnage ×16 en mode veille, puis une mesure.
pub open spec fn ecritures_initialisation(cfg: u8) -> Seq<(u8, Seq<u8>)> {
    seq![
        (ADRESSE_BMP280, seq![REG_RESET, RESET_COMMANDE]),
        (ADRESSE_BMP280, seq![REG_CONFIG, 0u8]),
        (ADRESSE_BMP280, seq![REG_CTRL_MEAS, OSRS_T_X16 | OSRS_P_X16 | MODE_SLEEP]),
        ecriture_mesure(cfg),
    ]
}

/// Driver BMP280 sur un bus I²C.
pub struct Bmp280<I: BusI2c> {
    i2c: I,
    calibration: Option<Calibration>,
    etat: EtatCapteur,
    config_ctrl_meas: u8,
    derniere_pression: Option<u32>,
    derniere_lecture: Option<Horodatage>,
}

impl<I: BusI2c> Bmp280<I> {
    /// Bus I²C du capteur.
    pub closed spec fn bus(&self) -> I {
        self.i2c
    }

    /// Coefficients d'usine chargés.
    pub closed spec fn coefficients(&self) -> Option<Calibration> {
        self.calibration
    }

    /// État du capteur.
    pub closed spec fn etat(&self) -> EtatCapteur {
        self.etat
    }

    /// Configuration de mesure (suréchantillonnage, sans les bits de mode).
    pub closed spec fn configuration(&self) -> u8 {
        self.config_ctrl_meas
    }

    /// Dernière lecture acceptée (pression, horodatage).
    pub closed spec fn precedente(&self) -> Option<(u32, Horodatage)> {
        match (self.derniere_pression, self.derniere_lecture) {
            (Some(p), Some(h)) => Some((p, h)),
            _ => None,
        }
    }

    /// Driver non initialisé.
    pub fn nouveau(i2c: I) -> (b: Self)
        ensures
            b.bus() == i2c,
            b.coefficients() is None,
            b.etat() == EtatCapteur::Inconnu,
            b.configuration() == OSRS_T_X16 | OSRS_P_X16,
            b.precedente() is None,
    {
        Bmp280 {
            i2c,
            calibration: None,
            etat: EtatCapteur::Inconnu,
            config_ctrl_meas: OSRS_T_X16 | OSRS_P_X16,
            derniere_pression: None,
            derniere_lecture: None,
        }
    }

    /// Déclenche une mesure en mode FORCED.
    fn declencher_mesure(&mut self) -> (r: Result<()>)
        ensures
            I::registres_memoire() && old(self).bus().en_service() ==> final(self).bus().en_service()
                && mesures_intactes(final(self).bus(), old(self).bus()),
            r is Ok <==> old(self).bus().ecriture_acceptee(ADRESSE_BMP280, seq![REG_CTRL_MEAS, old(self).configuration() | MODE_FORCED]),
            r is Ok ==> final(self).bus().ecritures() == old(self).bus().ecritures()
                .push((ADRESSE_BMP280, seq![REG_CTRL_MEAS, old(self).configuration() | MODE_FORCED])),
            r is Err ==> final(self).bus().ecritures() == old(self).bus().ecritures(),
            r matches Err(e) ==> e is ErreurI2C,
            old(self).bus().en_service() ==> r is Ok && final(self).bus().en_service(),
            I::registres_memoire() && r is Ok ==> forall|b: u8, g: u8, n: nat| !lecture_couvre(b, g, n, ADRESSE_BMP280, REG_CTRL_MEAS)
                ==> #[trigger] final(self).bus().reponse(b, seq![g], n) == old(self).bus().reponse(b, seq![g], n),
            I::registres_memoire() && r is Ok ==> forall|b: u8, g: u8, n: nat| !lecture_couvre(b, g, n, ADRESSE_BMP280, REG_CTRL_MEAS)
                ==> #[trigger] final(self).bus().lecture_acceptee(b, seq![g], n) == old(self).bus().lecture_acceptee(b, seq![g], n),
            final(self).coefficients() == old(self).coefficients(),
            final(self).etat() == old(self).etat(),
            final(self).configuration() == old(self).configuration(),
            final(self).precedente() == old(self).precedente(),
    {
        let ctrl = self.config_ctrl_meas | MODE_FORCED;
        self.i2c.ecrire_registre_u8(ADRESSE_BMP280, REG_CTRL_MEAS, ctrl)
    }

    /// Vérifie l'identifiant du capteur ; `DonneesInvalides` s'il diffère de 0x58.
    fn verifier_id(&mut self) -> (r: Result<()>)
        ensures
            I::registres_memoire() ==> final(self).bus() == old(self).bus(),
            r is Ok <==> old(self).bus().lecture_acceptee(ADRESSE_BMP280, seq![REG_ID], 1)
                && old(self).bus().reponse(ADRESSE_BMP280, seq![REG_ID], 1)[0] == ID_VALEUR_ATTENDUE,
            old(self).bus().lecture_acceptee(ADRESSE_BMP280, seq![REG_ID], 1)
                && old(self).bus().reponse(ADRESSE_BMP280, seq![REG_ID], 1)[0] != ID_VALEUR_ATTENDUE
                ==> (r matches Err(e) && e matches ErreursAirHaum::DonneesInvalides(m)
                    && m@ == texte_id_invalide(old(self).bus().reponse(ADRESSE_BMP280, seq![REG_ID], 1)[0])),
            final(self).bus().ecritures() == old(self).bus().ecritures(),
            r is Ok ==> old(self).bus().reponse(ADRESSE_BMP280, seq![REG_ID], 1)[0] == ID_VALEUR_ATTENDUE,
            final(self).coefficients() == old(self).coefficients(),
            final(self).etat() == old(self).etat(),
            final(self).configuration() == old(self).configuration(),
            final(self).precedente() == old(self).precedente(),
    {
        let id = self.i2c.lire_registre_u8(ADRESSE_BMP280, REG_ID)?;
        if id != ID_VALEUR_ATTENDUE {
            return Err(ErreursAirHaum::DonneesInvalides(message_id_invalide(id)));
        }
        Ok(())
    }

    /// Réinitialisation logicielle, puis 10 ms d'attente.
    fn reset(&mut self) -> (r: Result<()>)
        ensures
            I::registres_memoire() && old(self).bus().en_service() ==> final(self).bus().en_service()
                && mesures_intactes(final(self).bus(), old(self).bus()),
            r is Ok <==> old(self).bus().ecriture_acceptee(ADRESSE_BMP280, seq![REG_RESET, RESET_COMMANDE]),
            r is Ok ==> final(self).bus().ecritures() == old(self).bus().ecritures()
                .push((ADRESSE_BMP280, seq![REG_RESET, RESET_COMMANDE])),
            r is Err ==> final(self).bus().ecritures() == old(self).bus().ecritures(),
            final(self).coefficients() == old(self).coefficients(),
            final(self).etat() == old(self).etat(),
            final(self).configuration() == old(self).configuration(),
            final(self).precedente() == old(self).precedente(),
    {
        self.i2c.ecrire_registre_u8(ADRESSE_BMP280, REG_RESET, RESET_COMMANDE)?;
        self.i2c.pause_ms(10);
        Ok(())
    }

    /// Attend la fin de la conversion (bit 3 du registre d'état à zéro), au
    /// plus 100 ms ; `TimeoutCapteur` au-delà.
    fn attendre_conversion(&mut self) -> (r: Result<()>)
        ensures
            final(self).bus().ecritures() == old(self).bus().ecritures(),
            I::registres_memoire() ==> final(self).bus() == old(self).bus(),
            old(self).bus().en_service() ==> final(self).bus().en_service(),
            r matches Err(e) ==> e is ErreurI2C || (e matches ErreursAirHaum::TimeoutCapteur(m) && m@ == "BMP280"@),
            I::registres_memoire() && conversion_prete(old(self).bus())
                ==> r is Ok || (r matches Err(e) && e is TimeoutCapteur),
            final(self).coefficients() == old(self).coefficients(),
            final(self).etat() == old(self).etat(),
            final(self).configuration() == old(self).configuration(),
            final(self).precedente() == old(self).precedente(),
    {
        let debut = instant_maintenant();
        let sondages_max: u64 = MAX_ATTENTE_CONVERSION_MS / (INTERVALLE_SONDAGE_MS as u64) + 1;
        let mut k: u64 = 0;
        while k < sondages_max
            invariant
                self.i2c.ecritures() == old(self).bus().ecritures(),
                I::registres_memoire() ==> self.i2c == old(self).i2c,
                old(self).i2c.en_service() ==> self.i2c.en_service(),
                self.calibration == old(self).calibration,
                self.etat == old(self).etat,
                self.config_ctrl_meas == old(self).config_ctrl_meas,
                self.derniere_pression == old(self).derniere_pression,
                self.derniere_lecture == old(self).derniere_lecture,
            decreases sondages_max - k,
        {
            if attente_expiree(micros_ecoulees(&debut)) {
                break;
            }
            let status = self.i2c.lire_registre_u8(ADRESSE_BMP280, REG_STATUS)?;
            if conversion_terminee(status) {
                return Ok(());
            }
            self.i2c.pause_ms(INTERVALLE_SONDAGE_MS);
            k = k + 1;
        }
        Err(ErreursAirHaum::TimeoutCapteur(String::from_str("BMP280")))
    }

    /// Lit les valeurs brutes 20 bits (température, pression).
    fn lire_donnees_brutes(&mut self) -> (r: Result<(i32, i32)>)
        ensures
            r is Ok <==> old(self).bus().lecture_acceptee(ADRESSE_BMP280, seq![REG_PRESS_MSB], 6),
            r matches Err(e) ==> e is ErreurI2C,
            old(self).bus().en_service() ==> final(self).bus().en_service(),
            I::registres_memoire() ==> final(self).bus() == old(self).bus(),
            final(self).bus().ecritures() == old(self).bus().ecritures(),
            r matches Ok((t, p)) ==> ({
                let o = old(self).bus().reponse(ADRESSE_BMP280, seq![REG_PRESS_MSB], 6);
                &&& o.len() == 6
                &&& p == brut_20_bits(o[0], o[1], o[2])
                &&& t == brut_20_bits(o[3], o[4], o[5])
            }),
            final(self).coefficients() == old(self).coefficients(),
            final(self).etat() == old(self).etat(),
            final(self).configuration() == old(self).configuration(),
            final(self).precedente() == old(self).precedente(),
    {
        let mut b = [0u8; 6];
        let reg = [REG_PRESS_MSB];
        assert(reg@ == seq![REG_PRESS_MSB]);
        self.i2c.ecrire_lire(ADRESSE_BMP280, &reg, &mut b)?;
        let adc_p = (b[0] as i32) * 4096 + (b[1] as i32) * 16 + (b[2] as i32) / 16;
        let adc_t = (b[3] as i32) * 4096 + (b[4] as i32) * 16 + (b[5] as i32) / 16;
        Ok((adc_t, adc_p))
    }

    /// Reprise rapide possible : identifiant correct et registre de contrôle
    /// (hors bits de mode) égal à la configuration attendue.
    fn detecter_configuration_valide(&mut self) -> (r: Result<bool>)
        ensures
            I::registres_memoire() ==> final(self).bus() == old(self).bus(),
            !(old(self).bus().lecture_acceptee(ADRESSE_BMP280, seq![REG_ID], 1)
                && old(self).bus().reponse(ADRESSE_BMP280, seq![REG_ID], 1)[0] == ID_VALEUR_ATTENDUE)
                ==> r == Ok::<bool, ErreursAirHaum>(false),
            final(self).bus().ecritures() == old(self).bus().ecritures(),
            r matches Ok(true) ==> old(self).bus().reponse(ADRESSE_BMP280, seq![REG_ID], 1)[0] == ID_VALEUR_ATTENDUE,
            final(self).coefficients() == old(self).coefficients(),
            final(self).etat() == old(self).etat(),
            final(self).configuration() == old(self).configuration(),
            final(self).precedente() == old(self).precedente(),
    {
        if self.verifier_id().is_err() {
            return Ok(false);
        }
        let ctrl = self.i2c.lire_registre_u8(ADRESSE_BMP280, REG_CTRL_MEAS)?;
        Ok((ctrl & 0b1111_1100) == self.config_ctrl_meas)
    }

    /// Lecture compensée sans vérification d'état ni de cohérence ; exige les
    /// coefficients chargés (`CalibrationEchouee` sinon).
    pub fn lire_interne(&mut self) -> (r: Result<DonneesBarometre>)
        ensures
            I::registres_memoire() && old(self).bus().en_service() ==> final(self).bus().en_service()
                && mesures_intactes(final(self).bus(), old(self).bus()),
            old(self).coefficients() is None <==> (r matches Err(e) && e is CalibrationEchouee),
            I::registres_memoire() && old(self).bus().en_service() && lecture_prete(old(self).bus(), old(self).coefficients())
                ==> r is Ok || (r matches Err(e) && e is TimeoutCapteur),
            old(self).bus().en_service() ==> final(self).bus().en_service(),
            r matches Ok(d) ==> old(self).coefficients() matches Some(c) && exists|o: Seq<u8>|
                o.len() == 6 && mesure_de(c, o) == Some((d.pression_pa, d.temperature_centi)),
            I::registres_memoire() ==> (r matches Ok(d) ==> old(self).coefficients() matches Some(c)
                && mesure_de(c, old(self).bus().reponse(ADRESSE_BMP280, seq![REG_PRESS_MSB], 6))
                    == Some((d.pression_pa, d.temperature_centi))),
            r is Ok || (r matches Err(e) && e is TimeoutCapteur) ==> final(self).bus().ecritures() == old(self).bus().ecritures()
                .push((ADRESSE_BMP280, seq![REG_CTRL_MEAS, old(self).configuration() | MODE_FORCED])),
            final(self).coefficients() == old(self).coefficients(),
            final(self).etat() == old(self).etat(),
            final(self).configuration() == old(self).configuration(),
            final(self).precedente() == old(self).precedente(),
    {
        let calib = match self.calibration {
            Some(c) => c,
            None => {
                return Err(ErreursAirHaum::CalibrationEchouee(String::from_str("Calibration non chargée")));
            },
        };
        self.declencher_mesure()?;
        proof {
            if I::registres_memoire() {
                assert(!lecture_couvre(ADRESSE_BMP280, REG_PRESS_MSB, 6, ADRESSE_BMP280, REG_CTRL_MEAS)) by {
                    assert forall|i: int| 0 <= i < 6 implies
                        #[trigger] crate::hal::i2c::registre_suivant(REG_PRESS_MSB, i) != REG_CTRL_MEAS by {}
                }
                assert(self.i2c.reponse(ADRESSE_BMP280, seq![REG_PRESS_MSB], 6)
                    == old(self).bus().reponse(ADRESSE_BMP280, seq![REG_PRESS_MSB], 6));
            }
        }
        proof {
            if I::registres_memoire() {
                assert(!lecture_couvre(ADRESSE_BMP280, REG_STATUS, 1, ADRESSE_BMP280, REG_CTRL_MEAS)) by {
                    assert forall|i: int| 0 <= i < 1 implies
                        #[trigger] crate::hal::i2c::registre_suivant(REG_STATUS, i) != REG_CTRL_MEAS by {}
                }
                assert(registre_lu(self.i2c, ADRESSE_BMP280, REG_STATUS) == registre_lu(old(self).bus(), ADRESSE_BMP280, REG_STATUS));
            }
        }
        self.attendre_conversion()?;
        let ghost o = self.i2c.reponse(ADRESSE_BMP280, seq![REG_PRESS_MSB], 6);
        let (adc_t, adc_p) = self.lire_donnees_brutes()?;
        let (temperature, t_fine) = match calib.compenser_temperature(adc_t) {
            Some(x) => x,
            None => {
                return Err(ErreursAirHaum::DonneesInvalides(String::from_str("BMP280: compensation hors plage")));
            },
        };
        let pression = match calib.compenser_pression(adc_p, t_fine) {
            Some(p) => p,
            None => {
                return Err(ErreursAirHaum::DonneesInvalides(String::from_str("BMP280: compensation hors plage")));
            },
        };
        assert(o.len() == 6 && mesure_de(calib, o) == Some((pression, temperature)));
        Ok(DonneesBarometre { horodatage: Horodatage::maintenant(), pression_pa: pression, temperature_centi: temperature })
    }

    /// Purge les registres du capteur par une mesure complète ignorée.
    fn purger_buffers(&mut self) -> (r: Result<()>)
        ensures
            I::registres_memoire() && old(self).bus().en_service() ==> final(self).bus().en_service()
                && mesures_intactes(final(self).bus(), old(self).bus()),
            r is Ok ==> final(self).bus().ecritures() == old(self).bus().ecritures()
                .push(ecriture_mesure(old(self).configuration())),
            final(self).coefficients() == old(self).coefficients(),
            final(self).etat() == old(self).etat(),
            final(self).configuration() == old(self).configuration(),
            final(self).precedente() == old(self).precedente(),
    {
        self.declencher_mesure()?;
        self.attendre_conversion()?;
        let _ = self.lire_donnees_brutes()?;
        Ok(())
    }

    /// Cohérence d'une lecture avec les plages plausibles et la lecture précédente.
    pub fn verifier_coherence(&self, donnees: &DonneesBarometre) -> (r: bool)
        ensures
            r == lecture_coherente(*donnees, self.precedente()),
    {
        if !(PRESSION_MIN_PA <= donnees.pression_pa && donnees.pression_pa <= PRESSION_MAX_PA) {
            return false;
        }
        if !(TEMP_MIN_BMP280_CENTI <= donnees.temperature_centi && donnees.temperature_centi <= TEMP_MAX_BMP280_CENTI) {
            return false;
        }
        match (self.derniere_pression, self.derniere_lecture) {
            (Some(p), Some(h)) => {
                if donnees.horodatage.micros > h.micros {
                    let dt = donnees.horodatage.micros - h.micros;
                    let ecart: u64 = if donnees.pression_pa >= p {
                        (donnees.pression_pa - p) as u64
                    } else {
                        (p - donnees.pression_pa) as u64
                    };
                    assert((VARIATION_PRESSION_MAX_PA_S as u128) * (dt as u128) <= 500 * 0x1_0000_0000_0000_0000) by (nonlinear_arith)
                        requires
                            dt <= u64::MAX;
                    (ecart as u128) * 1_000_000 <= (VARIATION_PRESSION_MAX_PA_S as u128) * (dt as u128)
                } else {
                    true
                }
            },
            _ => true,
        }
    }

    /// Initialisation complète : identifiant, réinitialisation, coefficients,
    /// configuration, lecture de validation ; opérationnel si une calibration
    /// au sol valide existe, configuré sinon. Au-delà du délai d'initialisation
    /// entre deux étapes : `Timeout` et état inconnu.
    fn initialisation_complete(&mut self, calibration_valide: bool) -> (r: Result<()>)
        ensures
            I::registres_memoire() && old(self).bus().en_service() ==> final(self).bus().en_service()
                && mesures_intactes(final(self).bus(), old(self).bus()),
            I::registres_memoire() && old(self).bus().en_service() && r is Ok
                ==> final(self).coefficients() == Some(calibration_de(old(self).bus().reponse(ADRESSE_BMP280, seq![REG_CALIB_START], 24))),
            old(self).bus().lecture_acceptee(ADRESSE_BMP280, seq![REG_ID], 1)
                && old(self).bus().reponse(ADRESSE_BMP280, seq![REG_ID], 1)[0] != ID_VALEUR_ATTENDUE
                ==> (r matches Err(e) && e matches ErreursAirHaum::DonneesInvalides(m)
                    && m@ == texte_id_invalide(old(self).bus().reponse(ADRESSE_BMP280, seq![REG_ID], 1)[0])),
            !(old(self).bus().lecture_acceptee(ADRESSE_BMP280, seq![REG_ID], 1)
                && old(self).bus().reponse(ADRESSE_BMP280, seq![REG_ID], 1)[0] == ID_VALEUR_ATTENDUE) ==> r is Err,
            old(self).bus().lecture_acceptee(ADRESSE_BMP280, seq![REG_ID], 1)
                && old(self).bus().reponse(ADRESSE_BMP280, seq![REG_ID], 1)[0] != ID_VALEUR_ATTENDUE
                ==> (r matches Err(e) && e is DonneesInvalides),
            r is Ok ==> final(self).etat() == (if calibration_valide { EtatCapteur::Operationnel } else { EtatCapteur::Configure }),
            r is Ok ==> final(self).coefficients() is Some,
            r is Ok ==> final(self).bus().ecritures() == old(self).bus().ecritures()
                + ecritures_initialisation(old(self).configuration()),
            r is Ok ==> old(self).bus().reponse(ADRESSE_BMP280, seq![REG_ID], 1)[0] == ID_VALEUR_ATTENDUE,
            final(self).configuration() == old(self).configuration(),
            final(self).precedente() == old(self).precedente(),
    {
        let ghost e0 = self.i2c.ecritures();
        let ghost cfg = self.config_ctrl_meas;
        let debut = instant_maintenant();
        let limite_us = TIMEOUT_INIT_BMP280_MS * 1000;
        self.verifier_id()?;
        if micros_ecoulees(&debut) > limite_us {
            self.etat = EtatCapteur::Inconnu;
            return Err(ErreursAirHaum::Timeout);
        }
        self.etat = EtatCapteur::NonConfigure;
        self.reset()?;
        if micros_ecoulees(&debut) > limite_us {
            self.etat = EtatCapteur::Inconnu;
            return Err(ErreursAirHaum::Timeout);
        }
        let c = Calibration::lire_depuis_capteur(&mut self.i2c)?;
        self.calibration = Some(c);
        if micros_ecoulees(&debut) > limite_us {
            self.etat = EtatCapteur::Inconnu;
            return Err(ErreursAirHaum::Timeout);
        }
        self.i2c.ecrire_registre_u8(ADRESSE_BMP280, REG_CONFIG, 0)?;
        self.i2c.ecrire_registre_u8(ADRESSE_BMP280, REG_CTRL_MEAS, OSRS_T_X16 | OSRS_P_X16 | MODE_SLEEP)?;
        self.etat = EtatCapteur::Configure;
        let _ = self.lire_interne()?;
        assert(self.i2c.ecritures() =~= e0 + ecritures_initialisation(cfg));
        if calibration_valide {
            self.etat = EtatCapteur::nouveau_operationnel();
        } else {
            self.etat = EtatCapteur::Configure;
        }
        Ok(())
    }

    /// Suspend l'appelant pendant `ms` millisecondes sans transaction sur le bus.
    pub fn pause(&mut self, ms: u32)
        ensures
            I::registres_memoire() ==> final(self).bus() == old(self).bus(),
            old(self).bus().en_service() ==> final(self).bus().en_service(),
            final(self).bus().ecritures() == old(self).bus().ecritures(),
            final(self).coefficients() == old(self).coefficients(),
            final(self).etat() == old(self).etat(),
            final(self).configuration() == old(self).configuration(),
            final(self).precedente() == old(self).precedente(),
    {
        self.i2c.pause_ms(ms);
    }

    /// Contrôle préalable à une calibration au sol : le capteur doit être au
    /// moins configuré (`CapteurNonInitialise` sinon).
    pub fn verifier_pret_calibration(&self) -> (r: Result<()>)
        ensures
            r is Ok <==> !(self.etat() is Inconnu || self.etat() is NonConfigure),
            r matches Err(e) ==> e is CapteurNonInitialise,
    {
        match self.etat {
            EtatCapteur::Inconnu | EtatCapteur::NonConfigure => Err(ErreursAirHaum::CapteurNonInitialise(
                String::from_str("BMP280 doit être configuré avant calibration"),
            )),
            _ => Ok(()),
        }
    }

    /// Enregistre qu'une calibration au sol vient d'être faite : opérationnel.
    pub fn confirmer_calibration_sol(&mut self)
        requires
            !(old(self).etat() is Inconnu || old(self).etat() is NonConfigure),
        ensures
            final(self).etat() == EtatCapteur::Operationnel,
            final(self).bus() == old(self).bus(),
            final(self).coefficients() == old(self).coefficients(),
            final(self).precedente() == old(self).precedente(),
    {
        self.etat = EtatCapteur::nouveau_operationnel();
    }

    /// Enregistre l'invalidation de la calibration au sol : un capteur
    /// utilisable redevient seulement configuré.
    pub fn invalider_calibration_sol(&mut self)
        ensures
            final(self).etat() == (if old(self).etat().spec_est_utilisable() { EtatCapteur::Configure } else { old(self).etat() }),
            final(self).bus() == old(self).bus(),
            final(self).coefficients() == old(self).coefficients(),
            final(self).precedente() == old(self).precedente(),
    {
        if self.etat.est_utilisable() {
            self.etat = EtatCapteur::Configure;
        }
    }
}

impl<I: BusI2c> Barometre for Bmp280<I> {
    open spec fn etat_capteur(&self) -> EtatCapteur {
        self.etat()
    }

    fn initialiser(&mut self, calibration_valide: bool) -> (r: Result<()>)
        ensures
            I::registres_memoire() && old(self).bus().en_service() ==> final(self).bus().en_service()
                && mesures_intactes(final(self).bus(), old(self).bus()),
            I::registres_memoire() && old(self).bus().en_service() && r is Ok
                ==> final(self).coefficients() == Some(calibration_de(old(self).bus().reponse(ADRESSE_BMP280, seq![REG_CALIB_START], 24))),
            I::registres_memoire() && !(old(self).bus().lecture_acceptee(ADRESSE_BMP280, seq![REG_ID], 1)
                && old(self).bus().reponse(ADRESSE_BMP280, seq![REG_ID], 1)[0] == ID_VALEUR_ATTENDUE) ==> r is Err,
            I::registres_memoire() && old(self).bus().lecture_acceptee(ADRESSE_BMP280, seq![REG_ID], 1)
                && old(self).bus().reponse(ADRESSE_BMP280, seq![REG_ID], 1)[0] != ID_VALEUR_ATTENDUE
                ==> (r matches Err(e) && e matches ErreursAirHaum::DonneesInvalides(m)
                    && m@ == texte_id_invalide(old(self).bus().reponse(ADRESSE_BMP280, seq![REG_ID], 1)[0])),
            r is Ok ==> final(self).etat_capteur() is Operationnel
                || (!calibration_valide && final(self).etat_capteur() is Configure),
            r is Ok ==> final(self).precedente() == old(self).precedente(),
            r is Ok ==> final(self).coefficients() is Some,
            r is Ok ==> ({
                let e = old(self).bus().ecritures();
                let cfg = old(self).configuration();
                ||| final(self).bus().ecritures() == e.push(ecriture_mesure(cfg))
                ||| final(self).bus().ecritures() == e + ecritures_initialisation(cfg)
            }),
    {
        if self.detecter_configuration_valide()? {
            let c = Calibration::lire_depuis_capteur(&mut self.i2c)?;
            self.calibration = Some(c);
            self.purger_buffers()?;
            self.etat = EtatCapteur::nouveau_operationnel();
            return Ok(());
        }
        self.initialisation_complete(calibration_valide)
    }

    fn lire(&mut self) -> (r: Result<DonneesBarometre>)
        ensures
            I::registres_memoire() && old(self).bus().en_service() ==> final(self).bus().en_service()
                && mesures_intactes(final(self).bus(), old(self).bus()),
            final(self).coefficients() == old(self).coefficients(),
            I::registres_memoire() && old(self).bus().en_service() && old(self).etat_capteur().spec_est_utilisable()
                && lecture_prete(old(self).bus(), old(self).coefficients())
                ==> match r {
                    Ok(_) => true,
                    Err(e) => e is TimeoutCapteur || (e is DonneesInvalides && final(self).etat_capteur() is Degrade
                        && (old(self).coefficients() matches Some(c) && exists|d: DonneesBarometre|
                            #[trigger] mesure_de(c, old(self).bus().reponse(ADRESSE_BMP280, seq![REG_PRESS_MSB], 6))
                                == Some((d.pression_pa, d.temperature_centi))
                            && !lecture_coherente(d, old(self).precedente()))),
                },
            I::registres_memoire() && old(self).etat_capteur().spec_est_utilisable()
                ==> (r matches Ok(d) ==> old(self).coefficients() matches Some(c)
                    && mesure_de(c, old(self).bus().reponse(ADRESSE_BMP280, seq![REG_PRESS_MSB], 6))
                        == Some((d.pression_pa, d.temperature_centi))),
            old(self).etat_capteur().spec_est_utilisable() ==> match r {
                Ok(d) => lecture_coherente(d, old(self).precedente())
                    && final(self).precedente() == Some((d.pression_pa, d.horodatage))
                    && final(self).etat_capteur() == old(self).etat_capteur()
                    && (old(self).coefficients() matches Some(c) && exists|o: Seq<u8>|
                        o.len() == 6 && mesure_de(c, o) == Some((d.pression_pa, d.temperature_centi))),
                Err(e) => final(self).precedente() == old(self).precedente()
                    && (final(self).etat_capteur() == old(self).etat_capteur()
                        || (final(self).etat_capteur() is Degrade && e is DonneesInvalides)),
            },
            !old(self).etat_capteur().spec_est_utilisable() ==> *final(self) == *old(self)
                && (r matches Err(e) && e matches ErreursAirHaum::CapteurNonInitialise(m)
                    && m@ == texte_non_operationnel(old(self).etat_capteur())),
    {
        if !self.etat.est_utilisable() {
            return Err(ErreursAirHaum::CapteurNonInitialise(message_non_operationnel(&self.etat)));
        }
        let donnees = self.lire_interne()?;
        if !self.verifier_coherence(&donnees) {
            self.etat = EtatCapteur::nouveau_degrade(
                String::from_str("Données hors plages acceptables ou variation anormale"),
            );
            return Err(ErreursAirHaum::DonneesInvalides(message_donnees(&donnees)));
        }
        self.derniere_pression = Some(donnees.pression_pa);
        self.derniere_lecture = Some(donnees.horodatage);
        Ok(donnees)
    }

    fn configurer_frequence(&mut self, frequence_hz: u32) -> (r: Result<()>)
        ensures
            r is Ok,
            *final(self) == *old(self),
    {
        Ok(())
    }

    fn obtenir_etat(&self) -> (e: &EtatCapteur) {
        &self.etat
    }
}


/// Contrôle de cohérence d'une lecture : pression entre 30 000 et 110 000 Pa,
/// température entre -40 et 85 °C et, si une lecture précédente acceptée est
/// antérieure, pression qui n'a pas varié de plus de 500 Pa par seconde
/// depuis, à la hausse comme à la baisse : l'écart absolu `|p - p0|` est
/// comparé à `500 × Δt`. Une lecture sans précédente, ou pas plus récente
/// qu'elle, n'est jugée que sur les plages.
pub proof fn loi_coherence_bmp280(d: DonneesBarometre, precedente: Option<(u32, Horodatage)>)
    ensures
        lecture_coherente(d, precedente) <==> ({
            &&& 30_000 <= d.pression_pa <= 110_000
            &&& -4_000 <= d.temperature_centi <= 8_500
            &&& match precedente {
                Some((p0, h0)) => d.horodatage.micros > h0.micros ==> ({
                    let ecart = d.pression_pa as int - p0 as int;
                    let dt = d.horodatage.micros as int - h0.micros as int;
                    &&& ecart * 1_000_000 <= 500 * dt
                    &&& -ecart * 1_000_000 <= 500 * dt
                }),
                None => true,
            }
        }),
{
}

/// Le contrôle de cohérence est symétrique en l'écart de pression : deux
/// lectures de mêmes température et horodatage, l'une au-dessus, l'autre
/// au-dessous de la pression précédente du même écart, sont acceptées ou
/// rejetées ensemble.
pub proof fn loi_coherence_symetrique(d1: DonneesBarometre, d2: DonneesBarometre, p0: u32, h0: Horodatage)
    requires
        d1.horodatage == d2.horodatage,
        d1.temperature_centi == d2.temperature_centi,
        d1.pression_pa as int - p0 as int == p0 as int - d2.pression_pa as int,
        30_000 <= d1.pression_pa <= 110_000,
        30_000 <= d2.pression_pa <= 110_000,
    ensures
        lecture_coherente(d1, Some((p0, h0))) == lecture_coherente(d2, Some((p0, h0))),
{
    loi_coherence_bmp280(d1, Some((p0, h0)));
    loi_coherence_bmp280(d2, Some((p0, h0)));
}

} // verus!

//! Driver du télémètre laser à temps de vol VL53L0X.
use vstd::prelude::*;
use crate::hal::i2c::{BusI2c, registre_lu, u16_le};
use crate::interfaces::telemetre::Telemetre;
use crate::types::{
    ErreursAirHaum, EtatCapteur, Horodatage, Result, DISTANCE_MAX_VL53L0X_MM, TIMEOUT_INIT_VL53L0X_MS,
    instant_maintenant, micros_ecoulees,
};
use crate::systeme::texte::{chiffres, ecrire_decimal};

verus! {

/// Message d'une mesure refusée faute d'état utilisable.
pub open spec fn texte_non_operationnel(etat: EtatCapteur) -> Seq<char> {
    "VL53L0X non opérationnel (état: "@ + etat.spec_texte() + ")"@
}

fn message_non_operationnel(etat: &EtatCapteur) -> (s: String)
    ensures
        s@ == texte_non_operationnel(*etat),
{
    let t = etat.texte();
    let mut s = String::from_str("VL53L0X non opérationnel (état: ");
    s.append(t.as_str());
    s.append(")");
    s
}

/// `contexte` suivi d'une distance en millimètres (`…1234mm`).
fn message_mm(contexte: &str, distance: u16) -> (s: String)
    ensures
        s@ == contexte@ + chiffres(distance as nat) + "mm"@,
{
    let mut s = String::from_str(contexte);
    ecrire_decimal(distance as u64, &mut s);
    s.append("mm");
    s
}

/// Statut d'interruption signalant une mesure ou une calibration terminée
/// (bits 2..0 non tous nuls).
pub fn mesure_disponible(statut: u8) -> (r: bool)
    ensures
        r == (statut & 0x07 != 0),
{
    (statut & 0x07) != 0
}

/// Adresse I²C par défaut du VL53L0X.
pub const ADRESSE_VL53L0X: u8 = 0x29;

/// Registre de démarrage des mesures.
pub const SYSRANGE_START: u8 = 0x00;
/// Configuration des étapes de séquence.
pub const SYSTEM_SEQUENCE_CONFIG: u8 = 0x01;
/// Configuration de l'interruption GPIO.
pub const SYSTEM_INTERRUPT_CONFIG_GPIO: u8 = 0x0A;
/// Acquittement de l'interruption.
pub const SYSTEM_INTERRUPT_CLEAR: u8 = 0x0B;
/// Statut d'interruption (bits 2..0 : mesure prête).
pub const RESULT_INTERRUPT_STATUS: u8 = 0x13;
/// Statut de mesure ; la distance est aux registres +10 et +11.
pub const RESULT_RANGE_STATUS: u8 = 0x14;
/// Identifiant du modèle (0xEE attendu).
pub const IDENTIFICATION_MODEL_ID: u8 = 0xC0;
/// Sélection de la tension des E/S.
pub const VHV_CONFIG_PAD_SCL_SDA_EXTSUP_HV: u8 = 0x89;
/// Contrôle MSRC.
pub const MSRC_CONFIG_CONTROL: u8 = 0x60;
/// Limite de taux de signal de la mesure finale.
pub const FINAL_RANGE_CONFIG_MIN_COUNT_RATE_RTN_LIMIT: u8 = 0x44;

/// Écritures de registres (adresse, [registre, valeur]) correspondant à `regs`.
pub open spec fn ecritures_de(adresse: u8, regs: Seq<(u8, u8)>) -> Seq<(u8, Seq<u8>)> {
    Seq::new(regs.len(), |i: int| (adresse, seq![regs[i].0, regs[i].1]))
}

/// `apres` prolonge `avant` par un préfixe de `ajout`.
pub open spec fn prolonge_par_prefixe(apres: Seq<(u8, Seq<u8>)>, avant: Seq<(u8, Seq<u8>)>, ajout: Seq<(u8, Seq<u8>)>) -> bool {
    exists|k: int| 0 <= k <= ajout.len() && apres == avant + ajout.take(k)
}

/// Réglages propriétaires ST de l'initialisation statique.
pub open spec fn reglages_statiques() -> Seq<(u8, u8)> {
    seq![
        (0xFFu8, 0x01u8),
        (0x00u8, 0x00u8),
        (0xFFu8, 0x00u8),
        (0x09u8, 0x00u8),
        (0x10u8, 0x00u8),
        (0x11u8, 0x00u8),
        (0x24u8, 0x01u8),
        (0x25u8, 0xFFu8),
        (0x75u8, 0x00u8),
        (0xFFu8, 0x01u8),
        (0x4Eu8, 0x2Cu8),
        (0x48u8, 0x00u8),
        (0x30u8, 0x20u8),
        (0xFFu8, 0x00u8),
        (0x30u8, 0x09u8),
        (0x54u8, 0x00u8),
        (0x31u8, 0x04u8),
        (0x32u8, 0x03u8),
        (0x40u8, 0x83u8),
        (0x46u8, 0x25u8),
        (0x60u8, 0x00u8),
        (0x27u8, 0x00u8),
        (0x50u8, 0x06u8),
        (0x51u8, 0x00u8),
        (0x52u8, 0x96u8),
        (0x56u8, 0x08u8),
        (0x57u8, 0x30u8),
        (0x61u8, 0x00u8),
        (0x62u8, 0x00u8),
        (0x64u8, 0x00u8),
        (0x65u8, 0x00u8),
        (0x66u8, 0xA0u8),
        (0xFFu8, 0x01u8),
        (0x22u8, 0x32u8),
        (0x47u8, 0x14u8),
        (0x49u8, 0xFFu8),
        (0x4Au8, 0x00u8),
        (0xFFu8, 0x00u8),
        (0x7Au8, 0x0Au8),
        (0x7Bu8, 0x00u8),
        (0x78u8, 0x21u8),
        (0xFFu8, 0x01u8),
        (0x23u8, 0x34u8),
        (0x42u8, 0x00u8),
        (0x44u8, 0xFFu8),
        (0x45u8, 0x26u8),
        (0x46u8, 0x05u8),
        (0x40u8, 0x40u8),
        (0x0Eu8, 0x06u8),
        (0x20u8, 0x1Au8),
        (0x43u8, 0x40u8),
        (0xFFu8, 0x00u8),
        (0x34u8, 0x03u8),
        (0x35u8, 0x44u8),
        (0xFFu8, 0x01u8),
        (0x31u8, 0x04u8),
        (0x4Bu8, 0x09u8),
        (0x4Cu8, 0x05u8),
        (0x4Du8, 0x04u8),
        (0xFFu8, 0x00u8),
        (0x44u8, 0x00u8),
        (0x45u8, 0x20u8),
        (0x47u8, 0x08u8),
        (0x48u8, 0x28u8),
        (0x67u8, 0x00u8),
        (0x70u8, 0x04u8),
        (0x71u8, 0x01u8),
        (0x72u8, 0xFEu8),
        (0x76u8, 0x00u8),
        (0x77u8, 0x00u8),
        (0xFFu8, 0x01u8),
        (0x0Du8, 0x01u8),
        (0xFFu8, 0x00u8),
        (0x80u8, 0x01u8),
        (0x01u8, 0xF8u8),
        (0xFFu8, 0x01u8),
        (0x8Eu8, 0x01u8),
        (0x00u8, 0x01u8),
        (0xFFu8, 0x00u8),
        (0x80u8, 0x00u8)
    ]
}

/// Réglages de l'initialisation des données ; `vhv`, `gpio` et `msrc` sont les
/// valeurs lues avant modification, `stop` la variable d'arrêt lue.
pub open spec fn reglages_data_init(vhv: u8, gpio: u8, msrc: u8) -> Seq<(u8, u8)> {
    seq![
        (VHV_CONFIG_PAD_SCL_SDA_EXTSUP_HV, vhv | 0x01),
        (0x88u8, 0x00u8), (0x80u8, 0x01u8), (0xFFu8, 0x01u8), (0x00u8, 0x00u8),
        (0x00u8, 0x01u8), (0xFFu8, 0x00u8), (0x80u8, 0x00u8),
        (SYSTEM_INTERRUPT_CONFIG_GPIO, 0x04u8),
        (0x84u8, gpio & 0xEF),
        (SYSTEM_INTERRUPT_CLEAR, 0x01u8),
        (MSRC_CONFIG_CONTROL, msrc | 0x12),
        (FINAL_RANGE_CONFIG_MIN_COUNT_RATE_RTN_LIMIT, 0x00u8),
        (0x45u8, 0x32u8),
        (SYSTEM_SEQUENCE_CONFIG, 0xFFu8),
    ]
}

/// Séquence de démarrage d'une mesure single-shot.
pub open spec fn reglages_demarrage(stop: u8) -> Seq<(u8, u8)> {
    seq![
        (0x80u8, 0x01u8), (0xFFu8, 0x01u8), (0x00u8, 0x00u8), (0x91u8, stop),
        (0x00u8, 0x01u8), (0xFFu8, 0x00u8), (0x80u8, 0x00u8),
        (SYSRANGE_START, 0x01u8),
    ]
}

/// Dernière valeur écrite dans le registre `g` par la suite `regs` de
/// couples (registre, valeur) ; `None` si aucun couple ne le vise.
pub open spec fn derniere_valeur(regs: Seq<(u8, u8)>, g: u8) -> Option<u8>
    decreases regs.len(),
{
    if regs.len() == 0 {
        None
    } else if regs.last().0 == g {
        Some(regs.last().1)
    } else {
        derniere_valeur(regs.drop_last(), g)
    }
}

/// Le statut d'interruption relu sur le bus signale une mesure disponible.
pub open spec fn statut_pret<B: BusI2c>(bus: B, a: u8) -> bool {
    registre_lu(bus, a, RESULT_INTERRUPT_STATUS) matches Some(st) && st & 0x07 != 0
}

/// Sur le bus relu : mesure disponible, registres de distance présents.
pub open spec fn mesure_prete<B: BusI2c>(bus: B, a: u8) -> bool {
    &&& statut_pret(bus, a)
    &&& registre_lu(bus, a, 0x1Eu8) is Some
    &&& registre_lu(bus, a, 0x1Fu8) is Some
}

/// Distance lue sur un bus-mémoire : octet de poids faible en 0x1F, de poids fort en 0x1E.
pub open spec fn distance_relue<B: BusI2c>(bus: B, a: u8) -> u16 {
    u16_le(bus.reponse(a, seq![0x1Fu8], 1)[0], bus.reponse(a, seq![0x1Eu8], 1)[0])
}

/// Valeur relue du registre `g` du périphérique `b` après l'écriture, sur le
/// périphérique `a`, de la suite `regs`, depuis un bus dont la relecture est `avant`.
pub open spec fn relu_apres(avant: Option<u8>, a: u8, regs: Seq<(u8, u8)>, b: u8, g: u8) -> Option<u8> {
    if b == a && derniere_valeur(regs, g) is Some { derniere_valeur(regs, g) } else { avant }
}

/// Écritures d'une initialisation rapide (capteur déjà configuré) : données
/// puis réglages statiques.
pub open spec fn ecritures_init_rapide(a: u8, vhv: u8, gpio: u8, msrc: u8) -> Seq<(u8, Seq<u8>)> {
    ecritures_de(a, reglages_data_init(vhv, gpio, msrc) + reglages_statiques())
}

/// Écritures d'une initialisation complète : données, réglages statiques,
/// calibration de référence, puis une mesure de validation (démarrage avec la
/// variable d'arrêt `stop`, acquittement de l'interruption).
pub open spec fn ecritures_init_complete(a: u8, vhv: u8, gpio: u8, msrc: u8, stop: u8) -> Seq<(u8, Seq<u8>)> {
    ecritures_de(a, reglages_data_init(vhv, gpio, msrc) + reglages_statiques() + reglages_calibration()
        + reglages_demarrage(stop)) + seq![(a, seq![SYSTEM_INTERRUPT_CLEAR, 0x01u8])]
}

/// Écritures de la calibration de référence (VHV puis phase).
pub open spec fn reglages_calibration() -> Seq<(u8, u8)> {
    seq![
        (SYSTEM_SEQUENCE_CONFIG, 0x01u8), (SYSRANGE_START, 0x41u8),
        (SYSTEM_INTERRUPT_CLEAR, 0x01u8), (SYSRANGE_START, 0x00u8),
        (SYSTEM_SEQUENCE_CONFIG, 0x02u8), (SYSRANGE_START, 0x01u8),
        (SYSTEM_INTERRUPT_CLEAR, 0x01u8), (SYSRANGE_START, 0x00u8),
        (SYSTEM_SEQUENCE_CONFIG, 0xE8u8),
    ]
}

/// Une distance est cohérente si elle est non nulle et varie d'au plus
/// 1000 mm depuis la mesure précédente.
pub open spec fn distance_coherente(derniere: Option<u16>, distance: u16) -> bool {
    distance != 0 && match derniere {
        Some(p) => -1000 <= distance as int - p as int <= 1000,
        None => true,
    }
}

pub(crate) proof fn lemme_ecritures_concat(a: u8, r1: Seq<(u8, u8)>, r2: Seq<(u8, u8)>)
    ensures
        ecritures_de(a, r1 + r2) == ecritures_de(a, r1) + ecritures_de(a, r2),
{
    assert(ecritures_de(a, r1 + r2) =~= ecritures_de(a, r1) + ecritures_de(a, r2));
}

fn table_reglages_statiques() -> (v: Vec<(u8, u8)>)
    ensures
        v@ == reglages_statiques(),
{
    let v = vec![
        (0xFFu8, 0x01u8),
        (0x00u8, 0x00u8),
        (0xFFu8, 0x00u8),
        (0x09u8, 0x00u8),
        (0x10u8, 0x00u8),
        (0x11u8, 0x00u8),
        (0x24u8, 0x01u8),
        (0x25u8, 0xFFu8),
        (0x75u8, 0x00u8),
        (0xFFu8, 0x01u8),
        (0x4Eu8, 0x2Cu8),
        (0x48u8, 0x00u8),
        (0x30u8, 0x20u8),
        (0xFFu8, 0x00u8),
        (0x30u8, 0x09u8),
        (0x54u8, 0x00u8),
        (0x31u8, 0x04u8),
        (0x32u8, 0x03u8),
        (0x40u8, 0x83u8),
        (0x46u8, 0x25u8),
        (0x60u8, 0x00u8),
        (0x27u8, 0x00u8),
        (0x50u8, 0x06u8),
        (0x51u8, 0x00u8),
        (0x52u8, 0x96u8),
        (0x56u8, 0x08u8),
        (0x57u8, 0x30u8),
        (0x61u8, 0x00u8),
        (0x62u8, 0x00u8),
        (0x64u8, 0x00u8),
        (0x65u8, 0x00u8),
        (0x66u8, 0xA0u8),
        (0xFFu8, 0x01u8),
        (0x22u8, 0x32u8),
        (0x47u8, 0x14u8),
        (0x49u8, 0xFFu8),
        (0x4Au8, 0x00u8),
        (0xFFu8, 0x00u8),
        (0x7Au8, 0x0Au8),
        (0x7Bu8, 0x00u8),
        (0x78u8, 0x21u8),
        (0xFFu8, 0x01u8),
        (0x23u8, 0x34u8),
        (0x42u8, 0x00u8),
        (0x44u8, 0xFFu8),
        (0x45u8, 0x26u8),
        (0x46u8, 0x05u8),
        (0x40u8, 0x40u8),
        (0x0Eu8, 0x06u8),
        (0x20u8, 0x1Au8),
        (0x43u8, 0x40u8),
        (0xFFu8, 0x00u8),
        (0x34u8, 0x03u8),
        (0x35u8, 0x44u8),
        (0xFFu8, 0x01u8),
        (0x31u8, 0x04u8),
        (0x4Bu8, 0x09u8),
        (0x4Cu8, 0x05u8),
        (0x4Du8, 0x04u8),
        (0xFFu8, 0x00u8),
        (0x44u8, 0x00u8),
        (0x45u8, 0x20u8),
        (0x47u8, 0x08u8),
        (0x48u8, 0x28u8),
        (0x67u8, 0x00u8),
        (0x70u8, 0x04u8),
        (0x71u8, 0x01u8),
        (0x72u8, 0xFEu8),
        (0x76u8, 0x00u8),
        (0x77u8, 0x00u8),
        (0xFFu8, 0x01u8),
        (0x0Du8, 0x01u8),
        (0xFFu8, 0x00u8),
        (0x80u8, 0x01u8),
        (0x01u8, 0xF8u8),
        (0xFFu8, 0x01u8),
        (0x8Eu8, 0x01u8),
        (0x00u8, 0x01u8),
        (0xFFu8, 0x00u8),
        (0x80u8, 0x00u8)
    ];
    assert(v@ =~= reglages_statiques());
    v
}

/// Driver du VL53L0X sur un bus I²C.
pub struct Vl53l0x<I2C: BusI2c> {
    i2c: I2C,
    adresse: u8,
    timeout_ms: u16,
    budget_temps_mesure_us: u32,
    etat: EtatCapteur,
    derniere_distance: Option<u16>,
    derniere_lecture: Option<Horodatage>,
    stop_variable: u8,
}

impl<I2C: BusI2c> Vl53l0x<I2C> {
    /// Bus I²C du capteur.
    pub closed spec fn bus(&self) -> I2C {
        self.i2c
    }

    /// Adresse I²C du capteur.
    pub closed spec fn adresse(&self) -> u8 {
        self.adresse
    }

    /// Délai d'attente d'une mesure (ms).
    pub closed spec fn timeout(&self) -> u16 {
        self.timeout_ms
    }

    /// Budget de temps de mesure (µs).
    pub closed spec fn budget(&self) -> u32 {
        self.budget_temps_mesure_us
    }

    /// Dernière distance acceptée.
    pub closed spec fn derniere(&self) -> Option<u16> {
        self.derniere_distance
    }

    /// Variable d'arrêt lue pendant l'initialisation.
    pub closed spec fn stop(&self) -> u8 {
        self.stop_variable
    }

    /// État du capteur.
    pub closed spec fn etat(&self) -> EtatCapteur {
        self.etat
    }

    /// Driver non initialisé sur le bus et l'adresse donnés.
    pub fn nouveau(i2c: I2C, adresse: u8) -> (d: Self)
        ensures
            d.bus() == i2c,
            d.adresse() == adresse,
            d.timeout() == 500,
            d.budget() == 33000,
            d.etat() == EtatCapteur::Inconnu,
            d.derniere() is None,
            d.stop() == 0,
    {
        Vl53l0x {
            i2c,
            adresse,
            timeout_ms: 500,
            budget_temps_mesure_us: 33000,
            etat: EtatCapteur::Inconnu,
            derniere_distance: None,
            derniere_lecture: None,
            stop_variable: 0,
        }
    }

    /// Bus du driver.
    pub fn i2c(&self) -> (b: &I2C)
        ensures
            *b == self.bus(),
    {
        &self.i2c
    }

    /// Écrit un registre 8 bits.
    fn ecrire_u8(&mut self, registre: u8, valeur: u8) -> (r: Result<()>)
        ensures
            r matches Err(e) ==> e is ErreurI2C,
            old(self).bus().en_service() ==> r is Ok && final(self).bus().en_service(),
            r is Ok <==> old(self).bus().ecriture_acceptee(old(self).adresse(), seq![registre, valeur]),
            r is Ok ==> final(self).bus().ecritures() == old(self).bus().ecritures().push((old(self).adresse(), seq![registre, valeur])),
            r is Err ==> final(self).bus().ecritures() == old(self).bus().ecritures(),
            I2C::registres_memoire() && r is Ok ==> forall|b: u8, g: u8| #[trigger] registre_lu(final(self).bus(), b, g)
                == (if b == old(self).adresse() && g == registre { Some(valeur) } else { registre_lu(old(self).bus(), b, g) }),
            final(self).adresse() == old(self).adresse(),
            final(self).etat() == old(self).etat(),
            final(self).stop() == old(self).stop(),
            final(self).derniere() == old(self).derniere(),
            final(self).timeout() == old(self).timeout(),
    {
        let donnees = [registre, valeur];
        assert(donnees@ == seq![registre, valeur]);
        self.i2c.ecrire(self.adresse, &donnees)
    }

    /// Lit un registre 8 bits.
    fn lire_u8(&mut self, registre: u8) -> (r: Result<u8>)
        ensures
            r matches Err(e) ==> e is ErreurI2C,
            old(self).bus().en_service() ==> final(self).bus().en_service(),
            r is Ok <==> old(self).bus().lecture_acceptee(old(self).adresse(), seq![registre], 1),
            I2C::registres_memoire() ==> final(self).bus() == old(self).bus(),
            final(self).bus().ecritures() == old(self).bus().ecritures(),
            r matches Ok(v) ==> v == old(self).bus().reponse(old(self).adresse(), seq![registre], 1)[0],
            final(self).adresse() == old(self).adresse(),
            final(self).etat() == old(self).etat(),
            final(self).stop() == old(self).stop(),
            final(self).derniere() == old(self).derniere(),
            final(self).timeout() == old(self).timeout(),
    {
        self.i2c.lire_registre_u8(self.adresse, registre)
    }

    /// Lit un registre 16 bits gros-boutiste.
    fn lire_u16_be(&mut self, registre: u8) -> (r: Result<u16>)
        ensures
            r is Ok <==> old(self).bus().lecture_acceptee(old(self).adresse(), seq![registre], 2),
            final(self).bus().ecritures() == old(self).bus().ecritures(),
            r matches Ok(v) ==> ({
                let o = old(self).bus().reponse(old(self).adresse(), seq![registre], 2);
                v == crate::hal::i2c::u16_be(o[0], o[1])
            }),
    {
        self.i2c.lire_registre_u16_be(self.adresse, registre)
    }

    /// Écrit une suite de registres dans l'ordre ; s'arrête à la première erreur.
    fn ecrire_sequence(&mut self, regs: &Vec<(u8, u8)>) -> (r: Result<()>)
        ensures
            r is Ok ==> final(self).bus().ecritures() == old(self).bus().ecritures() + ecritures_de(old(self).adresse(), regs@),
            r is Err ==> prolonge_par_prefixe(final(self).bus().ecritures(), old(self).bus().ecritures(),
                ecritures_de(old(self).adresse(), regs@)),
            old(self).bus().en_service() ==> r is Ok && final(self).bus().en_service(),
            I2C::registres_memoire() && r is Ok ==> forall|b: u8, g: u8| #[trigger] registre_lu(final(self).bus(), b, g)
                == relu_apres(registre_lu(old(self).bus(), b, g), old(self).adresse(), regs@, b, g),
            final(self).adresse() == old(self).adresse(),
            final(self).etat() == old(self).etat(),
            final(self).stop() == old(self).stop(),
            final(self).derniere() == old(self).derniere(),
            final(self).timeout() == old(self).timeout(),
    {
        let ghost e0 = self.i2c.ecritures();
        let ghost ajout = ecritures_de(self.adresse, regs@);
        let mut i: usize = 0;
        while i < regs.len()
            invariant
                0 <= i <= regs@.len(),
                ajout == ecritures_de(old(self).adresse(), regs@),
                e0 == old(self).bus().ecritures(),
                self.i2c.ecritures() == e0 + ajout.take(i as int),
                old(self).i2c.en_service() ==> self.i2c.en_service(),
                I2C::registres_memoire() ==> forall|b: u8, g: u8| #[trigger] registre_lu(self.i2c, b, g)
                    == relu_apres(registre_lu(old(self).i2c, b, g), old(self).adresse, regs@.take(i as int), b, g),
                self.adresse == old(self).adresse,
                self.etat == old(self).etat,
                self.stop_variable == old(self).stop_variable,
                self.derniere_distance == old(self).derniere_distance,
                self.timeout_ms == old(self).timeout_ms,
            decreases regs@.len() - i,
        {
            let (registre, valeur) = regs[i];
            match self.ecrire_u8(registre, valeur) {
                Ok(()) => {},
                Err(e) => {
                    assert(self.i2c.ecritures() == e0 + ajout.take(i as int));
                    return Err(e);
                },
            }
            assert(ajout.take(i + 1) =~= ajout.take(i as int).push(ajout[i as int]));
            assert(regs@.take(i + 1).drop_last() == regs@.take(i as int));
            assert(regs@.take(i + 1).last() == (registre, valeur));
            i = i + 1;
        }
        assert(ajout.take(regs@.len() as int) =~= ajout);
        assert(regs@.take(regs@.len() as int) == regs@);
        Ok(())
    }

    /// Vérifie l'identité du capteur (identifiant de modèle 0xEE).
    pub fn verifier_identite(&mut self) -> (r: Result<bool>)
        ensures
            r is Ok <==> old(self).bus().lecture_acceptee(old(self).adresse(), seq![IDENTIFICATION_MODEL_ID], 1),
            final(self).bus().ecritures() == old(self).bus().ecritures(),
            r matches Ok(b) ==> b == (old(self).bus().reponse(old(self).adresse(), seq![IDENTIFICATION_MODEL_ID], 1)[0] == 0xEE),
            final(self).adresse() == old(self).adresse(),
            final(self).etat() == old(self).etat(),
            final(self).stop() == old(self).stop(),
            final(self).derniere() == old(self).derniere(),
            final(self).timeout() == old(self).timeout(),
    {
        let model_id = self.lire_u8(IDENTIFICATION_MODEL_ID)?;
        Ok(model_id == 0xEE)
    }

    /// Initialisation des données : mode 2V8, lecture de la variable d'arrêt,
    /// interruption « nouvelle mesure », désactivation des contrôles MSRC et
    /// pré-mesure, limite de taux de signal, toutes les étapes de séquence.
    fn data_init(&mut self) -> (r: Result<()>)
        ensures
            r is Ok ==> exists|vhv: u8, gpio: u8, msrc: u8|
                final(self).bus().ecritures() == old(self).bus().ecritures()
                    + ecritures_de(old(self).adresse(), #[trigger] reglages_data_init(vhv, gpio, msrc)),
            final(self).adresse() == old(self).adresse(),
            final(self).etat() == old(self).etat(),
            final(self).derniere() == old(self).derniere(),
            final(self).timeout() == old(self).timeout(),
    {
        let ghost e0 = self.i2c.ecritures();
        let a = self.adresse;
        let vhv = self.lire_u8(VHV_CONFIG_PAD_SCL_SDA_EXTSUP_HV)?;
        let p1 = vec![
            (VHV_CONFIG_PAD_SCL_SDA_EXTSUP_HV, vhv | 0x01),
            (0x88u8, 0x00u8), (0x80u8, 0x01u8), (0xFFu8, 0x01u8), (0x00u8, 0x00u8),
        ];
        self.ecrire_sequence(&p1)?;
        self.stop_variable = self.lire_u8(0x91)?;
        let p2 = vec![(0x00u8, 0x01u8), (0xFFu8, 0x00u8), (0x80u8, 0x00u8), (SYSTEM_INTERRUPT_CONFIG_GPIO, 0x04u8)];
        self.ecrire_sequence(&p2)?;
        let gpio = self.lire_u8(0x84)?;
        let p3 = vec![(0x84u8, gpio & 0xEF), (SYSTEM_INTERRUPT_CLEAR, 0x01u8)];
        self.ecrire_sequence(&p3)?;
        let msrc = self.lire_u8(MSRC_CONFIG_CONTROL)?;
        let p4 = vec![
            (MSRC_CONFIG_CONTROL, msrc | 0x12),
            (FINAL_RANGE_CONFIG_MIN_COUNT_RATE_RTN_LIMIT, 0x00u8),
            (0x45u8, 0x32u8),
            (SYSTEM_SEQUENCE_CONFIG, 0xFFu8),
        ];
        self.ecrire_sequence(&p4)?;
        proof {
            assert(reglages_data_init(vhv, gpio, msrc) =~= p1@ + p2@ + p3@ + p4@);
            lemme_ecritures_concat(a, p1@, p2@);
            lemme_ecritures_concat(a, p1@ + p2@, p3@);
            lemme_ecritures_concat(a, p1@ + p2@ + p3@, p4@);
            assert(self.i2c.ecritures() =~= e0 + ecritures_de(a, reglages_data_init(vhv, gpio, msrc)));
        }
        Ok(())
    }

    /// Initialisation statique : réglages propriétaires ST.
    fn static_init(&mut self) -> (r: Result<()>)
        ensures
            r is Ok ==> final(self).bus().ecritures() == old(self).bus().ecritures()
                + ecritures_de(old(self).adresse(), reglages_statiques()),
            r is Err ==> prolonge_par_prefixe(final(self).bus().ecritures(), old(self).bus().ecritures(),
                ecritures_de(old(self).adresse(), reglages_statiques())),
            final(self).adresse() == old(self).adresse(),
            final(self).etat() == old(self).etat(),
            final(self).stop() == old(self).stop(),
            final(self).derniere() == old(self).derniere(),
            final(self).timeout() == old(self).timeout(),
    {
        let table = table_reglages_statiques();
        self.ecrire_sequence(&table)
    }

    /// Attend (au plus 51 lectures espacées de 10 ms) que le statut
    /// d'interruption signale la fin d'une calibration.
    fn attendre_fin_calibration(&mut self) -> (r: Result<()>)
        ensures
            final(self).bus().ecritures() == old(self).bus().ecritures(),
            r matches Err(e) ==> e is ErreurCommunication || e is ErreurI2C,
            final(self).adresse() == old(self).adresse(),
            final(self).etat() == old(self).etat(),
            final(self).stop() == old(self).stop(),
            final(self).derniere() == old(self).derniere(),
            final(self).timeout() == old(self).timeout(),
    {
        let mut attente_ms: u32 = 0;
        loop
            invariant
                attente_ms <= 500,
                self.i2c.ecritures() == old(self).bus().ecritures(),
                self.adresse == old(self).adresse,
                self.etat == old(self).etat,
                self.stop_variable == old(self).stop_variable,
                self.derniere_distance == old(self).derniere_distance,
                self.timeout_ms == old(self).timeout_ms,
            decreases 510 - attente_ms,
        {
            self.i2c.pause_ms(10);
            let val = match self.lire_u8(RESULT_INTERRUPT_STATUS) {
                Ok(v) => v,
                Err(e) => {
                    return Err(e);
                },
            };
            if mesure_disponible(val) {
                return Ok(());
            }
            attente_ms = attente_ms + 10;
            if attente_ms > 500 {
                return Err(ErreursAirHaum::ErreurCommunication(String::from_str("VL53L0X: Timeout calibration")));
            }
        }
    }

    /// Calibration de référence (VHV puis phase).
    fn perform_ref_calibration(&mut self) -> (r: Result<()>)
        ensures
            r is Ok ==> final(self).bus().ecritures() == old(self).bus().ecritures()
                + ecritures_de(old(self).adresse(), reglages_calibration()),
            final(self).adresse() == old(self).adresse(),
            final(self).etat() == old(self).etat(),
            final(self).stop() == old(self).stop(),
            final(self).derniere() == old(self).derniere(),
            final(self).timeout() == old(self).timeout(),
    {
        let ghost e0 = self.i2c.ecritures();
        let a = self.adresse;
        let p1 = vec![(SYSTEM_SEQUENCE_CONFIG, 0x01u8), (SYSRANGE_START, 0x41u8)];
        self.ecrire_sequence(&p1)?;
        self.attendre_fin_calibration()?;
        let p2 = vec![
            (SYSTEM_INTERRUPT_CLEAR, 0x01u8), (SYSRANGE_START, 0x00u8),
            (SYSTEM_SEQUENCE_CONFIG, 0x02u8), (SYSRANGE_START, 0x01u8),
        ];
        self.ecrire_sequence(&p2)?;
        self.attendre_fin_calibration()?;
        let p3 = vec![
            (SYSTEM_INTERRUPT_CLEAR, 0x01u8), (SYSRANGE_START, 0x00u8),
            (SYSTEM_SEQUENCE_CONFIG, 0xE8u8),
        ];
        self.ecrire_sequence(&p3)?;
        proof {
            assert(reglages_calibration() =~= p1@ + p2@ + p3@);
            lemme_ecritures_concat(a, p1@, p2@);
            lemme_ecritures_concat(a, p1@ + p2@, p3@);
            assert(self.i2c.ecritures() =~= e0 + ecritures_de(a, reglages_calibration()));
        }
        Ok(())
    }

    /// Démarre une mesure single-shot.
    pub fn demarrer_mesure(&mut self) -> (r: Result<()>)
        ensures
            r is Ok ==> final(self).bus().ecritures() == old(self).bus().ecritures()
                + ecritures_de(old(self).adresse(), reglages_demarrage(old(self).stop())),
            r is Err ==> prolonge_par_prefixe(final(self).bus().ecritures(), old(self).bus().ecritures(),
                ecritures_de(old(self).adresse(), reglages_demarrage(old(self).stop()))),
            I2C::registres_memoire() && r is Ok ==> forall|b: u8, g: u8| #[trigger] registre_lu(final(self).bus(), b, g)
                == relu_apres(registre_lu(old(self).bus(), b, g), old(self).adresse(), reglages_demarrage(old(self).stop()), b, g),
            old(self).bus().en_service() ==> r is Ok && final(self).bus().en_service(),
            final(self).adresse() == old(self).adresse(),
            final(self).etat() == old(self).etat(),
            final(self).stop() == old(self).stop(),
            final(self).derniere() == old(self).derniere(),
            final(self).timeout() == old(self).timeout(),
    {
        let p = vec![
            (0x80u8, 0x01u8), (0xFFu8, 0x01u8), (0x00u8, 0x00u8), (0x91u8, self.stop_variable),
            (0x00u8, 0x01u8), (0xFFu8, 0x00u8), (0x80u8, 0x00u8),
            (SYSRANGE_START, 0x01u8),
        ];
        assert(p@ =~= reglages_demarrage(self.stop_variable));
        self.ecrire_sequence(&p)
    }

    /// Attend qu'une mesure soit disponible (statut d'interruption, bits 2..0),
    /// au plus `timeout` ms en sondant toutes les 10 ms.
    fn attendre_mesure_disponible(&mut self) -> (r: Result<()>)
        ensures
            final(self).bus().ecritures() == old(self).bus().ecritures(),
            I2C::registres_memoire() ==> final(self).bus() == old(self).bus(),
            old(self).bus().en_service() ==> final(self).bus().en_service(),
            r matches Err(e) ==> e is ErreurI2C || e is ErreurCommunication,
            I2C::registres_memoire() && statut_pret(old(self).bus(), old(self).adresse()) ==> r is Ok,
            final(self).adresse() == old(self).adresse(),
            final(self).etat() == old(self).etat(),
            final(self).stop() == old(self).stop(),
            final(self).derniere() == old(self).derniere(),
            final(self).timeout() == old(self).timeout(),
    {
        let debut = instant_maintenant();
        let limite_us: u64 = self.timeout_ms as u64 * 1000;
        let sondages_max: u32 = self.timeout_ms as u32 / 10 + 1;
        let mut k: u32 = 0;
        while k < sondages_max
            invariant
                self.i2c.ecritures() == old(self).bus().ecritures(),
                I2C::registres_memoire() ==> self.i2c == old(self).i2c,
                I2C::registres_memoire() && statut_pret(old(self).i2c, old(self).adresse) ==> k == 0,
                old(self).i2c.en_service() ==> self.i2c.en_service(),
                sondages_max >= 1,
                self.adresse == old(self).adresse,
                self.etat == old(self).etat,
                self.stop_variable == old(self).stop_variable,
                self.derniere_distance == old(self).derniere_distance,
                self.timeout_ms == old(self).timeout_ms,
            ensures
                !(I2C::registres_memoire() && statut_pret(old(self).i2c, old(self).adresse)),
            decreases sondages_max - k,
        {
            let status = self.lire_u8(RESULT_INTERRUPT_STATUS)?;
            if mesure_disponible(status) {
                return Ok(());
            }
            if micros_ecoulees(&debut) > limite_us {
                break;
            }
            self.i2c.pause_ms(10);
            k = k + 1;
        }
        Err(ErreursAirHaum::ErreurCommunication(String::from_str("VL53L0X: Timeout mesure")))
    }

    /// Lit la distance (octet de poids fort en 0x1E, de poids faible en 0x1F,
    /// lu après le premier) puis acquitte l'interruption.
    fn lire_distance(&mut self) -> (r: Result<u16>)
        ensures
            r is Ok ==> final(self).bus().ecritures() == old(self).bus().ecritures()
                .push((old(self).adresse(), seq![SYSTEM_INTERRUPT_CLEAR, 0x01u8])),
            r matches Ok(d) ==> exists|b: I2C| b.ecritures() == old(self).bus().ecritures()
                && #[trigger] b.lecture_acceptee(old(self).adresse(), seq![0x1Fu8], 1)
                && d == u16_le(b.reponse(old(self).adresse(), seq![0x1Fu8], 1)[0],
                    old(self).bus().reponse(old(self).adresse(), seq![0x1Eu8], 1)[0]),
            I2C::registres_memoire() ==> (r matches Ok(d) ==> d == distance_relue(old(self).bus(), old(self).adresse())
                && registre_lu(old(self).bus(), old(self).adresse(), 0x1Eu8) is Some
                && registre_lu(old(self).bus(), old(self).adresse(), 0x1Fu8) is Some),
            old(self).bus().en_service() ==> final(self).bus().en_service(),
            I2C::registres_memoire() && old(self).bus().en_service()
                && registre_lu(old(self).bus(), old(self).adresse(), 0x1Eu8) is Some
                && registre_lu(old(self).bus(), old(self).adresse(), 0x1Fu8) is Some ==> r is Ok,
            I2C::registres_memoire() && r is Ok ==> forall|b: u8, g: u8| #[trigger] registre_lu(final(self).bus(), b, g)
                == (if b == old(self).adresse() && g == SYSTEM_INTERRUPT_CLEAR { Some(0x01u8) } else { registre_lu(old(self).bus(), b, g) }),
            final(self).adresse() == old(self).adresse(),
            final(self).etat() == old(self).etat(),
            final(self).stop() == old(self).stop(),
            final(self).derniere() == old(self).derniere(),
            final(self).timeout() == old(self).timeout(),
    {
        let haut = self.lire_u8(RESULT_RANGE_STATUS + 10)?;
        let ghost b1 = self.i2c;
        let bas = self.lire_u8(RESULT_RANGE_STATUS + 11)?;
        let distance = crate::hal::i2c::assembler_u16_le(bas, haut);
        self.ecrire_u8(SYSTEM_INTERRUPT_CLEAR, 0x01)?;
        Ok(distance)
    }

    /// Mesure complète : démarrage, attente, lecture.
    pub fn mesure_simple(&mut self) -> (r: Result<u16>)
        ensures
            I2C::registres_memoire() ==> (r matches Ok(d) ==> d == distance_relue(old(self).bus(), old(self).adresse())),
            I2C::registres_memoire() && old(self).bus().en_service() && mesure_prete(old(self).bus(), old(self).adresse())
                ==> r is Ok,
            I2C::registres_memoire() && r is Ok
                ==> registre_lu(final(self).bus(), old(self).adresse(), SYSTEM_INTERRUPT_CLEAR) == Some(0x01u8),
            old(self).bus().en_service() ==> final(self).bus().en_service(),
            r is Ok ==> final(self).bus().ecritures() == old(self).bus().ecritures()
                + ecritures_de(old(self).adresse(), reglages_demarrage(old(self).stop()))
                + seq![(old(self).adresse(), seq![SYSTEM_INTERRUPT_CLEAR, 0x01u8])],
            final(self).adresse() == old(self).adresse(),
            final(self).etat() == old(self).etat(),
            final(self).stop() == old(self).stop(),
            final(self).derniere() == old(self).derniere(),
            final(self).timeout() == old(self).timeout(),
    {
        self.demarrer_mesure()?;
        let ghost b_demarre = self.i2c;
        proof {
            if I2C::registres_memoire() {
                let a = old(self).adresse();
                let regs = reglages_demarrage(old(self).stop());
                reveal_with_fuel(derniere_valeur, 9);
                assert(derniere_valeur(regs, RESULT_INTERRUPT_STATUS) is None);
                assert(derniere_valeur(regs, 0x1Eu8) is None);
                assert(derniere_valeur(regs, 0x1Fu8) is None);
                assert(registre_lu(b_demarre, a, RESULT_INTERRUPT_STATUS) == registre_lu(old(self).bus(), a, RESULT_INTERRUPT_STATUS));
                assert(registre_lu(b_demarre, a, 0x1Eu8) == registre_lu(old(self).bus(), a, 0x1Eu8));
                assert(registre_lu(b_demarre, a, 0x1Fu8) == registre_lu(old(self).bus(), a, 0x1Fu8));
            }
        }
        self.attendre_mesure_disponible()?;
        let d = self.lire_distance()?;
        proof {
            if I2C::registres_memoire() {
                let a = old(self).adresse();
                let regs = reglages_demarrage(old(self).stop());
                reveal_with_fuel(derniere_valeur, 9);
                assert(derniere_valeur(regs, 0x1Eu8) is None);
                assert(derniere_valeur(regs, 0x1Fu8) is None);
                assert(registre_lu(b_demarre, a, 0x1Eu8) == registre_lu(old(self).bus(), a, 0x1Eu8));
                assert(registre_lu(b_demarre, a, 0x1Fu8) == registre_lu(old(self).bus(), a, 0x1Fu8));
                assert(d == distance_relue(b_demarre, a));
                assert(distance_relue(b_demarre, a) == distance_relue(old(self).bus(), a));
            }
            let a = old(self).adresse();
            let x = seq![(a, seq![SYSTEM_INTERRUPT_CLEAR, 0x01u8])];
            assert(self.i2c.ecritures() =~= old(self).bus().ecritures()
                + ecritures_de(a, reglages_demarrage(old(self).stop())) + x);
        }
        Ok(d)
    }

    /// Configure le budget de temps de mesure (µs).
    pub fn definir_budget_temps_mesure(&mut self, budget_us: u32) -> (r: Result<()>)
        ensures
            r is Ok,
            final(self).budget() == budget_us,
            final(self).bus() == old(self).bus(),
            final(self).etat() == old(self).etat(),
    {
        self.budget_temps_mesure_us = budget_us;
        Ok(())
    }

    /// Cohérence d'une distance avec la dernière mesure acceptée.
    pub fn verifier_coherence_distance(&self, distance: u16) -> (r: bool)
        ensures
            r == distance_coherente(self.derniere(), distance),
    {
        if distance == 0 {
            return false;
        }
        match self.derniere_distance {
            Some(derniere) => {
                let variation = distance as i32 - derniere as i32;
                !(variation > 1000 || variation < -1000)
            },
            None => true,
        }
    }

    /// Reprise rapide possible : identité correcte et calibration persistée valide.
    pub fn detecter_configuration_valide(&mut self, calibration_valide: bool) -> (r: Result<bool>)
        ensures
            r is Ok <==> old(self).bus().lecture_acceptee(old(self).adresse(), seq![IDENTIFICATION_MODEL_ID], 1),
            final(self).bus().ecritures() == old(self).bus().ecritures(),
            r matches Ok(b) ==> b == (calibration_valide
                && old(self).bus().reponse(old(self).adresse(), seq![IDENTIFICATION_MODEL_ID], 1)[0] == 0xEE),
            final(self).adresse() == old(self).adresse(),
            final(self).etat() == old(self).etat(),
            final(self).stop() == old(self).stop(),
            final(self).derniere() == old(self).derniere(),
            final(self).timeout() == old(self).timeout(),
    {
        if !self.verifier_identite()? {
            return Ok(false);
        }
        Ok(calibration_valide)
    }

    /// Initialisation complète : identité, données, réglages statiques,
    /// calibration de référence et mesure de validation.
    fn initialisation_avec_etats(&mut self) -> (r: Result<()>)
        ensures
            !(old(self).bus().lecture_acceptee(old(self).adresse(), seq![IDENTIFICATION_MODEL_ID], 1)
                && old(self).bus().reponse(old(self).adresse(), seq![IDENTIFICATION_MODEL_ID], 1)[0] == 0xEE) ==> r is Err,
            old(self).bus().lecture_acceptee(old(self).adresse(), seq![IDENTIFICATION_MODEL_ID], 1)
                && old(self).bus().reponse(old(self).adresse(), seq![IDENTIFICATION_MODEL_ID], 1)[0] != 0xEE
                ==> (r matches Err(e) && e is ErreurInitialisation),
            r is Ok ==> final(self).etat() == EtatCapteur::Operationnel,
            r is Ok ==> old(self).bus().reponse(old(self).adresse(), seq![IDENTIFICATION_MODEL_ID], 1)[0] == 0xEE,
            r is Ok ==> exists|vhv: u8, gpio: u8, msrc: u8, stop: u8| final(self).bus().ecritures()
                == old(self).bus().ecritures() + #[trigger] ecritures_init_complete(old(self).adresse(), vhv, gpio, msrc, stop),
            final(self).adresse() == old(self).adresse(),
            final(self).derniere() == old(self).derniere(),
    {
        let debut = instant_maintenant();
        if !self.verifier_identite()? {
            return Err(ErreursAirHaum::ErreurInitialisation(
                String::from_str("VL53L0X: Model ID incorrect (attendu 0xEE)"),
            ));
        }
        let ghost a = self.adresse;
        let ghost e0 = self.i2c.ecritures();
        self.etat = EtatCapteur::NonConfigure;
        self.data_init()?;
        let ghost e1 = self.i2c.ecritures();
        let ghost stop = self.stop_variable;
        self.static_init()?;
        self.etat = EtatCapteur::Configure;
        if micros_ecoulees(&debut) > TIMEOUT_INIT_VL53L0X_MS * 1000 {
            self.etat = EtatCapteur::Inconnu;
            return Err(ErreursAirHaum::Timeout);
        }
        self.perform_ref_calibration()?;
        let _ = self.mesure_simple()?;
        proof {
            let (vhv, gpio, msrc) = choose|vhv: u8, gpio: u8, msrc: u8|
                e1 == e0 + ecritures_de(a, #[trigger] reglages_data_init(vhv, gpio, msrc));
            let d = reglages_data_init(vhv, gpio, msrc);
            lemme_ecritures_concat(a, d, reglages_statiques());
            lemme_ecritures_concat(a, d + reglages_statiques(), reglages_calibration());
            lemme_ecritures_concat(a, d + reglages_statiques() + reglages_calibration(), reglages_demarrage(stop));
            assert(self.i2c.ecritures() =~= e0 + ecritures_init_complete(a, vhv, gpio, msrc, stop));
        }
        self.etat = EtatCapteur::nouveau_operationnel();
        Ok(())
    }
}

impl<I2C: BusI2c> Telemetre for Vl53l0x<I2C> {
    open spec fn etat_capteur(&self) -> EtatCapteur {
        self.etat()
    }

    /// Reprise rapide si une calibration valide existe et que le capteur
    /// répond (identifiant 0xEE) : données et réglages statiques seulement ;
    /// sinon initialisation complète.
    fn initialiser(&mut self, calibration_valide: bool) -> (r: Result<()>)
        ensures
            !old(self).bus().lecture_acceptee(old(self).adresse(), seq![IDENTIFICATION_MODEL_ID], 1) ==> r is Err,
            r is Ok ==> final(self).etat_capteur() == EtatCapteur::Operationnel,
            r is Ok ==> ({
                let a = old(self).adresse();
                let e = old(self).bus().ecritures();
                if calibration_valide && old(self).bus().reponse(a, seq![IDENTIFICATION_MODEL_ID], 1)[0] == 0xEE {
                    exists|vhv: u8, gpio: u8, msrc: u8|
                        final(self).bus().ecritures() == e + #[trigger] ecritures_init_rapide(a, vhv, gpio, msrc)
                } else {
                    exists|vhv: u8, gpio: u8, msrc: u8, stop: u8|
                        final(self).bus().ecritures() == e + #[trigger] ecritures_init_complete(a, vhv, gpio, msrc, stop)
                }
            }),
    {
        let ghost a = self.adresse;
        let ghost e0 = self.i2c.ecritures();
        if self.detecter_configuration_valide(calibration_valide)? {
            self.data_init()?;
            let ghost e1 = self.i2c.ecritures();
            self.static_init()?;
            proof {
                let (vhv, gpio, msrc) = choose|vhv: u8, gpio: u8, msrc: u8|
                    e1 == e0 + ecritures_de(a, #[trigger] reglages_data_init(vhv, gpio, msrc));
                lemme_ecritures_concat(a, reglages_data_init(vhv, gpio, msrc), reglages_statiques());
                assert(self.i2c.ecritures() =~= e0 + ecritures_init_rapide(a, vhv, gpio, msrc));
            }
            self.etat = EtatCapteur::nouveau_operationnel();
            return Ok(());
        }
        self.initialisation_avec_etats()
    }

    fn mesurer_distance(&mut self) -> (r: Result<u16>)
        ensures
            old(self).etat_capteur().spec_est_utilisable() ==> match r {
                Ok(d) => d < DISTANCE_MAX_VL53L0X_MM && distance_coherente(old(self).derniere(), d)
                    && final(self).derniere() == Some(d)
                    && final(self).etat_capteur() == old(self).etat_capteur(),
                Err(e) => final(self).derniere() == old(self).derniere()
                    && (final(self).etat_capteur() == old(self).etat_capteur()
                        || (final(self).etat_capteur() is Degrade && e is DonneesInvalides)),
            },
            !old(self).etat_capteur().spec_est_utilisable() ==> *final(self) == *old(self)
                && (r matches Err(e) && e is CapteurNonInitialise),
            I2C::registres_memoire() && old(self).etat_capteur().spec_est_utilisable()
                ==> (r matches Ok(d) ==> d == distance_relue(old(self).bus(), old(self).adresse())),
            I2C::registres_memoire() && old(self).bus().en_service() && old(self).etat_capteur().spec_est_utilisable()
                && mesure_prete(old(self).bus(), old(self).adresse()) ==> {
                let d = distance_relue(old(self).bus(), old(self).adresse());
                &&& d >= DISTANCE_MAX_VL53L0X_MM ==> r == Err::<u16, ErreursAirHaum>(ErreursAirHaum::HorsPortee)
                &&& d < DISTANCE_MAX_VL53L0X_MM && !distance_coherente(old(self).derniere(), d)
                    ==> (r matches Err(e) && e matches ErreursAirHaum::DonneesInvalides(m)
                        && m@ == "VL53L0X: distance="@ + chiffres(d as nat) + "mm"@)
                    && (final(self).etat_capteur() matches EtatCapteur::Degrade { raison }
                        && raison@ == "Variation anormale: "@ + chiffres(d as nat) + "mm"@)
                &&& d < DISTANCE_MAX_VL53L0X_MM && distance_coherente(old(self).derniere(), d) ==> r == Ok::<u16, ErreursAirHaum>(d)
            },
    {
        if !self.etat.est_utilisable() {
            return Err(ErreursAirHaum::CapteurNonInitialise(message_non_operationnel(&self.etat)));
        }
        let distance = self.mesure_simple()?;
        if distance >= DISTANCE_MAX_VL53L0X_MM {
            return Err(ErreursAirHaum::HorsPortee);
        }
        if !self.verifier_coherence_distance(distance) {
            self.etat = EtatCapteur::nouveau_degrade(message_mm("Variation anormale: ", distance));
            return Err(ErreursAirHaum::DonneesInvalides(message_mm("VL53L0X: distance=", distance)));
        }
        self.derniere_distance = Some(distance);
        self.derniere_lecture = Some(Horodatage::maintenant());
        Ok(distance)
    }

    fn est_pret(&mut self) -> (r: Result<bool>) {
        Ok(self.etat.est_utilisable())
    }

    fn obtenir_precision(&self) -> (r: u16)
        ensures
            r == 10,
    {
        10
    }

    fn obtenir_portee_max(&self) -> (r: u16)
        ensures
            r == 2000,
    {
        2000
    }

    fn obtenir_etat(&self) -> (e: &EtatCapteur) {
        &self.etat
    }
}


/// Cohérence d'une distance : une distance nulle (valeur d'erreur) est
/// toujours rejetée ; sinon, par rapport à la dernière distance acceptée,
/// l'écart absolu ne dépasse pas 1000 mm, en rapprochement comme en
/// éloignement. La relation est donc symétrique entre deux distances non
/// nulles.
pub proof fn loi_coherence_distance(derniere: Option<u16>, distance: u16)
    ensures
        distance_coherente(derniere, distance) <==> (distance != 0 && match derniere {
            Some(p) => distance <= p + 1000 && p <= distance + 1000,
            None => true,
        }),
        (derniere matches Some(p) && p != 0 && distance != 0) ==> distance_coherente(derniere, distance)
            == distance_coherente(Some(distance), derniere->0),
{
}

} // verus!

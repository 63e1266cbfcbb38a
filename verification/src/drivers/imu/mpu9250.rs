//! Centrale inertielle MPU9250 (gyroscope, accéléromètre) et magnétomètre
//! AK8963 interne : séquences de configuration et lectures brutes.
//!
//! Le magnétomètre est piloté à travers le maître I²C interne du MPU9250
//! (esclave 0) ; ses mesures sont recopiées dans `EXT_SENS_DATA`. La mise à
//! l'échelle en unités physiques et les calibrations (réels) sont faites par
//! l'appelant à partir des valeurs brutes rendues ici.
use vstd::prelude::*;
use crate::hal::i2c::{BusI2c, u16_be, u16_le};
use crate::types::{ErreursAirHaum, EtatCapteur, Result};
use crate::drivers::telemetre::vl53l0x::{ecritures_de, lemme_ecritures_concat};

verus! {

/// Adresse I²C par défaut du MPU9250.
pub const ADRESSE_MPU9250: u8 = 0x68;
/// Adresse alternative (AD0 à l'état haut).
pub const ADRESSE_MPU9250_ALT: u8 = 0x69;
/// Adresse de l'AK8963 sur le bus maître interne.
pub const ADRESSE_AK8963: u8 = 0x0C;
/// Identifiant attendu dans `WHO_AM_I`.
pub const WHO_AM_I_ATTENDU: u8 = 0x71;

pub const SMPLRT_DIV: u8 = 0x19;
pub const CONFIG: u8 = 0x1A;
pub const GYRO_CONFIG: u8 = 0x1B;
pub const ACCEL_CONFIG: u8 = 0x1C;
pub const ACCEL_CONFIG2: u8 = 0x1D;
pub const I2C_MST_CTRL: u8 = 0x24;
pub const I2C_SLV0_ADDR: u8 = 0x25;
pub const I2C_SLV0_REG: u8 = 0x26;
pub const I2C_SLV0_CTRL: u8 = 0x27;
pub const I2C_SLV0_DO: u8 = 0x63;
pub const INT_PIN_CFG: u8 = 0x37;
pub const ACCEL_XOUT_H: u8 = 0x3B;
pub const GYRO_XOUT_H: u8 = 0x43;
pub const EXT_SENS_DATA_00: u8 = 0x49;
pub const USER_CTRL: u8 = 0x6A;
pub const PWR_MGMT_1: u8 = 0x6B;
pub const WHO_AM_I: u8 = 0x75;

/// Registres de l'AK8963.
pub const AK_ST1: u8 = 0x02;
pub const AK_CNTL1: u8 = 0x0A;
pub const AK_CNTL2: u8 = 0x0B;
pub const AK_ASAX: u8 = 0x10;

/// Entier 16 bits signé formé de deux octets (poids fort en premier).
pub open spec fn i16_be(hi: u8, lo: u8) -> i16 {
    let u = u16_be(hi, lo) as int;
    (if u >= 32768 { u - 65536 } else { u }) as i16
}

/// Entier 16 bits signé formé de deux octets (poids faible en premier).
pub open spec fn i16_le(lo: u8, hi: u8) -> i16 {
    let u = u16_le(lo, hi) as int;
    (if u >= 32768 { u - 65536 } else { u }) as i16
}

fn assembler_i16(lo: u8, hi: u8) -> (v: i16)
    ensures
        v == i16_le(lo, hi),
        v == i16_be(hi, lo),
{
    let u = crate::hal::i2c::assembler_u16_le(lo, hi);
    if u >= 32768 {
        (u as i32 - 65536) as i16
    } else {
        u as i16
    }
}

/// Mesures brutes d'une lecture groupée (accéléromètre, température, gyroscope).
#[derive(Debug, Clone, Copy, PartialEq, Eq)]
pub struct MesureBruteImu {
    pub accel: (i16, i16, i16),
    pub temperature: i16,
    pub gyro: (i16, i16, i16),
}

/// Lecture groupée décodée des 14 octets lus à partir de `ACCEL_XOUT_H`.
pub open spec fn mesure_brute_de(o: Seq<u8>) -> MesureBruteImu {
    MesureBruteImu {
        accel: (i16_be(o[0], o[1]), i16_be(o[2], o[3]), i16_be(o[4], o[5])),
        temperature: i16_be(o[6], o[7]),
        gyro: (i16_be(o[8], o[9]), i16_be(o[10], o[11]), i16_be(o[12], o[13])),
    }
}

/// Mesure du magnétomètre décodée des 8 octets `ST1, HX, HY, HZ, ST2` :
/// aucune si la donnée n'est pas prête (ST1 bit 0) ou en débordement (ST2 bit 3).
pub open spec fn mesure_mag_de(o: Seq<u8>) -> Option<(i16, i16, i16)> {
    if o[0] & 0x01 == 0 || o[7] & 0x08 != 0 {
        None
    } else {
        Some((i16_le(o[1], o[2]), i16_le(o[3], o[4]), i16_le(o[5], o[6])))
    }
}

/// Écritures de la configuration du gyroscope (±250 °/s, filtre 41 Hz, 200 Hz).
pub open spec fn reglages_gyro() -> Seq<(u8, u8)> {
    seq![(GYRO_CONFIG, 0x00u8), (CONFIG, 0x03u8), (SMPLRT_DIV, 0x04u8)]
}

/// Écritures de la configuration de l'accéléromètre (±4 g, filtre 41 Hz).
pub open spec fn reglages_accel() -> Seq<(u8, u8)> {
    seq![(ACCEL_CONFIG, 0x08u8), (ACCEL_CONFIG2, 0x03u8)]
}

/// Écritures d'une écriture de registre de l'AK8963 par l'esclave 0.
pub open spec fn reglages_ak_ecriture(registre: u8, valeur: u8) -> Seq<(u8, u8)> {
    seq![(I2C_SLV0_ADDR, ADRESSE_AK8963), (I2C_SLV0_REG, registre), (I2C_SLV0_DO, valeur), (I2C_SLV0_CTRL, 0x81u8)]
}

/// Écritures programmant la lecture de `n` registres de l'AK8963 par l'esclave 0.
pub open spec fn reglages_ak_lecture(registre: u8, n: u8) -> Seq<(u8, u8)> {
    seq![(I2C_SLV0_ADDR, ADRESSE_AK8963 | 0x80u8), (I2C_SLV0_REG, registre), (I2C_SLV0_CTRL, 0x80u8 | n)]
}

/// Écritures du passage en maître I²C interne (`cfg`, `uc` : valeurs lues
/// d'`INT_PIN_CFG` et `USER_CTRL`).
pub open spec fn reglages_maitre(cfg: u8, uc: u8) -> Seq<(u8, u8)> {
    seq![(INT_PIN_CFG, cfg & 0xFDu8), (USER_CTRL, uc | 0x20u8), (I2C_MST_CTRL, 0x0Du8)]
}

/// Écritures mettant l'AK8963 en mesure continue 100 Hz 16 bits, recopiée
/// par l'esclave 0 (ST1 à ST2).
pub open spec fn reglages_ak8963_continu() -> Seq<(u8, u8)> {
    reglages_ak_ecriture(AK_CNTL1, 0x00) + reglages_ak_ecriture(AK_CNTL1, 0x16) + reglages_ak_lecture(AK_ST1, 8)
}

/// Écritures de l'initialisation de l'AK8963 : réinitialisation, accès aux
/// ASA et programmation de leur lecture, puis mesure continue.
pub open spec fn reglages_ak8963() -> Seq<(u8, u8)> {
    reglages_ak_ecriture(AK_CNTL2, 0x01) + reglages_ak_ecriture(AK_CNTL1, 0x00)
        + reglages_ak_ecriture(AK_CNTL1, 0x0F) + reglages_ak_lecture(AK_ASAX, 3) + reglages_ak8963_continu()
}

/// Écritures de l'initialisation complète : réinitialisation, réveil,
/// gyroscope, accéléromètre, maître I²C, AK8963.
pub open spec fn reglages_init(cfg: u8, uc: u8) -> Seq<(u8, u8)> {
    seq![(PWR_MGMT_1, 0x80u8), (PWR_MGMT_1, 0x01u8)] + reglages_gyro() + reglages_accel()
        + reglages_maitre(cfg, uc) + reglages_ak8963()
}

/// Écritures de la reprise rapide : réveil, gyroscope, accéléromètre, maître
/// I²C, AK8963 en mesure continue.
pub open spec fn reglages_reprise(cfg: u8, uc: u8) -> Seq<(u8, u8)> {
    seq![(PWR_MGMT_1, 0x01u8)] + reglages_gyro() + reglages_accel() + reglages_maitre(cfg, uc)
        + reglages_ak8963_continu()
}

/// Triplet (x, y, z) d'entiers 16 bits signés gros-boutistes lus en six octets.
pub open spec fn triplet_de(o: Seq<u8>) -> (i16, i16, i16) {
    (i16_be(o[0], o[1]), i16_be(o[2], o[3]), i16_be(o[4], o[5]))
}

/// La moyenne tronquée de `n` valeurs égales à `v` vaut `v`.
proof fn lemme_moyenne_constante(v: int, n: int)
    requires
        n >= 1,
    ensures
        n * v >= 0 ==> (n * v) / n == v,
        n * v < 0 ==> -((-(n * v)) / n) == v,
{
    vstd::arithmetic::div_mod::lemma_div_multiples_vanish(v, n);
    vstd::arithmetic::div_mod::lemma_div_multiples_vanish(-v, n);
    assert(-(n * v) == n * (-v)) by (nonlinear_arith);
}

/// Moyenne tronquée vers zéro d'une somme de `n` valeurs 16 bits signées.
fn moyenne(s: i64, n: u32) -> (m: i32)
    requires
        1 <= n,
        -32768 * n <= s <= 32767 * n,
    ensures
        -32768 <= m <= 32767,
        m == (if s >= 0 { s as int / n as int } else { -((-s) as int / n as int) }),
{
    let d = n as i64;
    proof {
        if s >= 0 {
            assert(s as int / n as int <= 32767) by (nonlinear_arith)
                requires
                    0 <= s <= 32767 * n,
                    1 <= n;
        } else {
            assert((-s) as int / n as int <= 32768) by (nonlinear_arith)
                requires
                    0 < -s <= 32768 * n,
                    1 <= n;
        }
    }
    (s / d) as i32
}

/// Driver MPU9250 au niveau des registres.
pub struct Mpu9250<I: BusI2c> {
    i2c: I,
    adresse: u8,
    etat: EtatCapteur,
}

impl<I: BusI2c> Mpu9250<I> {
    /// Bus I²C du capteur.
    pub closed spec fn bus(&self) -> I {
        self.i2c
    }

    /// Adresse I²C du capteur.
    pub closed spec fn adresse(&self) -> u8 {
        self.adresse
    }

    /// État du capteur.
    pub closed spec fn etat(&self) -> EtatCapteur {
        self.etat
    }

    /// Driver non initialisé.
    pub fn nouveau(i2c: I, adresse: u8) -> (m: Self)
        ensures
            m.bus() == i2c,
            m.adresse() == adresse,
            m.etat() == EtatCapteur::Inconnu,
    {
        Mpu9250 { i2c, adresse, etat: EtatCapteur::Inconnu }
    }

    /// État actuel du capteur.
    pub fn obtenir_etat(&self) -> (e: &EtatCapteur)
        ensures
            *e == self.etat(),
    {
        &self.etat
    }

    fn ecrire_u8(&mut self, registre: u8, valeur: u8) -> (r: Result<()>)
        ensures
            r is Ok <==> old(self).bus().ecriture_acceptee(old(self).adresse(), seq![registre, valeur]),
            r is Ok ==> final(self).bus().ecritures() == old(self).bus().ecritures()
                + ecritures_de(old(self).adresse(), seq![(registre, valeur)]),
            final(self).adresse() == old(self).adresse(),
            final(self).etat() == old(self).etat(),
    {
        let donnees = [registre, valeur];
        assert(donnees@ == seq![registre, valeur]);
        let r = self.i2c.ecrire(self.adresse, &donnees);
        assert(ecritures_de(self.adresse, seq![(registre, valeur)]) =~= seq![(self.adresse, seq![registre, valeur])]);
        r
    }

    fn lire_u8(&mut self, registre: u8) -> (r: Result<u8>)
        ensures
            r is Ok <==> old(self).bus().lecture_acceptee(old(self).adresse(), seq![registre], 1),
            final(self).bus().ecritures() == old(self).bus().ecritures(),
            r matches Ok(v) ==> v == old(self).bus().reponse(old(self).adresse(), seq![registre], 1)[0],
            final(self).adresse() == old(self).adresse(),
            final(self).etat() == old(self).etat(),
    {
        self.i2c.lire_registre_u8(self.adresse, registre)
    }

    fn lire_multi(&mut self, registre: u8, buffer: &mut [u8]) -> (r: Result<()>)
        ensures
            r is Ok <==> old(self).bus().lecture_acceptee(old(self).adresse(), seq![registre], old(buffer)@.len()),
            final(self).bus().ecritures() == old(self).bus().ecritures(),
            final(buffer)@.len() == old(buffer)@.len(),
            r is Ok ==> final(buffer)@ == old(self).bus().reponse(old(self).adresse(), seq![registre], old(buffer)@.len()),
            I::registres_memoire() ==> final(self).bus() == old(self).bus(),
            final(self).adresse() == old(self).adresse(),
            final(self).etat() == old(self).etat(),
    {
        let reg = [registre];
        assert(reg@ == seq![registre]);
        self.i2c.ecrire_lire(self.adresse, &reg, buffer)
    }

    /// Écrit une suite de registres dans l'ordre ; s'arrête à la première erreur.
    fn ecrire_suite(&mut self, regs: &[(u8, u8)]) -> (r: Result<()>)
        ensures
            regs@.len() == 0 ==> r is Ok,
            regs@.len() > 0 && !old(self).bus().ecriture_acceptee(old(self).adresse(), seq![regs@[0].0, regs@[0].1]) ==> r is Err,
            r is Ok ==> final(self).bus().ecritures() == old(self).bus().ecritures()
                + ecritures_de(old(self).adresse(), regs@),
            final(self).adresse() == old(self).adresse(),
            final(self).etat() == old(self).etat(),
    {
        let ghost e0 = self.i2c.ecritures();
        let mut i: usize = 0;
        while i < regs.len()
            invariant
                i <= regs@.len(),
                e0 == old(self).bus().ecritures(),
                self.i2c.ecritures() == e0 + ecritures_de(old(self).adresse(), regs@.take(i as int)),
                self.adresse == old(self).adresse,
                self.etat == old(self).etat,
                i == 0 ==> self.i2c == old(self).i2c,
                i > 0 ==> old(self).bus().ecriture_acceptee(old(self).adresse(), seq![regs@[0].0, regs@[0].1]),
            decreases regs@.len() - i,
        {
            let (registre, valeur) = regs[i];
            self.ecrire_u8(registre, valeur)?;
            assert(ecritures_de(self.adresse, regs@.take(i + 1)) =~= ecritures_de(self.adresse, regs@.take(i as int))
                + ecritures_de(self.adresse, seq![(registre, valeur)]));
            i = i + 1;
        }
        assert(regs@.take(regs@.len() as int) == regs@);
        Ok(())
    }

    /// Vérifie l'identité (`WHO_AM_I` égal à 0x71).
    pub fn verifier_identite(&mut self) -> (r: Result<bool>)
        ensures
            r is Ok <==> old(self).bus().lecture_acceptee(old(self).adresse(), seq![WHO_AM_I], 1),
            final(self).bus().ecritures() == old(self).bus().ecritures(),
            r matches Ok(b) ==> b == (old(self).bus().reponse(old(self).adresse(), seq![WHO_AM_I], 1)[0] == WHO_AM_I_ATTENDU),
            final(self).adresse() == old(self).adresse(),
            final(self).etat() == old(self).etat(),
    {
        let id = self.lire_u8(WHO_AM_I)?;
        Ok(id == WHO_AM_I_ATTENDU)
    }

    /// Réinitialisation matérielle puis 100 ms de stabilisation.
    fn reset(&mut self) -> (r: Result<()>)
        ensures
            r is Ok <==> old(self).bus().ecriture_acceptee(old(self).adresse(), seq![PWR_MGMT_1, 0x80u8]),
            r is Ok ==> final(self).bus().ecritures() == old(self).bus().ecritures()
                + ecritures_de(old(self).adresse(), seq![(PWR_MGMT_1, 0x80u8)]),
            final(self).adresse() == old(self).adresse(),
            final(self).etat() == old(self).etat(),
    {
        self.ecrire_u8(PWR_MGMT_1, 0x80)?;
        self.i2c.pause_ms(100);
        Ok(())
    }

    /// Réveil, horloge PLL du gyroscope.
    fn reveiller(&mut self) -> (r: Result<()>)
        ensures
            r is Ok <==> old(self).bus().ecriture_acceptee(old(self).adresse(), seq![PWR_MGMT_1, 0x01u8]),
            r is Ok ==> final(self).bus().ecritures() == old(self).bus().ecritures()
                + ecritures_de(old(self).adresse(), seq![(PWR_MGMT_1, 0x01u8)]),
            final(self).adresse() == old(self).adresse(),
            final(self).etat() == old(self).etat(),
    {
        self.ecrire_u8(PWR_MGMT_1, 0x01)?;
        self.i2c.pause_ms(10);
        Ok(())
    }

    /// Gyroscope ±250 °/s, filtre 41 Hz, échantillonnage 200 Hz.
    fn configurer_gyro(&mut self) -> (r: Result<()>)
        ensures
            r is Ok ==> final(self).bus().ecritures() == old(self).bus().ecritures()
                + ecritures_de(old(self).adresse(), reglages_gyro()),
            final(self).adresse() == old(self).adresse(),
            final(self).etat() == old(self).etat(),
    {
        let regs = [(GYRO_CONFIG, 0x00u8), (CONFIG, 0x03u8), (SMPLRT_DIV, 0x04u8)];
        assert(regs@ =~= reglages_gyro());
        self.ecrire_suite(&regs)
    }

    /// Accéléromètre ±4 g, filtre 41 Hz.
    fn configurer_accel(&mut self) -> (r: Result<()>)
        ensures
            r is Ok ==> final(self).bus().ecritures() == old(self).bus().ecritures()
                + ecritures_de(old(self).adresse(), reglages_accel()),
            final(self).adresse() == old(self).adresse(),
            final(self).etat() == old(self).etat(),
    {
        let regs = [(ACCEL_CONFIG, 0x08u8), (ACCEL_CONFIG2, 0x03u8)];
        assert(regs@ =~= reglages_accel());
        self.ecrire_suite(&regs)
    }

    /// Passe en maître I²C interne : contournement coupé, maître activé à 400 kHz.
    fn activer_i2c_master(&mut self) -> (r: Result<()>)
        ensures
            r is Ok ==> exists|cfg: u8, uc: u8| final(self).bus().ecritures() == old(self).bus().ecritures()
                + ecritures_de(old(self).adresse(), #[trigger] reglages_maitre(cfg, uc)),
            final(self).adresse() == old(self).adresse(),
            final(self).etat() == old(self).etat(),
    {
        let ghost e0 = self.i2c.ecritures();
        let a = self.adresse;
        let cfg = self.lire_u8(INT_PIN_CFG)?;
        self.ecrire_u8(INT_PIN_CFG, cfg & 0xFD)?;
        let uc = self.lire_u8(USER_CTRL)?;
        self.ecrire_u8(USER_CTRL, uc | 0x20)?;
        self.ecrire_u8(I2C_MST_CTRL, 0x0D)?;
        self.i2c.pause_ms(10);
        assert(self.i2c.ecritures() =~= e0 + ecritures_de(a, reglages_maitre(cfg, uc)));
        Ok(())
    }

    /// Écrit `valeur` dans le registre `registre_ak` de l'AK8963.
    fn ak_ecrire(&mut self, registre_ak: u8, valeur: u8) -> (r: Result<()>)
        ensures
            r is Ok ==> final(self).bus().ecritures() == old(self).bus().ecritures()
                + ecritures_de(old(self).adresse(), reglages_ak_ecriture(registre_ak, valeur)),
            final(self).adresse() == old(self).adresse(),
            final(self).etat() == old(self).etat(),
    {
        let regs = [(I2C_SLV0_ADDR, ADRESSE_AK8963), (I2C_SLV0_REG, registre_ak), (I2C_SLV0_DO, valeur), (I2C_SLV0_CTRL, 0x81u8)];
        assert(regs@ =~= reglages_ak_ecriture(registre_ak, valeur));
        self.ecrire_suite(&regs)?;
        self.i2c.pause_ms(10);
        Ok(())
    }

    /// Programme la recopie de `n` registres de l'AK8963 dans `EXT_SENS_DATA`.
    fn ak_lire_setup(&mut self, registre_ak: u8, n: u8) -> (r: Result<()>)
        ensures
            r is Ok ==> final(self).bus().ecritures() == old(self).bus().ecritures()
                + ecritures_de(old(self).adresse(), reglages_ak_lecture(registre_ak, n)),
            final(self).adresse() == old(self).adresse(),
            final(self).etat() == old(self).etat(),
    {
        let regs = [(I2C_SLV0_ADDR, ADRESSE_AK8963 | 0x80u8), (I2C_SLV0_REG, registre_ak), (I2C_SLV0_CTRL, 0x80u8 | n)];
        assert(regs@ =~= reglages_ak_lecture(registre_ak, n));
        self.ecrire_suite(&regs)?;
        self.i2c.pause_ms(10);
        Ok(())
    }

    /// Initialise l'AK8963 : réinitialisation, lecture des coefficients de
    /// sensibilité d'usine (ASA, octets bruts), puis mesure continue 100 Hz
    /// 16 bits recopiée par l'esclave 0 (ST1 à ST2, 8 octets).
    fn init_ak8963(&mut self) -> (r: Result<[u8; 3]>)
        ensures
            r is Ok ==> final(self).bus().ecritures() == old(self).bus().ecritures()
                + ecritures_de(old(self).adresse(), reglages_ak8963()),
            final(self).adresse() == old(self).adresse(),
            final(self).etat() == old(self).etat(),
    {
        let ghost e0 = self.i2c.ecritures();
        let ghost a = self.adresse;
        self.ak_ecrire(AK_CNTL2, 0x01)?;
        self.i2c.pause_ms(10);
        self.ak_ecrire(AK_CNTL1, 0x00)?;
        self.i2c.pause_ms(10);
        self.ak_ecrire(AK_CNTL1, 0x0F)?;
        self.i2c.pause_ms(10);
        self.ak_lire_setup(AK_ASAX, 3)?;
        self.i2c.pause_ms(10);
        let ghost e1 = self.i2c.ecritures();
        let mut asa = [0u8; 3];
        self.lire_multi(EXT_SENS_DATA_00, &mut asa)?;
        self.mettre_ak8963_en_continu()?;
        proof {
            let debut = reglages_ak_ecriture(AK_CNTL2, 0x01) + reglages_ak_ecriture(AK_CNTL1, 0x00)
                + reglages_ak_ecriture(AK_CNTL1, 0x0F) + reglages_ak_lecture(AK_ASAX, 3);
            lemme_ecritures_concat(a, reglages_ak_ecriture(AK_CNTL2, 0x01), reglages_ak_ecriture(AK_CNTL1, 0x00));
            lemme_ecritures_concat(a, reglages_ak_ecriture(AK_CNTL2, 0x01) + reglages_ak_ecriture(AK_CNTL1, 0x00),
                reglages_ak_ecriture(AK_CNTL1, 0x0F));
            lemme_ecritures_concat(a, reglages_ak_ecriture(AK_CNTL2, 0x01) + reglages_ak_ecriture(AK_CNTL1, 0x00)
                + reglages_ak_ecriture(AK_CNTL1, 0x0F), reglages_ak_lecture(AK_ASAX, 3));
            lemme_ecritures_concat(a, debut, reglages_ak8963_continu());
            assert(e1 =~= e0 + ecritures_de(a, debut));
            assert(self.i2c.ecritures() =~= e0 + ecritures_de(a, reglages_ak8963()));
        }
        Ok(asa)
    }

    /// AK8963 en mesure continue 100 Hz 16 bits, recopiée par l'esclave 0.
    fn mettre_ak8963_en_continu(&mut self) -> (r: Result<()>)
        ensures
            r is Ok ==> final(self).bus().ecritures() == old(self).bus().ecritures()
                + ecritures_de(old(self).adresse(), reglages_ak8963_continu()),
            final(self).adresse() == old(self).adresse(),
            final(self).etat() == old(self).etat(),
    {
        let ghost e0 = self.i2c.ecritures();
        let ghost a = self.adresse;
        self.ak_ecrire(AK_CNTL1, 0x00)?;
        self.i2c.pause_ms(10);
        self.ak_ecrire(AK_CNTL1, 0x16)?;
        self.i2c.pause_ms(10);
        self.ak_lire_setup(AK_ST1, 8)?;
        proof {
            lemme_ecritures_concat(a, reglages_ak_ecriture(AK_CNTL1, 0x00), reglages_ak_ecriture(AK_CNTL1, 0x16));
            lemme_ecritures_concat(a, reglages_ak_ecriture(AK_CNTL1, 0x00) + reglages_ak_ecriture(AK_CNTL1, 0x16),
                reglages_ak_lecture(AK_ST1, 8));
            assert(self.i2c.ecritures() =~= e0 + ecritures_de(a, reglages_ak8963_continu()));
        }
        Ok(())
    }

    /// Partie matérielle de l'initialisation complète : identité
    /// (`ErreurInitialisation` si incorrecte), réinitialisation, réveil,
    /// configuration du gyroscope et de l'accéléromètre, maître I²C et
    /// magnétomètre. Rend les octets ASA ; l'état est alors « configuré ».
    pub fn init_materiel(&mut self) -> (r: Result<[u8; 3]>)
        ensures
            !(old(self).bus().lecture_acceptee(old(self).adresse(), seq![WHO_AM_I], 1)
                && old(self).bus().reponse(old(self).adresse(), seq![WHO_AM_I], 1)[0] == WHO_AM_I_ATTENDU) ==> r is Err,
            old(self).bus().lecture_acceptee(old(self).adresse(), seq![WHO_AM_I], 1)
                && old(self).bus().reponse(old(self).adresse(), seq![WHO_AM_I], 1)[0] != WHO_AM_I_ATTENDU
                ==> (r matches Err(e) && e is ErreurInitialisation),
            r is Ok ==> final(self).etat() == EtatCapteur::Configure,
            r is Ok ==> old(self).bus().reponse(old(self).adresse(), seq![WHO_AM_I], 1)[0] == WHO_AM_I_ATTENDU,
            r is Ok ==> exists|cfg: u8, uc: u8| final(self).bus().ecritures() == old(self).bus().ecritures()
                + ecritures_de(old(self).adresse(), #[trigger] reglages_init(cfg, uc)),
            final(self).adresse() == old(self).adresse(),
    {
        if !self.verifier_identite()? {
            return Err(ErreursAirHaum::ErreurInitialisation(
                String::from_str("MPU9250: WHO_AM_I incorrect (attendu 0x71)"),
            ));
        }
        let ghost e0 = self.i2c.ecritures();
        let ghost a = self.adresse;
        self.etat = EtatCapteur::NonConfigure;
        self.reset()?;
        self.reveiller()?;
        self.configurer_gyro()?;
        self.configurer_accel()?;
        self.etat = EtatCapteur::Configure;
        let ghost e1 = self.i2c.ecritures();
        self.activer_i2c_master()?;
        let ghost e2 = self.i2c.ecritures();
        let asa = self.init_ak8963()?;
        proof {
            let (cfg, uc) = choose|cfg: u8, uc: u8| e2 == e1 + ecritures_de(a, #[trigger] reglages_maitre(cfg, uc));
            let debut = seq![(PWR_MGMT_1, 0x80u8), (PWR_MGMT_1, 0x01u8)] + reglages_gyro() + reglages_accel();
            assert(seq![(PWR_MGMT_1, 0x80u8)] + seq![(PWR_MGMT_1, 0x01u8)] =~= seq![(PWR_MGMT_1, 0x80u8), (PWR_MGMT_1, 0x01u8)]);
            lemme_ecritures_concat(a, seq![(PWR_MGMT_1, 0x80u8)], seq![(PWR_MGMT_1, 0x01u8)]);
            lemme_ecritures_concat(a, seq![(PWR_MGMT_1, 0x80u8), (PWR_MGMT_1, 0x01u8)], reglages_gyro());
            lemme_ecritures_concat(a, seq![(PWR_MGMT_1, 0x80u8), (PWR_MGMT_1, 0x01u8)] + reglages_gyro(), reglages_accel());
            lemme_ecritures_concat(a, debut, reglages_maitre(cfg, uc));
            lemme_ecritures_concat(a, debut + reglages_maitre(cfg, uc), reglages_ak8963());
            assert(e1 =~= e0 + ecritures_de(a, debut));
            assert(self.i2c.ecritures() =~= e0 + ecritures_de(a, reglages_init(cfg, uc)));
        }
        Ok(asa)
    }

    /// Reprise rapide (calibrations valides) : configuration matérielle
    /// réappliquée sans réinitialisation ni relecture des ASA ; opérationnel.
    pub fn reprise_materiel(&mut self) -> (r: Result<()>)
        ensures
            !old(self).bus().ecriture_acceptee(old(self).adresse(), seq![PWR_MGMT_1, 0x01u8]) ==> r is Err,
            r is Ok ==> final(self).etat() == EtatCapteur::Operationnel,
            r is Ok ==> exists|cfg: u8, uc: u8| final(self).bus().ecritures() == old(self).bus().ecritures()
                + ecritures_de(old(self).adresse(), #[trigger] reglages_reprise(cfg, uc)),
            final(self).adresse() == old(self).adresse(),
    {
        let ghost e0 = self.i2c.ecritures();
        let ghost a = self.adresse;
        self.reveiller()?;
        self.configurer_gyro()?;
        self.configurer_accel()?;
        let ghost e1 = self.i2c.ecritures();
        self.activer_i2c_master()?;
        let ghost e2 = self.i2c.ecritures();
        self.ak_ecrire(AK_CNTL1, 0x00)?;
        self.i2c.pause_ms(10);
        self.ak_ecrire(AK_CNTL1, 0x16)?;
        self.ak_lire_setup(AK_ST1, 8)?;
        proof {
            let (cfg, uc) = choose|cfg: u8, uc: u8| e2 == e1 + ecritures_de(a, #[trigger] reglages_maitre(cfg, uc));
            let debut = seq![(PWR_MGMT_1, 0x01u8)] + reglages_gyro() + reglages_accel();
            lemme_ecritures_concat(a, seq![(PWR_MGMT_1, 0x01u8)], reglages_gyro());
            lemme_ecritures_concat(a, seq![(PWR_MGMT_1, 0x01u8)] + reglages_gyro(), reglages_accel());
            lemme_ecritures_concat(a, debut, reglages_maitre(cfg, uc));
            lemme_ecritures_concat(a, reglages_ak_ecriture(AK_CNTL1, 0x00), reglages_ak_ecriture(AK_CNTL1, 0x16));
            lemme_ecritures_concat(a, reglages_ak_ecriture(AK_CNTL1, 0x00) + reglages_ak_ecriture(AK_CNTL1, 0x16),
                reglages_ak_lecture(AK_ST1, 8));
            lemme_ecritures_concat(a, debut + reglages_maitre(cfg, uc), reglages_ak8963_continu());
            assert(e1 =~= e0 + ecritures_de(a, debut));
            assert(self.i2c.ecritures() =~= e0 + ecritures_de(a, reglages_reprise(cfg, uc)));
        }
        self.etat = EtatCapteur::nouveau_operationnel();
        Ok(())
    }

    /// Partie matérielle de l'initialisation : identité vérifiée
    /// (`ErreurInitialisation` si incorrecte), puis reprise rapide si les
    /// calibrations persistées sont valides (rend `None`, opérationnel), sinon
    /// initialisation complète (rend les octets ASA, configuré).
    pub fn initialiser_materiel(&mut self, calibrations_valides: bool) -> (r: Result<Option<[u8; 3]>>)
        ensures
            !(old(self).bus().lecture_acceptee(old(self).adresse(), seq![WHO_AM_I], 1)
                && old(self).bus().reponse(old(self).adresse(), seq![WHO_AM_I], 1)[0] == WHO_AM_I_ATTENDU) ==> r is Err,
            old(self).bus().lecture_acceptee(old(self).adresse(), seq![WHO_AM_I], 1)
                && old(self).bus().reponse(old(self).adresse(), seq![WHO_AM_I], 1)[0] != WHO_AM_I_ATTENDU
                ==> (r matches Err(e) && e is ErreurInitialisation),
            r is Ok ==> old(self).bus().reponse(old(self).adresse(), seq![WHO_AM_I], 1)[0] == WHO_AM_I_ATTENDU,
            r matches Ok(None) ==> calibrations_valides && final(self).etat() == EtatCapteur::Operationnel,
            r matches Ok(Some(_)) ==> !calibrations_valides && final(self).etat() == EtatCapteur::Configure,
            r matches Ok(None) ==> exists|cfg: u8, uc: u8| final(self).bus().ecritures() == old(self).bus().ecritures()
                + ecritures_de(old(self).adresse(), #[trigger] reglages_reprise(cfg, uc)),
            r matches Ok(Some(_)) ==> exists|cfg: u8, uc: u8| final(self).bus().ecritures() == old(self).bus().ecritures()
                + ecritures_de(old(self).adresse(), #[trigger] reglages_init(cfg, uc)),
            final(self).adresse() == old(self).adresse(),
    {
        if !self.verifier_identite()? {
            return Err(ErreursAirHaum::ErreurInitialisation(String::from_str("MPU9250: WHO_AM_I incorrect")));
        }
        if calibrations_valides {
            self.reprise_materiel()?;
            return Ok(None);
        }
        let asa = self.init_materiel()?;
        Ok(Some(asa))
    }

    /// Passe le capteur à l'état opérationnel (calibrations disponibles).
    pub fn marquer_operationnel(&mut self)
        ensures
            final(self).etat() == EtatCapteur::Operationnel,
            final(self).bus() == old(self).bus(),
            final(self).adresse() == old(self).adresse(),
    {
        self.etat = EtatCapteur::nouveau_operationnel();
    }

    /// Suspend l'appelant pendant `ms` millisecondes sans transaction.
    pub fn pause(&mut self, ms: u32)
        ensures
            final(self).bus().ecritures() == old(self).bus().ecritures(),
            final(self).adresse() == old(self).adresse(),
            final(self).etat() == old(self).etat(),
    {
        self.i2c.pause_ms(ms);
    }

    /// Triplet brut 16 bits (poids fort en premier) lu à partir de `registre`.
    fn lire_triplet(&mut self, registre: u8) -> (r: Result<(i16, i16, i16)>)
        ensures
            r is Ok <==> old(self).bus().lecture_acceptee(old(self).adresse(), seq![registre], 6),
            final(self).bus().ecritures() == old(self).bus().ecritures(),
            r matches Ok((x, y, z)) ==> ({
                let o = old(self).bus().reponse(old(self).adresse(), seq![registre], 6);
                x == i16_be(o[0], o[1]) && y == i16_be(o[2], o[3]) && z == i16_be(o[4], o[5])
            }),
            I::registres_memoire() ==> final(self).bus() == old(self).bus(),
            final(self).adresse() == old(self).adresse(),
            final(self).etat() == old(self).etat(),
    {
        let mut b = [0u8; 6];
        self.lire_multi(registre, &mut b)?;
        Ok((assembler_i16(b[1], b[0]), assembler_i16(b[3], b[2]), assembler_i16(b[5], b[4])))
    }

    /// Gyroscope brut.
    pub fn lire_gyro_brut(&mut self) -> (r: Result<(i16, i16, i16)>)
        ensures
            r is Ok <==> old(self).bus().lecture_acceptee(old(self).adresse(), seq![GYRO_XOUT_H], 6),
            final(self).bus().ecritures() == old(self).bus().ecritures(),
            r matches Ok((x, y, z)) ==> ({
                let o = old(self).bus().reponse(old(self).adresse(), seq![GYRO_XOUT_H], 6);
                x == i16_be(o[0], o[1]) && y == i16_be(o[2], o[3]) && z == i16_be(o[4], o[5])
            }),
            final(self).adresse() == old(self).adresse(),
            final(self).etat() == old(self).etat(),
    {
        self.lire_triplet(GYRO_XOUT_H)
    }

    /// Accéléromètre brut.
    pub fn lire_accel_brut(&mut self) -> (r: Result<(i16, i16, i16)>)
        ensures
            r is Ok <==> old(self).bus().lecture_acceptee(old(self).adresse(), seq![ACCEL_XOUT_H], 6),
            final(self).bus().ecritures() == old(self).bus().ecritures(),
            r matches Ok((x, y, z)) ==> ({
                let o = old(self).bus().reponse(old(self).adresse(), seq![ACCEL_XOUT_H], 6);
                x == i16_be(o[0], o[1]) && y == i16_be(o[2], o[3]) && z == i16_be(o[4], o[5])
            }),
            final(self).adresse() == old(self).adresse(),
            final(self).etat() == old(self).etat(),
    {
        self.lire_triplet(ACCEL_XOUT_H)
    }

    /// Accéléromètre, température et gyroscope bruts en une transaction (14 octets).
    pub fn lire_tout_brut(&mut self) -> (r: Result<MesureBruteImu>)
        ensures
            r is Ok <==> old(self).bus().lecture_acceptee(old(self).adresse(), seq![ACCEL_XOUT_H], 14),
            final(self).bus().ecritures() == old(self).bus().ecritures(),
            r matches Ok(m) ==> m == mesure_brute_de(old(self).bus().reponse(old(self).adresse(), seq![ACCEL_XOUT_H], 14)),
            final(self).adresse() == old(self).adresse(),
            final(self).etat() == old(self).etat(),
    {
        let mut b = [0u8; 14];
        self.lire_multi(ACCEL_XOUT_H, &mut b)?;
        Ok(MesureBruteImu {
            accel: (assembler_i16(b[1], b[0]), assembler_i16(b[3], b[2]), assembler_i16(b[5], b[4])),
            temperature: assembler_i16(b[7], b[6]),
            gyro: (assembler_i16(b[9], b[8]), assembler_i16(b[11], b[10]), assembler_i16(b[13], b[12])),
        })
    }

    /// Magnétomètre brut recopié dans `EXT_SENS_DATA` ; aucune mesure si la
    /// donnée n'est pas prête ou en débordement.
    pub fn lire_mag_brut(&mut self) -> (r: Result<Option<(i16, i16, i16)>>)
        ensures
            r is Ok <==> old(self).bus().lecture_acceptee(old(self).adresse(), seq![EXT_SENS_DATA_00], 8),
            final(self).bus().ecritures() == old(self).bus().ecritures(),
            r matches Ok(m) ==> m == mesure_mag_de(old(self).bus().reponse(old(self).adresse(), seq![EXT_SENS_DATA_00], 8)),
            final(self).adresse() == old(self).adresse(),
            final(self).etat() == old(self).etat(),
    {
        let mut b = [0u8; 8];
        self.lire_multi(EXT_SENS_DATA_00, &mut b)?;
        if b[0] & 0x01 == 0 {
            return Ok(None);
        }
        if b[7] & 0x08 != 0 {
            return Ok(None);
        }
        Ok(Some((assembler_i16(b[1], b[2]), assembler_i16(b[3], b[4]), assembler_i16(b[5], b[6]))))
    }

    /// Moyenne (division tronquée) de `n` lectures brutes du gyroscope
    /// espacées de `pause_ms`, capteur immobile.
    pub fn moyenne_gyro_brute(&mut self, n: u32, pause_ms: u32) -> (r: Result<(i32, i32, i32)>)
        requires
            1 <= n,
        ensures
            final(self).bus().ecritures() == old(self).bus().ecritures(),
            r matches Ok((x, y, z)) ==> -32768 <= x <= 32767 && -32768 <= y <= 32767 && -32768 <= z <= 32767,
            I::registres_memoire() ==> (r matches Ok((x, y, z)) ==> ({
                let t = triplet_de(old(self).bus().reponse(old(self).adresse(), seq![GYRO_XOUT_H], 6));
                x == t.0 && y == t.1 && z == t.2
            })),
            final(self).adresse() == old(self).adresse(),
            final(self).etat() == old(self).etat(),
    {
        let (sx, sy, sz) = self.sommes_brutes(GYRO_XOUT_H, n, pause_ms)?;
        proof {
            if I::registres_memoire() {
                let t = triplet_de(old(self).bus().reponse(old(self).adresse(), seq![GYRO_XOUT_H], 6));
                lemme_moyenne_constante(t.0 as int, n as int);
                lemme_moyenne_constante(t.1 as int, n as int);
                lemme_moyenne_constante(t.2 as int, n as int);
            }
        }
        Ok((moyenne(sx, n), moyenne(sy, n), moyenne(sz, n)))
    }

    /// Moyenne (division tronquée) de `n` lectures brutes de l'accéléromètre
    /// espacées de `pause_ms`, capteur posé à plat.
    pub fn moyenne_accel_brute(&mut self, n: u32, pause_ms: u32) -> (r: Result<(i32, i32, i32)>)
        requires
            1 <= n,
        ensures
            final(self).bus().ecritures() == old(self).bus().ecritures(),
            r matches Ok((x, y, z)) ==> -32768 <= x <= 32767 && -32768 <= y <= 32767 && -32768 <= z <= 32767,
            I::registres_memoire() ==> (r matches Ok((x, y, z)) ==> ({
                let t = triplet_de(old(self).bus().reponse(old(self).adresse(), seq![ACCEL_XOUT_H], 6));
                x == t.0 && y == t.1 && z == t.2
            })),
            final(self).adresse() == old(self).adresse(),
            final(self).etat() == old(self).etat(),
    {
        let (sx, sy, sz) = self.sommes_brutes(ACCEL_XOUT_H, n, pause_ms)?;
        proof {
            if I::registres_memoire() {
                let t = triplet_de(old(self).bus().reponse(old(self).adresse(), seq![ACCEL_XOUT_H], 6));
                lemme_moyenne_constante(t.0 as int, n as int);
                lemme_moyenne_constante(t.1 as int, n as int);
                lemme_moyenne_constante(t.2 as int, n as int);
            }
        }
        Ok((moyenne(sx, n), moyenne(sy, n), moyenne(sz, n)))
    }

    fn sommes_brutes(&mut self, registre: u8, n: u32, pause_ms: u32) -> (r: Result<(i64, i64, i64)>)
        requires
            1 <= n,
        ensures
            final(self).bus().ecritures() == old(self).bus().ecritures(),
            r matches Ok((x, y, z)) ==> -32768 * n <= x <= 32767 * n && -32768 * n <= y <= 32767 * n
                && -32768 * n <= z <= 32767 * n,
            I::registres_memoire() ==> (r matches Ok((x, y, z)) ==> ({
                let t = triplet_de(old(self).bus().reponse(old(self).adresse(), seq![registre], 6));
                x == n * t.0 && y == n * t.1 && z == n * t.2
            })),
            final(self).adresse() == old(self).adresse(),
            final(self).etat() == old(self).etat(),
    {
        let ghost t = triplet_de(self.i2c.reponse(self.adresse, seq![registre], 6));
        let mut sx: i64 = 0;
        let mut sy: i64 = 0;
        let mut sz: i64 = 0;
        let mut k: u32 = 0;
        while k < n
            invariant
                k <= n,
                -32768 * k <= sx <= 32767 * k,
                -32768 * k <= sy <= 32767 * k,
                -32768 * k <= sz <= 32767 * k,
                self.i2c.ecritures() == old(self).bus().ecritures(),
                self.adresse == old(self).adresse,
                self.etat == old(self).etat,
                t == triplet_de(old(self).bus().reponse(old(self).adresse(), seq![registre], 6)),
                I::registres_memoire() ==> self.i2c == old(self).i2c
                    && sx == k * t.0 && sy == k * t.1 && sz == k * t.2,
            decreases n - k,
        {
            let (x, y, z) = self.lire_triplet(registre)?;
            proof {
                if I::registres_memoire() {
                    assert((k + 1) * t.0 == k * t.0 + t.0) by (nonlinear_arith);
                    assert((k + 1) * t.1 == k * t.1 + t.1) by (nonlinear_arith);
                    assert((k + 1) * t.2 == k * t.2 + t.2) by (nonlinear_arith);
                }
            }
            sx = sx + x as i64;
            sy = sy + y as i64;
            sz = sz + z as i64;
            self.i2c.pause_ms(pause_ms);
            k = k + 1;
        }
        Ok((sx, sy, sz))
    }
}

} // verus!

use airhaum::diagnostiques::tester_bmp280;
use airhaum::drivers::barometre::bmp280::Bmp280;
use airhaum::drivers::barometre::compensation::{Calibration, ADRESSE_BMP280};
use airhaum::drivers::telemetre::vl53l0x::{Vl53l0x, ADRESSE_VL53L0X, IDENTIFICATION_MODEL_ID};
use airhaum::hal::i2c::I2cMock;
use airhaum::interfaces::barometre::Barometre;
use airhaum::taches::capteurs::{detecter_reprise_rapide, distance_publiee, init_bmp280, TraitementImu};
use airhaum::types::{ErreursAirHaum, Horodatage};
use airhaum::interfaces::telemetre::Telemetre;

const COEFFICIENTS: [u8; 24] = [
    0x88, 0x6E, 0x6A, 0x66, 0x32, 0x00, 0xC0, 0x8E, 0xC8, 0xD6, 0xD0, 0x0B, 0x27, 0x0B, 0x00, 0x00, 0xF9, 0xFF,
    0x8C, 0x3C, 0xF8, 0xC6, 0x70, 0x17,
];

fn bus_bmp280() -> I2cMock {
    let mut i2c = I2cMock::nouveau();
    i2c.precharger_registre(ADRESSE_BMP280, 0xD0, 0x58);
    for (i, &octet) in COEFFICIENTS.iter().enumerate() {
        i2c.precharger_registre(ADRESSE_BMP280, 0x88 + i as u8, octet);
    }
    i2c.precharger_registre(ADRESSE_BMP280, 0xF3, 0x00);
    i2c.precharger_registre(ADRESSE_BMP280, 0xF4, 0x00);
    i2c.precharger_registre(ADRESSE_BMP280, 0xF7, 0x65);
    i2c.precharger_registre(ADRESSE_BMP280, 0xF8, 0x66);
    i2c.precharger_registre(ADRESSE_BMP280, 0xF9, 0x60);
    i2c.precharger_registre(ADRESSE_BMP280, 0xFA, 0x7E);
    i2c.precharger_registre(ADRESSE_BMP280, 0xFB, 0xDD);
    i2c.precharger_registre(ADRESSE_BMP280, 0xFC, 0x00);
    i2c
}

#[test]
fn vl53l0x_test_creation_driver() {
    let i2c = I2cMock::nouveau();
    let _vl53 = Vl53l0x::nouveau(i2c, ADRESSE_VL53L0X);
}

#[test]
fn vl53l0x_test_verification_identite() {
    let mut i2c = I2cMock::nouveau();
    i2c.precharger_registre(ADRESSE_VL53L0X, IDENTIFICATION_MODEL_ID, 0xEE);
    let mut vl53 = Vl53l0x::nouveau(i2c, ADRESSE_VL53L0X);
    assert!(vl53.verifier_identite().unwrap());
}

#[test]
fn vl53l0x_test_identite_incorrecte() {
    let mut i2c = I2cMock::nouveau();
    i2c.precharger_registre(ADRESSE_VL53L0X, IDENTIFICATION_MODEL_ID, 0xAB);
    let mut vl53 = Vl53l0x::nouveau(i2c, ADRESSE_VL53L0X);
    assert!(!vl53.verifier_identite().unwrap());
}

#[test]
fn test_bmp280_initialisation() {
    let mut bmp = Bmp280::nouveau(bus_bmp280());
    assert!(bmp.initialiser(true).is_ok());
    assert!(bmp.est_operationnel());
}

#[test]
fn bmp280_configure_sans_calibration_au_sol() {
    let mut bmp = Bmp280::nouveau(bus_bmp280());
    assert!(bmp.initialiser(false).is_ok());
    assert!(!bmp.est_operationnel());
    assert!(matches!(bmp.lire(), Err(ErreursAirHaum::CapteurNonInitialise(_))));
    assert!(bmp.verifier_pret_calibration().is_ok());
    bmp.confirmer_calibration_sol();
    assert!(bmp.est_operationnel());
    bmp.invalider_calibration_sol();
    assert!(!bmp.est_operationnel());
}

#[test]
fn test_bmp280_id_invalide() {
    let mut i2c = I2cMock::nouveau();
    i2c.precharger_registre(ADRESSE_BMP280, 0xD0, 0xFF);
    let mut bmp = Bmp280::nouveau(i2c);
    assert!(bmp.initialiser(true).is_err());
}

#[test]
fn test_bmp280_lecture_donnees() {
    let mut bmp = Bmp280::nouveau(bus_bmp280());
    bmp.initialiser(true).unwrap();
    let d = bmp.lire().unwrap();
    assert!(d.pression_pa > 80_000, "Pression trop basse");
    assert!(d.pression_pa < 120_000, "Pression trop haute");
    assert!(d.temperature_centi > -4_000, "Température trop basse");
    assert!(d.temperature_centi < 8_500, "Température trop haute");
    assert_eq!(d.pression_pa, 99_772);
    assert_eq!(d.temperature_centi, 2_091);
}

#[test]
fn test_bmp280_donnees_consecutives() {
    let mut bmp = Bmp280::nouveau(bus_bmp280());
    bmp.initialiser(true).unwrap();
    let d1 = bmp.lire().unwrap();
    let d2 = bmp.lire().unwrap();
    assert_eq!(d1.pression_pa, d2.pression_pa);
    assert_eq!(d1.temperature_centi, d2.temperature_centi);
}

#[test]
fn bmp280_coefficients_et_compensation() {
    let mut i2c = bus_bmp280();
    let c = Calibration::lire_depuis_capteur(&mut i2c).unwrap();
    assert_eq!(c.dig_t1, 28296);
    assert_eq!(c.dig_p2, -10552);
    assert_eq!(c.dig_p6, -7);
    let (t, t_fine) = c.compenser_temperature(519_632).unwrap();
    assert_eq!(t, 2091);
    assert_eq!(t_fine, 107_061);
    assert_eq!(c.compenser_pression(415_334, t_fine), Some(99_772));
}

#[test]
fn bmp280_coefficients_nuls_refuses() {
    let mut i2c = bus_bmp280();
    i2c.precharger_registre(ADRESSE_BMP280, 0x88, 0);
    i2c.precharger_registre(ADRESSE_BMP280, 0x89, 0);
    assert!(matches!(Calibration::lire_depuis_capteur(&mut i2c), Err(ErreursAirHaum::CalibrationEchouee(_))));
}

#[test]
fn bmp280_mesure_hors_plage_degrade() {
    let mut i2c = bus_bmp280();
    i2c.precharger_registre(ADRESSE_BMP280, 0xFA, 0xFF);
    let mut bmp = Bmp280::nouveau(i2c);
    bmp.initialiser(true).unwrap();
    assert!(matches!(bmp.lire(), Err(ErreursAirHaum::DonneesInvalides(_))));
    assert!(bmp.est_operationnel());
}

#[test]
fn bmp280_diagnostic_et_initialisation_de_tache() {
    let rapport = tester_bmp280(bus_bmp280(), true);
    assert!(rapport.initialisation.is_ok());
    assert_eq!(rapport.lectures.len(), 5);
    assert!(rapport.lectures.iter().all(|l| l.is_ok()));
    let rapport = tester_bmp280(bus_bmp280(), false);
    assert!(rapport.initialisation.is_ok());
    assert!(rapport
        .lectures
        .iter()
        .all(|l| matches!(l, Err(ErreursAirHaum::CapteurNonInitialise(_)))));
    let rapport = tester_bmp280(I2cMock::nouveau(), true);
    assert!(rapport.initialisation.is_err());
    assert!(rapport.lectures.is_empty());
    assert!(init_bmp280(bus_bmp280(), true).is_ok());
    assert!(init_bmp280(I2cMock::nouveau(), true).is_err());
}

struct BarometreMock {
    pression: f32,
}

impl BarometreMock {
    fn nouveau() -> Self {
        Self { pression: 101325.0 }
    }

    fn altitude_estimee(&mut self, pression_ref: f32) -> Result<f32, ErreursAirHaum> {
        Ok(44330.0 * (1.0 - (self.pression / pression_ref).powf(0.1903)))
    }
}

#[test]
fn test_altitude_niveau_mer() {
    let mut baro = BarometreMock::nouveau();
    let alt = baro.altitude_estimee(101325.0).unwrap();
    assert!(alt.abs() < 1.0);
}

#[test]
fn premiere_mesure_dt_none() {
    let mut proc = TraitementImu::nouveau();
    let r = proc.avancer(Some(Horodatage::depuis_micros(0))).unwrap();
    assert!(r.is_none(), "Première mesure : dt doit être None");
}

#[test]
fn dt_calcule_correctement() {
    let mut proc = TraitementImu::nouveau();
    proc.avancer(Some(Horodatage::depuis_micros(0)));
    let r = proc.avancer(Some(Horodatage::depuis_micros(5_000))).unwrap();
    assert_eq!(r, Some(5_000));
}

#[test]
fn mesure_invalide_retourne_none() {
    let mut proc = TraitementImu::nouveau();
    assert!(proc.avancer(None).is_none());
    assert!(proc.dernier_horodatage().is_none());
}

#[test]
fn mesure_invalide_ne_perturbe_pas_dt() {
    let mut proc = TraitementImu::nouveau();
    proc.avancer(Some(Horodatage::depuis_micros(0)));
    proc.avancer(None);
    let r = proc.avancer(Some(Horodatage::depuis_micros(10_000))).unwrap();
    assert_eq!(r, Some(10_000));
}

#[test]
fn distance_publiee_sous_la_portee() {
    assert_eq!(distance_publiee(1999, 2000), Some(1999));
    assert_eq!(distance_publiee(2000, 2000), None);
}

#[test]
fn reprise_rapide_jamais_detectee() {
    assert!(!detecter_reprise_rapide(&I2cMock::nouveau()));
}

#[test]
fn horodatage_ecoule() {
    let h = Horodatage::depuis_micros(1_000);
    assert!(h.est_ecoule_a(Horodatage::depuis_micros(3_000), 2_000));
    assert!(!h.est_ecoule_a(Horodatage::depuis_micros(2_999), 2_000));
    assert!(!h.est_ecoule_a(Horodatage::depuis_micros(0), 1));
}

use airhaum::drivers::imu::mpu9250::{Mpu9250, ADRESSE_MPU9250, WHO_AM_I};
use airhaum::taches::capteurs::init_mpu9250;

#[test]
fn mpu9250_test_creation_driver() {
    let i2c = I2cMock::nouveau();
    let _mpu = Mpu9250::nouveau(i2c, ADRESSE_MPU9250);
}

#[test]
fn mpu9250_test_verification_identite() {
    let mut i2c = I2cMock::nouveau();
    i2c.precharger_registre(ADRESSE_MPU9250, WHO_AM_I, 0x71);
    let mut mpu = Mpu9250::nouveau(i2c, ADRESSE_MPU9250);
    assert!(mpu.verifier_identite().unwrap());
}

#[test]
fn mpu9250_test_identite_incorrecte() {
    let mut i2c = I2cMock::nouveau();
    i2c.precharger_registre(ADRESSE_MPU9250, WHO_AM_I, 0xAB);
    let mut mpu = Mpu9250::nouveau(i2c, ADRESSE_MPU9250);
    assert!(!mpu.verifier_identite().unwrap());
}

fn bus_mpu9250() -> I2cMock {
    let mut i2c = I2cMock::nouveau();
    i2c.precharger_registre(ADRESSE_MPU9250, WHO_AM_I, 0x71);
    i2c.precharger_registre(ADRESSE_MPU9250, 0x37, 0x12);
    i2c.precharger_registre(ADRESSE_MPU9250, 0x6A, 0x01);
    for (i, o) in [0xB0u8, 0xB1, 0xB2].iter().enumerate() {
        i2c.precharger_registre(ADRESSE_MPU9250, 0x49 + i as u8, *o);
    }
    let brut: [u8; 14] = [0x10, 0x00, 0xFF, 0xFE, 0x20, 0x00, 0x00, 0x10, 0x00, 0x01, 0x80, 0x00, 0x7F, 0xFF];
    for (i, o) in brut.iter().enumerate() {
        i2c.precharger_registre(ADRESSE_MPU9250, 0x3B + i as u8, *o);
    }
    i2c
}

#[test]
fn mpu9250_initialisation_complete_et_lectures_brutes() {
    let (mut mpu, asa) = init_mpu9250(bus_mpu9250(), false).unwrap();
    assert_eq!(asa, Some([0xB0, 0xB1, 0xB2]));
    assert_eq!(*mpu.obtenir_etat(), airhaum::types::EtatCapteur::Configure);
    let m = mpu.lire_tout_brut().unwrap();
    assert_eq!(m.accel, (0x1000, -2, 0x2000));
    assert_eq!(m.temperature, 0x10);
    assert_eq!(m.gyro, (1, -32768, 32767));
    assert_eq!(mpu.lire_gyro_brut().unwrap(), (1, -32768, 32767));
    assert_eq!(mpu.moyenne_accel_brute(4, 0).unwrap(), (0x1000, -2, 0x2000));
}

#[test]
fn mpu9250_reprise_rapide() {
    let (mpu, asa) = init_mpu9250(bus_mpu9250(), true).unwrap();
    assert!(asa.is_none());
    assert_eq!(*mpu.obtenir_etat(), airhaum::types::EtatCapteur::Operationnel);
    let mut i2c = I2cMock::nouveau();
    i2c.precharger_registre(ADRESSE_MPU9250, WHO_AM_I, 0x73);
    assert!(init_mpu9250(i2c, true).is_err());
}

#[test]
fn bus_en_panne_refuse_identification_et_initialisation() {
    let mut i2c = bus_bmp280();
    i2c.simuler_erreur = true;
    assert!(matches!(Calibration::lire_depuis_capteur(&mut i2c), Err(ErreursAirHaum::ErreurI2C(_))));
    let mut vl = I2cMock::nouveau();
    vl.precharger_registre(ADRESSE_VL53L0X, IDENTIFICATION_MODEL_ID, 0xEE);
    vl.simuler_erreur = true;
    let mut vl53 = Vl53l0x::nouveau(vl, ADRESSE_VL53L0X);
    assert!(matches!(vl53.verifier_identite(), Err(ErreursAirHaum::ErreurI2C(_))));
}

#[test]
fn identifiant_errone_refuse_par_le_driver() {
    let mut i2c = I2cMock::nouveau();
    i2c.precharger_registre(ADRESSE_VL53L0X, IDENTIFICATION_MODEL_ID, 0xAB);
    let mut vl53 = Vl53l0x::nouveau(i2c, ADRESSE_VL53L0X);
    assert_eq!(vl53.verifier_identite().unwrap(), false);
}

#[test]
fn vl53l0x_mesure_simple_assemble_la_distance() {
    let mut i2c = I2cMock::nouveau();
    i2c.precharger_registre(ADRESSE_VL53L0X, 0x13, 0x07);
    i2c.precharger_registre(ADRESSE_VL53L0X, 0x1E, 0x01);
    i2c.precharger_registre(ADRESSE_VL53L0X, 0x1F, 0x2C);
    let mut vl53 = Vl53l0x::nouveau(i2c, ADRESSE_VL53L0X);
    assert_eq!(vl53.mesure_simple().unwrap(), 300);
}

#[test]
fn vl53l0x_mesure_refusee_si_non_initialise() {
    let mut i2c = I2cMock::nouveau();
    i2c.precharger_registre(ADRESSE_VL53L0X, 0x13, 0x07);
    i2c.precharger_registre(ADRESSE_VL53L0X, 0x1E, 0x01);
    i2c.precharger_registre(ADRESSE_VL53L0X, 0x1F, 0x2C);
    let mut vl53 = Vl53l0x::nouveau(i2c, ADRESSE_VL53L0X);
    assert!(matches!(vl53.mesurer_distance(), Err(ErreursAirHaum::CapteurNonInitialise(_))));
}

#[test]
fn mpu9250_moyenne_gyro_de_lectures_identiques() {
    let (mut mpu, _) = init_mpu9250(bus_mpu9250(), false).unwrap();
    assert_eq!(mpu.moyenne_gyro_brute(3, 0).unwrap(), (1, -32768, 32767));
}

#[test]
fn vl53l0x_demarrage_ecrit_les_registres() {
    let mut vl53 = Vl53l0x::nouveau(I2cMock::nouveau(), ADRESSE_VL53L0X);
    vl53.demarrer_mesure().unwrap();
    let bus = vl53.i2c();
    assert_eq!(bus.verifier_registre(ADRESSE_VL53L0X, 0x80), Some(0x00));
    assert_eq!(bus.verifier_registre(ADRESSE_VL53L0X, 0xFF), Some(0x00));
    assert_eq!(bus.verifier_registre(ADRESSE_VL53L0X, 0x91), Some(0x00));
    assert_eq!(bus.verifier_registre(ADRESSE_VL53L0X, 0x00), Some(0x01));
}

#[test]
fn vl53l0x_mesure_acquitte_l_interruption() {
    let mut i2c = I2cMock::nouveau();
    i2c.precharger_registre(ADRESSE_VL53L0X, 0x13, 0x07);
    i2c.precharger_registre(ADRESSE_VL53L0X, 0x1E, 0x01);
    i2c.precharger_registre(ADRESSE_VL53L0X, 0x1F, 0x2C);
    let mut vl53 = Vl53l0x::nouveau(i2c, ADRESSE_VL53L0X);
    assert_eq!(vl53.mesure_simple().unwrap(), 300);
    assert_eq!(vl53.i2c().verifier_registre(ADRESSE_VL53L0X, 0x0B), Some(0x01));
}

#[test]
fn vl53l0x_nouveau_inconnu_sans_trafic() {
    let mut vl53 = Vl53l0x::nouveau(I2cMock::nouveau(), ADRESSE_VL53L0X);
    assert_eq!(*vl53.obtenir_etat(), airhaum::types::EtatCapteur::Inconnu);
    let err = vl53.mesurer_distance().unwrap_err();
    assert!(matches!(err, ErreursAirHaum::CapteurNonInitialise(ref m) if m == "VL53L0X non opérationnel (état: Inconnu)"));
    assert_eq!(vl53.i2c().verifier_registre(ADRESSE_VL53L0X, 0x00), None);
}

#[test]
fn bmp280_messages_d_erreur() {
    let mut i2c = I2cMock::nouveau();
    i2c.precharger_registre(ADRESSE_BMP280, 0xD0, 0x60);
    let mut bmp = Bmp280::nouveau(i2c);
    let err = bmp.initialiser(true).unwrap_err();
    assert!(matches!(err, ErreursAirHaum::DonneesInvalides(ref m) if m == "BMP280 ID invalide: 0x60 (attendu 0x58)"));
    let mut bmp = Bmp280::nouveau(bus_bmp280());
    let err = bmp.lire().unwrap_err();
    assert!(matches!(err, ErreursAirHaum::CapteurNonInitialise(ref m) if m == "BMP280 non opérationnel (état: Inconnu)"));
}

#[test]
fn textes_des_etats_et_erreurs() {
    use_textes();
}

fn use_textes() {
    assert_eq!(airhaum::types::EtatCapteur::Operationnel.texte(), "Opérationnel");
    assert_eq!(airhaum::types::EtatCapteur::Degrade { raison: "x".into() }.texte(), "Dégradé: x");
    assert_eq!(ErreursAirHaum::HorsPortee.texte(), "Hors portée");
    assert_eq!(ErreursAirHaum::ErreurI2C("bus".into()).texte(), "Erreur I2C: bus");
    let mut s = String::new();
    airhaum::systeme::texte::ecrire_centiemes(-2105, &mut s);
    assert_eq!(s, "-21.05");
    let mut s = String::new();
    airhaum::systeme::texte::ecrire_centiemes(7, &mut s);
    assert_eq!(s, "0.07");
}

#[test]
fn test_bmp280_identifiant_errone() {
    let mut i2c = I2cMock::nouveau();
    i2c.precharger_registre(ADRESSE_BMP280, 0xD0, 0x60);
    let r = tester_bmp280(i2c, true);
    assert!(matches!(r.initialisation, Err(ErreursAirHaum::DonneesInvalides(ref m)) if m == "BMP280 ID invalide: 0x60 (attendu 0x58)"));
    assert!(r.lectures.is_empty());
}

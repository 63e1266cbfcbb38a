use std::time::Duration;

use airhaum::drivers::gps::calibration::{depuis_hex, vers_hex};
use airhaum::drivers::telemetre::calibration::CalibrationTelemetre;
use airhaum::systeme::calibration::{examiner_calibration, CalibrationPersistante, GestionnaireCalibration, IssueChargement};
use airhaum::systeme::texte::{champ_requis, parse_u64};
use airhaum::types::{ErreursAirHaum, Horodatage, Result};

#[derive(Debug)]
struct CalibrationTest {
    horodatage: Horodatage,
    valeur: f32,
    validite_sec: u64,
}

impl CalibrationPersistante for CalibrationTest {
    fn identifiant_capteur() -> &'static str {
        "test"
    }

    fn vers_toml(&self) -> String {
        format!(
            "horodatage_micros = {}\nvaleur = {}\nvalidite_sec = {}\n",
            self.horodatage.micros(),
            self.valeur,
            self.validite_sec
        )
    }

    fn depuis_toml(contenu: &str) -> Result<Self> {
        let mut horodatage = None;
        let mut valeur = None;
        let mut validite = None;
        for ligne in contenu.lines() {
            if let Some((cle, val)) = ligne.split_once('=') {
                match cle.trim() {
                    "horodatage_micros" => horodatage = Some(val.trim().parse().unwrap()),
                    "valeur" => valeur = Some(val.trim().parse().unwrap()),
                    "validite_sec" => validite = Some(val.trim().parse().unwrap()),
                    _ => {}
                }
            }
        }
        Ok(Self {
            horodatage: Horodatage::depuis_micros(horodatage.unwrap()),
            valeur: valeur.unwrap(),
            validite_sec: validite.unwrap(),
        })
    }

    fn est_valide(&self) -> bool {
        !self.horodatage.est_ecoule(Duration::from_secs(self.validite_sec))
    }

    fn obtenir_horodatage(&self) -> Horodatage {
        self.horodatage
    }

    fn age_secondes(&self) -> u64 {
        self.horodatage.ecoule().as_secs()
    }
}

#[test]
fn test_serialisation_deserialisation() {
    let calib = CalibrationTest { horodatage: Horodatage::maintenant(), valeur: 42.5, validite_sec: 3600 };
    let toml = calib.vers_toml();
    let calib2 = CalibrationTest::depuis_toml(&toml).unwrap();
    assert_eq!(calib.horodatage.micros(), calib2.horodatage.micros());
    assert!((calib.valeur - calib2.valeur).abs() < 0.001);
    assert_eq!(calib.validite_sec, calib2.validite_sec);
}

#[test]
fn test_validite() {
    let calib = CalibrationTest { horodatage: Horodatage::maintenant(), valeur: 10.0, validite_sec: 3600 };
    assert!(calib.est_valide());
}

#[test]
fn calibration_test_creation_calibration() {
    let calib = CalibrationTelemetre::nouvelle(3600);
    assert!(calib.est_valide());
}

#[test]
fn calibration_test_roundtrip_serialisation() {
    let calib1 = CalibrationTelemetre::nouvelle(3600);
    let toml = calib1.vers_toml();
    let calib2 = CalibrationTelemetre::depuis_toml(&toml).unwrap();
    assert_eq!(calib1.timestamp_unix_sec, calib2.timestamp_unix_sec);
    assert_eq!(calib1.validite_sec, calib2.validite_sec);
}

#[test]
fn texte_calibration_telemetre_exact() {
    let c = CalibrationTelemetre::depuis_champs(1_700_000_000, 3600);
    assert_eq!(
        c.vers_toml(),
        "# Calibration télémètre VL53L0X\n# Générée automatiquement - ne pas éditer manuellement\n\ntimestamp_unix_sec = 1700000000\nvalidite_sec = 3600\n"
    );
    assert_eq!(CalibrationTelemetre::identifiant_capteur(), "telemetre");
}

#[test]
fn relecture_telemetre_espaces_commentaires_et_doublons() {
    let texte = "  # commentaire\r\n\n validite_sec=  10 \ninconnu = x\ntimestamp_unix_sec = +42\nvalidite_sec = 20";
    let c = CalibrationTelemetre::depuis_toml(texte).unwrap();
    assert_eq!(c.timestamp_unix_sec(), 42);
    assert_eq!(c.validite_sec(), 20);
}

#[test]
fn relecture_telemetre_champ_manquant() {
    match CalibrationTelemetre::depuis_toml("timestamp_unix_sec = 5\n") {
        Err(ErreursAirHaum::CalibrationEchouee(m)) => assert_eq!(m, "Champ 'validite_sec' manquant"),
        autre => panic!("erreur attendue, obtenu {:?}", autre),
    }
    match CalibrationTelemetre::depuis_toml("validite_sec = 5\n") {
        Err(ErreursAirHaum::CalibrationEchouee(m)) => assert_eq!(m, "Champ 'timestamp_unix_sec' manquant"),
        autre => panic!("erreur attendue, obtenu {:?}", autre),
    }
}

#[test]
fn relecture_telemetre_valeur_invalide() {
    match CalibrationTelemetre::depuis_toml("timestamp_unix_sec = 12a\nvalidite_sec = 1\n") {
        Err(ErreursAirHaum::CalibrationEchouee(m)) => assert_eq!(m, "Timestamp invalide:  12a"),
        autre => panic!("erreur attendue, obtenu {:?}", autre),
    }
    match CalibrationTelemetre::depuis_toml("validite_sec = -1\ntimestamp_unix_sec = 1\n") {
        Err(ErreursAirHaum::CalibrationEchouee(m)) => assert_eq!(m, "Validité invalide:  -1"),
        autre => panic!("erreur attendue, obtenu {:?}", autre),
    }
}

#[test]
fn validite_telemetre_a_un_instant() {
    let c = CalibrationTelemetre::depuis_champs(1000, 60);
    assert_eq!(c.age_a(1030), 30);
    assert_eq!(c.age_a(900), 0);
    assert!(c.est_valide_a(1059));
    assert!(!c.est_valide_a(1060));
}

#[test]
fn examen_calibration() {
    assert!(matches!(examiner_calibration::<CalibrationTelemetre>(None), IssueChargement::Absente));
    assert!(matches!(examiner_calibration::<CalibrationTelemetre>(Some("nimporte")), IssueChargement::Corrompue(_)));
    assert!(matches!(
        examiner_calibration::<CalibrationTelemetre>(Some("timestamp_unix_sec = 0\nvalidite_sec = 1\n")),
        IssueChargement::Expiree
    ));
    let frais = CalibrationTelemetre::nouvelle(3600).vers_toml();
    let retenue = examiner_calibration::<CalibrationTelemetre>(Some(&frais)).retenue();
    assert!(retenue.is_some());
}

#[test]
fn chemin_des_fichiers_de_calibration() {
    let g = GestionnaireCalibration::nouveau("/home/airhaum/config");
    assert_eq!(g.chemin_base(), "/home/airhaum/config");
    assert_eq!(g.chemin_fichier("barometre"), "/home/airhaum/config/calibration_barometre.toml");
}

#[test]
fn lecture_entiers() {
    assert_eq!(parse_u64(" 42 ").unwrap(), 42);
    assert_eq!(parse_u64("+7").unwrap(), 7);
    assert_eq!(parse_u64("18446744073709551615").unwrap(), u64::MAX);
    match parse_u64(" 18446744073709551616 ") {
        Err(ErreursAirHaum::CalibrationEchouee(m)) => assert_eq!(m, "Valeur u64 invalide: '18446744073709551616'"),
        autre => panic!("erreur attendue, obtenu {:?}", autre),
    }
    assert!(parse_u64("").is_err());
    assert!(parse_u64("+").is_err());
    assert!(parse_u64("-1").is_err());
    assert!(parse_u64("1 2").is_err());
}

#[test]
fn champ_requis_present_ou_manquant() {
    assert_eq!(champ_requis(Some(3u8), "x").unwrap(), 3);
    match champ_requis::<u8>(None, "offset_x") {
        Err(ErreursAirHaum::CalibrationEchouee(m)) => assert_eq!(m, "Champ 'offset_x' manquant"),
        autre => panic!("erreur attendue, obtenu {:?}", autre),
    }
}

#[test]
fn hexadecimal_aller_retour() {
    let octets = vec![0xAA, 0xBB, 0x01, 0x00, 0xFF];
    let texte = vers_hex(&octets);
    assert_eq!(texte, "aabb0100ff");
    assert_eq!(depuis_hex(&texte), Some(octets));
    assert_eq!(vers_hex(&[]), "");
    assert_eq!(depuis_hex(""), Some(vec![]));
}

#[test]
fn hexadecimal_refus() {
    assert_eq!(depuis_hex("abc"), None);
    assert_eq!(depuis_hex("zz"), None);
    assert_eq!(depuis_hex("é"), None);
    assert_eq!(depuis_hex("0A+f"), Some(vec![0x0A, 0x0F]));
}

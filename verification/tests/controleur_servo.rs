use airhaum::drivers::controleur_servo::{choix_debattement, impulsions_debattement, ChoixDebattement, SurfaceVol};
use airhaum::systeme::texte::lire_saisie;
use airhaum::drivers::controleur_servo::{
    ConsignesServos, ControleurServo, EtatArduino, ModeArduino, DEBUT_CONSIGNE, DEBUT_REMONTEE,
    TAILLE_CONSIGNE, TAILLE_REMONTEE, encoder_consigne,
};
use airhaum::hal::uart::PortSerieMock;

fn driver_mock() -> ControleurServo<PortSerieMock> {
    ControleurServo::nouveau(PortSerieMock::nouveau())
}

fn trame_remontee(fanions: u8, canaux: [u16; 5], gaz: u16) -> Vec<u8> {
    let mut t = vec![0u8; TAILLE_REMONTEE];
    t[0] = DEBUT_REMONTEE;
    t[1] = fanions;
    for (i, &c) in canaux.iter().enumerate() {
        let [lo, hi] = c.to_le_bytes();
        t[2 + i * 2] = lo;
        t[3 + i * 2] = hi;
    }
    let [g0, g1] = gaz.to_le_bytes();
    t[12] = g0;
    t[13] = g1;
    t[14] = t[1..14].iter().fold(0u8, |acc, &b| acc ^ b);
    t
}

#[test]
fn encodage_trame_consigne() {
    let mut driver = driver_mock();
    let c = ConsignesServos { ailerons: 1500, profondeur: 1500, gaz: 1000, direction: 1500, arme: false };
    driver.envoyer(&c).unwrap();

    let octets = driver.port.octets_ecrits();
    assert_eq!(octets.len(), TAILLE_CONSIGNE);
    assert_eq!(octets[0], DEBUT_CONSIGNE);

    let checksum_attendu = octets[1..10].iter().fold(0u8, |acc, &b| acc ^ b);
    assert_eq!(octets[10], checksum_attendu);
}

#[test]
fn bit_arme_correct() {
    let mut driver = driver_mock();
    let mut c = ConsignesServos::neutre();

    c.arme = false;
    driver.envoyer(&c).unwrap();
    assert_eq!(driver.port.octets_ecrits()[1] & 0x01, 0);

    c.arme = true;
    driver.envoyer(&c).unwrap();
    let octets = driver.port.octets_ecrits();
    assert_eq!(octets[TAILLE_CONSIGNE + 1] & 0x01, 1);
}

#[test]
fn valeurs_canaux_correctes() {
    let mut driver = driver_mock();
    let c = ConsignesServos { ailerons: 1234, profondeur: 1600, gaz: 1800, direction: 1100, arme: true };
    driver.envoyer(&c).unwrap();

    let o = driver.port.octets_ecrits();
    assert_eq!(u16::from_le_bytes([o[2], o[3]]), 1234);
    assert_eq!(u16::from_le_bytes([o[4], o[5]]), 1600);
    assert_eq!(u16::from_le_bytes([o[6], o[7]]), 1800);
    assert_eq!(u16::from_le_bytes([o[8], o[9]]), 1100);
}

#[test]
fn parse_trame_remontee_nominale() {
    let mut driver = driver_mock();
    let canaux = [1500u16, 1500, 1000, 1500, 1800];
    driver.port.injecter(&trame_remontee(0x00, canaux, 1000));

    let etat = driver.recevoir().unwrap().expect("trame attendue");
    assert_eq!(etat.mode, ModeArduino::Autopilote);
    assert!(!etat.rc_perdu);
    assert!(!etat.chien_de_garde);
    assert_eq!(etat.canaux_rc[0], 1500);
    assert_eq!(etat.canaux_rc[4], 1800);
    assert_eq!(etat.gaz_applique, 1000);
}

#[test]
fn parse_flags_remontee() {
    let mut driver = driver_mock();
    driver.port.injecter(&trame_remontee(0x07, [1500; 5], 1000));

    let etat = driver.recevoir().unwrap().expect("trame attendue");
    assert_eq!(etat.mode, ModeArduino::Manuel);
    assert!(etat.rc_perdu);
    assert!(etat.chien_de_garde);
}

#[test]
fn resynchronisation_sur_checksum_invalide() {
    let mut driver = driver_mock();
    let mut corrompue = trame_remontee(0x00, [1500; 5], 1000);
    corrompue[14] ^= 0xFF;
    let valide = trame_remontee(0x01, [1200, 1300, 1000, 1400, 1800], 1000);

    driver.port.injecter(&corrompue);
    driver.port.injecter(&valide);

    let etat = driver.recevoir().unwrap().expect("trame valide attendue");
    assert_eq!(etat.mode, ModeArduino::Manuel);
    assert_eq!(etat.canaux_rc[0], 1200);
}

#[test]
fn pas_de_trame_si_donnees_insuffisantes() {
    let mut driver = driver_mock();
    driver.port.injecter(&[DEBUT_REMONTEE, 0x00, 0x01]);
    assert!(driver.recevoir().unwrap().is_none());
}

#[test]
fn consignes_neutres_et_etat_absent() {
    let c = ConsignesServos::neutre();
    assert_eq!((c.ailerons, c.profondeur, c.gaz, c.direction, c.arme), (1500, 1500, 1000, 1500, false));
    let e = EtatArduino::absent();
    assert_eq!(e.mode, ModeArduino::Autopilote);
    assert!(e.rc_perdu);
    assert!(!e.chien_de_garde);
    assert_eq!(e.canaux_rc, [1500; 5]);
    assert_eq!(e.gaz_applique, 1000);
}

#[test]
fn encodage_trame_consigne_valeurs_exactes() {
    let c = ConsignesServos { ailerons: 0x0102, profondeur: 0x0304, gaz: 0x0506, direction: 0x0708, arme: true };
    let t = encoder_consigne(&c);
    let xor = 0x01 ^ 0x02 ^ 0x01 ^ 0x04 ^ 0x03 ^ 0x06 ^ 0x05 ^ 0x08 ^ 0x07;
    assert_eq!(t, [0xAA, 0x01, 0x02, 0x01, 0x04, 0x03, 0x06, 0x05, 0x08, 0x07, xor]);
}

#[test]
fn octets_parasites_ecartes_et_trame_scindee() {
    let mut driver = driver_mock();
    let t = trame_remontee(0x02, [1100, 1200, 1300, 1400, 1500], 1600);
    driver.port.injecter(&[0x00, 0x11, 0x22]);
    driver.port.injecter(&t[..7]);
    assert!(driver.recevoir().unwrap().is_none());
    driver.port.injecter(&t[7..]);
    let etat = driver.recevoir().unwrap().expect("trame complétée attendue");
    assert!(etat.rc_perdu);
    assert_eq!(etat.canaux_rc, [1100, 1200, 1300, 1400, 1500]);
    assert_eq!(etat.gaz_applique, 1600);
}

#[test]
fn recevoir_sans_donnees_retourne_none() {
    let mut driver = driver_mock();
    assert!(driver.recevoir().unwrap().is_none());
}

#[test]
fn trame_reconnue_apres_parasites_et_suite_conservee() {
    let mut driver = driver_mock();
    let t1 = trame_remontee(0x01, [1000, 1100, 1200, 1300, 1400], 1000);
    let t2 = trame_remontee(0x04, [2000, 1900, 1800, 1700, 1600], 1500);
    let mut flux = vec![0x10, 0x20];
    flux.extend_from_slice(&t1);
    flux.extend_from_slice(&t2[..5]);
    let e1 = driver.accepter_octets(&flux).expect("première trame");
    assert_eq!(e1.canaux_rc, [1000, 1100, 1200, 1300, 1400]);
    let e2 = driver.accepter_octets(&t2[5..]).expect("seconde trame complétée");
    assert!(e2.chien_de_garde);
    assert_eq!(e2.gaz_applique, 1500);
}

#[test]
fn envoi_emet_trame_entiere_exacte() {
    let mut driver = driver_mock();
    let c = ConsignesServos { ailerons: 1500, profondeur: 1500, gaz: 1000, direction: 1500, arme: false };
    driver.envoyer(&c).unwrap();
    assert_eq!(
        driver.port.octets_ecrits(),
        &[0xAA, 0x00, 0xDC, 0x05, 0xDC, 0x05, 0xE8, 0x03, 0xDC, 0x05, 0x32]
    );
}

#[test]
fn envois_successifs_ajoutes_bout_a_bout() {
    let mut driver = driver_mock();
    let c1 = ConsignesServos { ailerons: 1234, profondeur: 1600, gaz: 1800, direction: 1100, arme: true };
    let c2 = ConsignesServos::neutre();
    driver.envoyer(&c1).unwrap();
    driver.envoyer(&c2).unwrap();
    let octets = driver.port.octets_ecrits();
    assert_eq!(octets.len(), 2 * TAILLE_CONSIGNE);
    assert_eq!(&octets[..TAILLE_CONSIGNE], &encoder_consigne(&c1)[..]);
    assert_eq!(&octets[TAILLE_CONSIGNE..], &encoder_consigne(&c2)[..]);
}

#[test]
fn lecture_consomme_au_plus_soixante_quatre_octets() {
    let mut driver = driver_mock();
    let mut flux = vec![0x00u8; 60];
    flux.extend_from_slice(&trame_remontee(0x01, [1500; 5], 1000));
    driver.port.injecter(&flux);
    // 64 octets lus : 60 parasites et le début de la trame, qui reste en tampon.
    assert!(driver.recevoir().unwrap().is_none());
    let etat = driver.recevoir().unwrap().expect("trame complétée à la lecture suivante");
    assert_eq!(etat.mode, ModeArduino::Manuel);
    assert!(driver.recevoir().unwrap().is_none());
}

#[test]
fn menu_test_debattements() {
    assert_eq!(choix_debattement(lire_saisie("1")), ChoixDebattement::Tester(SurfaceVol::Ailerons));
    assert_eq!(choix_debattement(lire_saisie(" 2 ")), ChoixDebattement::Tester(SurfaceVol::Profondeur));
    assert_eq!(choix_debattement(lire_saisie("3")), ChoixDebattement::Tester(SurfaceVol::Direction));
    assert_eq!(choix_debattement(lire_saisie("Q")), ChoixDebattement::Quitter);
    assert_eq!(choix_debattement(lire_saisie("4")), ChoixDebattement::Invalide);
    assert_eq!(choix_debattement(lire_saisie("12")), ChoixDebattement::Invalide);
    assert_eq!(impulsions_debattement(), [1000, 2000, 1500]);
}

#[test]
fn port_simule_emis_est_la_concatenation_des_ecritures() {
    use_port();
}

fn use_port() {
    let mut m = PortSerieMock::nouveau();
    assert!(m.octets_ecrits().is_empty());
    assert_eq!(airhaum::hal::uart::PortSerie::ecrire(&mut m, &[1, 2, 3]).unwrap(), 3);
    m.injecter(&[9, 9]);
    let mut buf = [0u8; 1];
    assert_eq!(airhaum::hal::uart::PortSerie::lire(&mut m, &mut buf).unwrap(), 1);
    assert_eq!(airhaum::hal::uart::PortSerie::ecrire(&mut m, &[4, 5]).unwrap(), 2);
    assert_eq!(m.octets_ecrits(), &[1, 2, 3, 4, 5]);
}

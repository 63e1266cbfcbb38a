use airhaum::drivers::gps::ubx_parser::UbxParseur;
use airhaum::drivers::gps::ublox::{construire_trame_ubx, detecter_protocole, envoyer_ubx, DriverGps, ProtocoleDetecte};
use airhaum::hal::uart::PortSerieMock;
use airhaum::interfaces::gps::CapteurGps;
use airhaum::types::TypeFixGps;

fn trame_ubx(classe: u8, id: u8, payload: &[u8]) -> Vec<u8> {
    let len = payload.len() as u16;
    let mut trame = vec![0xB5, 0x62, classe, id, (len & 0xFF) as u8, (len >> 8) as u8];
    trame.extend_from_slice(payload);
    let mut ck_a = 0u8;
    let mut ck_b = 0u8;
    for &b in &trame[2..] {
        ck_a = ck_a.wrapping_add(b);
        ck_b = ck_b.wrapping_add(ck_a);
    }
    trame.push(ck_a);
    trame.push(ck_b);
    trame
}

fn trame_nav_pvt(lat_e7: i32, lon_e7: i32, h_msl_mm: i32, fix_type: u8, g_speed_mm: i32, num_sv: u8) -> Vec<u8> {
    let mut payload = [0u8; 92];
    payload[20] = fix_type;
    payload[23] = num_sv;
    payload[24..28].copy_from_slice(&lon_e7.to_le_bytes());
    payload[28..32].copy_from_slice(&lat_e7.to_le_bytes());
    payload[36..40].copy_from_slice(&h_msl_mm.to_le_bytes());
    payload[60..64].copy_from_slice(&g_speed_mm.to_le_bytes());
    trame_ubx(0x01, 0x07, &payload)
}

#[test]
fn resync_sur_octets_aleatoires() {
    let mut p = UbxParseur::nouveau();
    for &b in &[0x00, 0xFF, 0xB5, 0x00, 0xAA] {
        assert!(!p.alimenter(b));
    }
    let trame = trame_ubx(0x05, 0x01, &[]);
    let n = trame.len();
    for (i, &b) in trame.iter().enumerate() {
        let complet = p.alimenter(b);
        if i == n - 1 {
            assert!(complet, "la trame doit être reconnue au dernier octet");
        } else {
            assert!(!complet);
        }
    }
    let h = p.last_entete().expect("entête attendu");
    assert_eq!(h.classe, 0x05);
    assert_eq!(h.id, 0x01);
}

#[test]
fn checksum_invalide_ignore() {
    let mut trame = trame_ubx(0x01, 0x07, &[0u8; 92]);
    let n = trame.len();
    trame[n - 1] ^= 0xFF;
    let mut p = UbxParseur::nouveau();
    let mut complet = false;
    for &b in &trame {
        complet |= p.alimenter(b);
    }
    assert!(!complet, "trame avec checksum invalide doit être rejetée");
    assert!(p.last_nav_pvt().is_none());
}

#[test]
fn offsets_velocites_nav_pvt() {
    let mut payload = [0u8; 92];
    payload[36..40].copy_from_slice(&50_000i32.to_le_bytes());
    payload[48..52].copy_from_slice(&1_000i32.to_le_bytes());
    payload[52..56].copy_from_slice(&2_000i32.to_le_bytes());
    payload[56..60].copy_from_slice(&3_000i32.to_le_bytes());
    payload[60..64].copy_from_slice(&4_000i32.to_le_bytes());
    payload[20] = 3;

    let trame = trame_ubx(0x01, 0x07, &payload);
    let mut p = UbxParseur::nouveau();
    for &b in &trame {
        p.alimenter(b);
    }

    let pvt = p.last_nav_pvt().expect("NAV-PVT attendu");
    assert_eq!(pvt.vel_n, 1_000, "velN");
    assert_eq!(pvt.vel_e, 2_000, "velE");
    assert_eq!(pvt.vel_d, 3_000, "velD");
    assert_eq!(pvt.g_speed, 4_000, "gSpeed");
    assert_eq!(pvt.fix_type, 3);
}

#[test]
fn nav_dop_parse() {
    let mut payload = [0u8; 18];
    payload[12..14].copy_from_slice(&120u16.to_le_bytes());
    let trame = trame_ubx(0x01, 0x04, &payload);
    let mut p = UbxParseur::nouveau();
    for &b in &trame {
        p.alimenter(b);
    }
    let dop = p.last_nav_dop().expect("NAV-DOP attendu");
    assert_eq!(dop.h_dop, 120);
}

#[test]
fn nav_status_parse_et_copie_payload() {
    let mut payload = [0u8; 16];
    payload[0..4].copy_from_slice(&123_456u32.to_le_bytes());
    payload[4] = 3;
    payload[8..12].copy_from_slice(&30_000u32.to_le_bytes());
    let trame = trame_ubx(0x01, 0x03, &payload);
    let mut p = UbxParseur::nouveau();
    for &b in &trame {
        p.alimenter(b);
    }
    let st = p.last_nav_status().expect("NAV-STATUS attendu");
    assert_eq!(st.i_tow, 123_456);
    assert_eq!(st.gps_fix, 3);
    assert_eq!(st.ttff, 30_000);
    let mut dest = [0xEEu8; 20];
    assert_eq!(p.copier_payload(&mut dest), 16);
    assert_eq!(&dest[..16], &payload[..]);
    assert_eq!(dest[16], 0xEE);
}

#[test]
fn payload_trop_long_ignore() {
    let mut p = UbxParseur::nouveau();
    // longueur annoncée 513 > 512
    for &b in &[0xB5, 0x62, 0x01, 0x07, 0x01, 0x02] {
        assert!(!p.alimenter(b));
    }
    assert!(p.last_entete().is_none());
    let trame = trame_ubx(0x05, 0x01, &[1, 2, 3]);
    let mut complet = false;
    for &b in &trame {
        complet |= p.alimenter(b);
    }
    assert!(complet);
}

#[test]
fn trame_construite_egale_reference_et_reconnue() {
    let payload = [0x01u8, 0x07, 0, 1, 0, 0, 0, 0];
    let t = construire_trame_ubx(0x06, 0x01, &payload);
    assert_eq!(t, trame_ubx(0x06, 0x01, &payload));
    let mut port = PortSerieMock::nouveau();
    envoyer_ubx(&mut port, 0x06, 0x01, &payload).unwrap();
    assert_eq!(port.octets_ecrits(), &t[..]);
    let mut p = UbxParseur::nouveau();
    let n = t.len();
    for (i, &b) in t.iter().enumerate() {
        assert_eq!(p.alimenter(b), i == n - 1);
    }
}

#[test]
fn detection_protocole() {
    assert_eq!(detecter_protocole(&[]), ProtocoleDetecte::Aucun);
    assert_eq!(detecter_protocole(&[0x00, 0xB5, 0x62, 0x01]), ProtocoleDetecte::Ubx);
    assert_eq!(detecter_protocole(b"xx$GPGGA,"), ProtocoleDetecte::Nmea);
    assert_eq!(detecter_protocole(&[0x24, 0x47, 0xB5, 0x62]), ProtocoleDetecte::Ubx);
    assert_eq!(detecter_protocole(&[0x12, 0x34, 0xB5]), ProtocoleDetecte::Inconnu);
}

#[test]
fn pas_de_donnee_avant_premiere_trame() {
    let mock = PortSerieMock::nouveau();
    let driver = DriverGps::nouveau(mock);
    assert!(driver.derniere_donnee().is_none());
    assert!(!driver.est_operationnel());
}

#[test]
fn fix_invalide_non_operationnel() {
    let mut mock = PortSerieMock::nouveau();
    let trame = trame_nav_pvt(0, 0, 0, 0, 0, 0);
    mock.injecter(&trame);

    let mut driver = DriverGps::nouveau(mock);
    driver.mettre_a_jour();
    assert!(!driver.est_operationnel());
}

#[test]
fn retourne_false_sans_donnees() {
    let mock = PortSerieMock::nouveau();
    let mut driver = DriverGps::nouveau(mock);
    assert!(!driver.mettre_a_jour());
}

#[test]
fn position_extraite_apres_trame_valide() {
    let trame = trame_nav_pvt(488_566_000, 23_522_000, 50_000, 3, 5_000, 8);
    let mut driver = DriverGps::nouveau(PortSerieMock::nouveau());
    driver.initialiser().unwrap();
    driver.port_mut().injecter(&trame);
    let nouvelle = (0..5).any(|_| driver.mettre_a_jour());
    assert!(nouvelle, "une nouvelle position doit être détectée");
    let d = driver.derniere_donnee().expect("données attendues");
    assert_eq!(d.latitude, 488_566_000);
    assert_eq!(d.longitude, 23_522_000);
    assert_eq!(d.altitude_msl, 50_000);
    assert_eq!(d.vitesse_sol, 5_000);
    assert_eq!(d.nombre_satellites, 8);
    assert_eq!(d.type_fix, TypeFixGps::Fix3D);
    assert!(driver.est_operationnel());
}

#[test]
fn initialisation_nmea_puis_configuration_ubx() {
    let mut mock = PortSerieMock::nouveau();
    mock.injecter(b"$GPGGA,123519,4807.038,N");
    let mut driver = DriverGps::nouveau(mock);
    driver.initialiser().unwrap();
    let emis = driver.port_mut().octets_ecrits().to_vec();
    let mut attendu = Vec::new();
    for id in 0..6u8 {
        attendu.extend(trame_ubx(0x06, 0x01, &[0xF0, id, 0, 0, 0, 0, 0, 0]));
    }
    attendu.extend(trame_ubx(0x06, 0x00, &[
        0x01, 0x00, 0x00, 0x00, 0xD0, 0x08, 0x00, 0x00, 0x00, 0xC2, 0x01, 0x00, 0x07, 0x00, 0x01, 0x00, 0x00, 0x00, 0x00, 0x00,
    ]));
    for id in [0x07u8, 0x04, 0x03, 0x20] {
        attendu.extend(trame_ubx(0x06, 0x01, &[0x01, id, 0, 1, 0, 0, 0, 0]));
    }
    attendu.extend(trame_ubx(0x06, 0x08, &[0x64, 0x00, 0x01, 0x00, 0x01, 0x00]));
    assert_eq!(emis, attendu);
}

#[test]
fn initialisation_ubx_sans_bascule() {
    let mut mock = PortSerieMock::nouveau();
    mock.injecter(&[0xB5, 0x62, 0x01, 0x07]);
    let mut driver = DriverGps::nouveau(mock);
    driver.initialiser().unwrap();
    let emis = driver.port_mut().octets_ecrits().to_vec();
    assert_eq!(emis.len(), 4 * 16 + 14);
    assert!(driver.derniere_donnee().is_none());
}

#[test]
fn flux_de_trames_valides_et_invalides() {
    let mut p = UbxParseur::nouveau();
    let mut flux = trame_ubx(0x01, 0x03, &[1, 2, 3, 4]);
    let mut corrompue = trame_ubx(0x05, 0x01, &[9, 9]);
    let dernier = corrompue.len() - 1;
    corrompue[dernier] = 0xB5;
    flux.extend_from_slice(&corrompue);
    flux.extend_from_slice(&trame_ubx(0x0A, 0x04, &[7]));
    let mut reconnues = Vec::new();
    for (i, &b) in flux.iter().enumerate() {
        if p.alimenter(b) {
            reconnues.push(i);
        }
    }
    assert_eq!(reconnues, vec![11, flux.len() - 1]);
    let entete = p.last_entete().unwrap();
    assert_eq!((entete.classe, entete.id, entete.longueur), (0x0A, 0x04, 1));
}

use airhaum::hal::i2c::{BusI2c, I2cMock};
use airhaum::types::ErreursAirHaum;

#[test]
fn test_mock_ecriture_lecture_u8() {
    let mut i2c = I2cMock::nouveau();
    i2c.ecrire_registre_u8(0x76, 0xF4, 0x27).unwrap();
    assert_eq!(i2c.verifier_registre(0x76, 0xF4), Some(0x27));
}

#[test]
fn test_mock_lecture_registre_precharge() {
    let mut i2c = I2cMock::nouveau();
    i2c.precharger_registre(0x76, 0xD0, 0x58);
    let id = i2c.lire_registre_u8(0x76, 0xD0).unwrap();
    assert_eq!(id, 0x58);
}

#[test]
fn test_mock_lecture_u16_le() {
    let mut i2c = I2cMock::nouveau();
    i2c.precharger_registre(0x76, 0x88, 0x12);
    i2c.precharger_registre(0x76, 0x89, 0x34);
    let valeur = i2c.lire_registre_u16_le(0x76, 0x88).unwrap();
    assert_eq!(valeur, 0x3412);
}

#[test]
fn test_mock_lecture_u16_be() {
    let mut i2c = I2cMock::nouveau();
    i2c.precharger_registre(0x76, 0x88, 0x12);
    i2c.precharger_registre(0x76, 0x89, 0x34);
    let valeur = i2c.lire_registre_u16_be(0x76, 0x88).unwrap();
    assert_eq!(valeur, 0x1234);
}

#[test]
fn test_mock_simuler_erreur() {
    let mut i2c = I2cMock::nouveau();
    i2c.simuler_erreur = true;
    assert!(i2c.lire_registre_u8(0x76, 0xD0).is_err());
    assert!(i2c.ecrire_registre_u8(0x76, 0xF4, 0x27).is_err());
}

#[test]
fn test_mock_ecrire_registre_vide() {
    let mut i2c = I2cMock::nouveau();
    assert!(i2c.ecrire(0x76, &[0xF4]).is_ok());
}

#[test]
fn test_mock_ecrire_lire_registre_manquant() {
    let mut i2c = I2cMock::nouveau();
    let mut buf = [0u8; 1];
    let err = i2c.ecrire_lire(0x76, &[0xFF], &mut buf);
    assert!(err.is_err());
    let msg = format!("{:?}", err.unwrap_err());
    assert!(msg.contains("non préchargé"));
}

#[test]
fn test_mock_lire_brut_sequentiel() {
    let mut i2c = I2cMock::nouveau();
    i2c.precharger_registre(0x68, 0x00, 0xAA);
    i2c.precharger_registre(0x68, 0x01, 0xBB);
    let mut buf = [0u8; 2];
    i2c.lire(0x68, &mut buf).unwrap();
    assert_eq!(buf, [0xAA, 0xBB]);
}

#[test]
fn test_lire_avec_horodatage() {
    let mut i2c = I2cMock::nouveau();
    i2c.precharger_registre(0x76, 0xF7, 0x51);
    i2c.precharger_registre(0x76, 0xF8, 0x80);
    i2c.precharger_registre(0x76, 0xF9, 0x00);

    let mut buf = [0u8; 3];
    let ts = i2c.lire_avec_horodatage(0x76, &[0xF7], &mut buf).unwrap();

    assert_eq!(buf, [0x51, 0x80, 0x00]);
    assert!(ts.micros() < 1_000_000);
}

#[test]
fn ecriture_multiple_rebouclage_registres() {
    let mut i2c = I2cMock::nouveau();
    i2c.ecrire(0x10, &[0xFF, 0x01, 0x02]).unwrap();
    assert_eq!(i2c.verifier_registre(0x10, 0xFF), Some(0x01));
    assert_eq!(i2c.verifier_registre(0x10, 0x00), Some(0x02));
    assert_eq!(i2c.verifier_registre(0x11, 0x00), None);
}

#[test]
fn lecture_brute_registre_absent_vaut_zero() {
    let mut i2c = I2cMock::nouveau();
    i2c.precharger_registre(0x68, 0x01, 0x42);
    let mut buf = [0xFFu8; 3];
    i2c.lire(0x68, &mut buf).unwrap();
    assert_eq!(buf, [0x00, 0x42, 0x00]);
}

#[test]
fn ecrire_lire_registre_vide_refuse() {
    let mut i2c = I2cMock::nouveau();
    let mut buf = [0u8; 1];
    assert!(i2c.ecrire_lire(0x76, &[], &mut buf).is_err());
}

#[test]
fn panne_simulee_par_setter() {
    let mut i2c = I2cMock::nouveau();
    i2c.precharger_registre(0x76, 0xD0, 0x58);
    i2c.simuler_panne(true);
    assert!(i2c.simuler_erreur);
    let err = i2c.ecrire_registre_u8(0x76, 0xF4, 0x27).unwrap_err();
    assert!(matches!(err, ErreursAirHaum::ErreurI2C(ref m) if m == "Erreur simulée"));
    assert_eq!(i2c.verifier_registre(0x76, 0xF4), None);
    assert!(i2c.lire_registre_u8(0x76, 0xD0).is_err());
    i2c.simuler_panne(false);
    assert_eq!(i2c.lire_registre_u8(0x76, 0xD0).unwrap(), 0x58);
}

#[test]
fn ecriture_registre_u8_relue() {
    let mut i2c = I2cMock::nouveau();
    i2c.precharger_registre(0x76, 0xF5, 0x11);
    i2c.ecrire_registre_u8(0x76, 0xF4, 0x27).unwrap();
    assert_eq!(i2c.verifier_registre(0x76, 0xF4), Some(0x27));
    assert_eq!(i2c.verifier_registre(0x76, 0xF5), Some(0x11));
    assert_eq!(i2c.lire_registre_u8(0x76, 0xF4).unwrap(), 0x27);
}

#[test]
fn message_registre_absent_exact() {
    let mut i2c = I2cMock::nouveau();
    i2c.precharger_registre(0x29, 0x1E, 0x01);
    let mut buf = [0u8; 3];
    let err = i2c.ecrire_lire(0x29, &[0x1E], &mut buf).unwrap_err();
    assert!(matches!(err, ErreursAirHaum::ErreurI2C(ref m) if m == "Mock : registre 0x29:0x1F non préchargé"));
}

#[test]
fn message_registre_vide_exact() {
    let mut i2c = I2cMock::nouveau();
    let mut buf = [0u8; 1];
    let err = i2c.ecrire_lire(0x76, &[], &mut buf).unwrap_err();
    assert!(matches!(err, ErreursAirHaum::ErreurI2C(ref m)
        if m == "ecrire_lire : le slice 'registre' ne peut pas être vide"));
}

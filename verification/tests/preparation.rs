use airhaum::diagnostiques::statistiques_distances;
use airhaum::drivers::controleur_servo::{ConsignesServos, SurfaceVol, IMPULSION_MAX_US, IMPULSION_MIN_US, IMPULSION_NEUTRE_US};
use airhaum::mission::preparation::{
    choix_bilan, gps_apte, liaison_apte, ChecklisteArmement, ChoixBilan, ChoixChecklist, ConstatsArmement,
    VerdictArmement,
};
use airhaum::systeme::calibration::{issue_examen, IssueChargement};
use airhaum::systeme::texte::{lire_saisie, Saisie};
use airhaum::types::ErreursAirHaum;

fn tout_bon() -> ConstatsArmement {
    ConstatsArmement {
        calibration_gyro: true,
        calibration_accel: true,
        calibration_baro: true,
        estimation_active: true,
        liaison_arduino: true,
        gps: true,
        calibration_mag: true,
    }
}

#[test]
fn saisie_rognee() {
    assert_eq!(lire_saisie(""), Saisie::Vide);
    assert_eq!(lire_saisie("  \n"), Saisie::Vide);
    assert_eq!(lire_saisie(" q\n"), Saisie::Touche('q'));
    assert_eq!(lire_saisie("11\n"), Saisie::Autre);
    assert_eq!(lire_saisie("é"), Saisie::Touche('é'));
}

#[test]
fn bilan_choix_par_touche() {
    assert_eq!(choix_bilan(lire_saisie("\n")), ChoixBilan::Continuer);
    assert_eq!(choix_bilan(lire_saisie("Q")), ChoixBilan::Quitter);
    assert_eq!(choix_bilan(lire_saisie("g")), ChoixBilan::RecalibrerGyro);
    assert_eq!(choix_bilan(lire_saisie("A")), ChoixBilan::RecalibrerAccel);
    assert_eq!(choix_bilan(lire_saisie("m")), ChoixBilan::RecalibrerMag);
    assert_eq!(choix_bilan(lire_saisie("b")), ChoixBilan::RecalibrerBaro);
    assert_eq!(choix_bilan(lire_saisie("j")), ChoixBilan::Journal);
    assert_eq!(choix_bilan(lire_saisie("x")), ChoixBilan::NonReconnu);
    assert_eq!(choix_bilan(lire_saisie("gg")), ChoixBilan::NonReconnu);
}

#[test]
fn calibration_a_renouveler_si_absente_ou_expiree() {
    assert!(IssueChargement::<u8>::Absente.a_renouveler());
    assert!(IssueChargement::<u8>::Expiree.a_renouveler());
    assert!(!IssueChargement::<u8>::Valide(1).a_renouveler());
    assert!(!IssueChargement::<u8>::Corrompue(ErreursAirHaum::Timeout).a_renouveler());
}

#[test]
fn gps_apte_seuils() {
    assert!(gps_apte(true, 6, 5000));
    assert!(!gps_apte(true, 5, 1000));
    assert!(!gps_apte(true, 12, 5001));
    assert!(!gps_apte(true, 12, 5009));
    assert!(!gps_apte(false, 12, 1000));
}

#[test]
fn liaison_apte_exige_rc() {
    assert!(liaison_apte(true, true, false));
    assert!(!liaison_apte(true, true, true));
    assert!(!liaison_apte(true, false, false));
    assert!(!liaison_apte(false, true, false));
}

#[test]
fn checkliste_prevol_requis() {
    let mut l = ChecklisteArmement::nouvelle();
    let c = tout_bon();
    assert_eq!(l.verdict(&c), VerdictArmement::Bloque);
    assert_eq!(l.traiter_saisie(lire_saisie("p"), &c), ChoixChecklist::Reafficher);
    assert!(l.prevol_confirme);
    assert_eq!(l.verdict(&c), VerdictArmement::Pret);
    assert_eq!(l.traiter_saisie(lire_saisie(""), &c), ChoixChecklist::Continuer);
}

#[test]
fn checkliste_avertissements_acquittes() {
    let mut l = ChecklisteArmement::nouvelle();
    let c = ConstatsArmement { gps: false, calibration_mag: false, ..tout_bon() };
    l.traiter_saisie(lire_saisie("P"), &c);
    assert_eq!(l.verdict(&c), VerdictArmement::AvertissementsActifs);
    l.traiter_saisie(lire_saisie("g"), &c);
    assert!(l.acquitte_gps);
    assert_eq!(l.verdict(&c), VerdictArmement::AvertissementsActifs);
    l.traiter_saisie(lire_saisie("M"), &c);
    assert!(l.acquitte_mag);
    assert_eq!(l.verdict(&c), VerdictArmement::Pret);
    assert_eq!(l.traiter_saisie(lire_saisie("q"), &c), ChoixChecklist::Quitter);
    assert_eq!(l.traiter_saisie(lire_saisie("j"), &c), ChoixChecklist::Journal);
}

#[test]
fn checkliste_acquittement_gps_sans_objet_si_gps_apte() {
    let mut l = ChecklisteArmement::nouvelle();
    l.traiter_saisie(lire_saisie("g"), &tout_bon());
    assert!(!l.acquitte_gps);
}

#[test]
fn checkliste_bloquant_non_acquittable() {
    let mut l = ChecklisteArmement::nouvelle();
    let c = ConstatsArmement { calibration_baro: false, ..tout_bon() };
    for s in ["p", "g", "m", "x"] {
        l.traiter_saisie(lire_saisie(s), &c);
    }
    assert_eq!(l.verdict(&c), VerdictArmement::Bloque);
}

#[test]
fn consigne_debattement_par_surface() {
    let c = ConsignesServos::pour_surface(SurfaceVol::Profondeur, IMPULSION_MAX_US);
    assert_eq!(c.profondeur, IMPULSION_MAX_US);
    assert_eq!(c.ailerons, IMPULSION_NEUTRE_US);
    assert_eq!(c.direction, IMPULSION_NEUTRE_US);
    assert_eq!(c.gaz, IMPULSION_MIN_US);
    assert!(!c.arme);
    let d = ConsignesServos::pour_surface(SurfaceVol::Direction, IMPULSION_MIN_US);
    assert_eq!(d.direction, IMPULSION_MIN_US);
    assert_eq!(d.profondeur, IMPULSION_NEUTRE_US);
}

#[test]
fn statistiques_serie_de_distances() {
    assert!(statistiques_distances(&vec![]).is_none());
    let st = statistiques_distances(&vec![120, 80, 8000, 95]).unwrap();
    assert_eq!((st.min, st.max, st.somme, st.nombre), (80, 8000, 8295, 4));
}

#[test]
fn issue_examen_par_lecture() {
    assert!(matches!(issue_examen::<u8>(None), IssueChargement::Absente));
    assert!(matches!(
        issue_examen::<u8>(Some(Err(ErreursAirHaum::Timeout))),
        IssueChargement::Corrompue(ErreursAirHaum::Timeout)
    ));
    assert!(matches!(issue_examen(Some(Ok((7u8, true)))), IssueChargement::Valide(7)));
    assert!(matches!(issue_examen(Some(Ok((7u8, false)))), IssueChargement::Expiree));
}

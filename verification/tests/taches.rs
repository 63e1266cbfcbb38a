use airhaum::systeme::journalisation::{decision_fil_de_vie, echapper_json, DecisionFilDeVie, NiveauJournal};
use airhaum::taches::gps::{fix_change, mesure_valide, tendance_satellites, TendanceSatellites};
use airhaum::taches::reprise::{EvenementTache, PhaseTache, PolitiqueReprise, Publication, SuperviseurTache};
use airhaum::types::{ErreursAirHaum, TypeFixGps};
use airhaum::taches::capteurs::issue_mesure_telemetre;

#[test]
fn reinitialisation_apres_cinq_erreurs_de_lecture() {
    let mut s = SuperviseurTache::nouveau(PolitiqueReprise::bmp280());
    let a = s.traiter(EvenementTache::InitReussie);
    assert_eq!(a.pause_ms, 0);
    assert_eq!(s.phase, PhaseTache::Lecture);
    for n in 1..5u32 {
        let a = s.traiter(EvenementTache::LectureEchouee);
        assert_eq!(a.publication, Some(Publication { valide: false, erreurs_consecutives: n }));
        assert_eq!(a.pause_ms, 50);
        assert!(a.compter_erreur && !a.compter_reinit);
        assert_eq!(s.phase, PhaseTache::Lecture);
    }
    let a = s.traiter(EvenementTache::LectureEchouee);
    assert_eq!(a.publication, Some(Publication { valide: false, erreurs_consecutives: 5 }));
    assert_eq!(a.pause_ms, 100);
    assert!(a.compter_erreur && a.compter_reinit);
    assert_eq!(s.phase, PhaseTache::Initialisation);
    assert_eq!(s.erreurs_consecutives, 0);
    assert_eq!(s.backoff_ms, 200);
}

#[test]
fn backoff_exponentiel_puis_suspension() {
    let mut s = SuperviseurTache::nouveau(PolitiqueReprise::bmp280());
    let attendues = [100u64, 200, 400, 800, 1600, 3200, 5000, 5000, 5000, 30_000];
    for (k, &pause) in attendues.iter().enumerate() {
        let a = s.traiter(EvenementTache::InitEchouee);
        assert_eq!(a.pause_ms, pause, "tentative {}", k + 1);
        assert_eq!(a.publication, Some(Publication { valide: false, erreurs_consecutives: k as u32 + 1 }));
        assert!(a.compter_reinit);
    }
    assert_eq!(s.nb_reinit, 0);
    assert_eq!(s.backoff_ms, 100);
}

#[test]
fn lecture_reussie_remet_a_zero() {
    let mut s = SuperviseurTache::nouveau(PolitiqueReprise::vl53l0x());
    s.traiter(EvenementTache::InitEchouee);
    s.traiter(EvenementTache::InitReussie);
    s.traiter(EvenementTache::LectureEchouee);
    let a = s.traiter(EvenementTache::LectureReussie { valide: true });
    assert_eq!(a.publication, Some(Publication { valide: true, erreurs_consecutives: 0 }));
    assert!(!a.compter_erreur && !a.compter_reinit);
    assert_eq!(a.pause_ms, 0);
    assert_eq!(s.erreurs_consecutives, 0);
    assert_eq!(s.backoff_ms, 100);
}

#[test]
fn gps_silence_prolonge() {
    let mut s = SuperviseurTache::nouveau(PolitiqueReprise::gps());
    s.traiter(EvenementTache::InitReussie);
    for _ in 1..50 {
        let a = s.traiter(EvenementTache::LectureEchouee);
        assert_eq!(a.publication, None);
        assert!(!a.compter_erreur);
        assert_eq!(a.pause_ms, 200);
    }
    let a = s.traiter(EvenementTache::LectureEchouee);
    assert_eq!(a.publication, Some(Publication { valide: false, erreurs_consecutives: 50 }));
    assert!(a.compter_erreur && a.compter_reinit);
    assert_eq!(a.pause_ms, 200);
    assert_eq!(s.phase, PhaseTache::Initialisation);
    assert_eq!(s.backoff_ms, 400);
    let a = s.traiter(EvenementTache::InitReussie);
    assert_eq!(a.publication, None);
    let a = s.traiter(EvenementTache::LectureReussie { valide: false });
    assert_eq!(a.publication, Some(Publication { valide: false, erreurs_consecutives: 0 }));
}

#[test]
fn suivi_du_fix_gps() {
    assert!(fix_change(None, TypeFixGps::Aucun));
    assert!(!fix_change(Some(TypeFixGps::Fix3D), TypeFixGps::Fix3D));
    assert!(fix_change(Some(TypeFixGps::Fix2D), TypeFixGps::Fix3D));
    assert_eq!(tendance_satellites(6, 5), TendanceSatellites::Degradation);
    assert_eq!(tendance_satellites(5, 6), TendanceSatellites::Stabilisation);
    assert_eq!(tendance_satellites(8, 7), TendanceSatellites::Inchangee);
    assert!(!mesure_valide(&None));
}

#[test]
fn echappement_json() {
    assert_eq!(echapper_json("a\"b\\c\nd\re\tf"), "a\\\"b\\\\c\\nd\\re\\tf");
    assert_eq!(echapper_json("déjà"), "déjà");
    assert!(!echapper_json("l1\nl2").contains('\n'));
}

#[test]
fn filtrage_fil_de_vie() {
    let ecrit = DecisionFilDeVie { ecrire: true, noter_navigation: false };
    let ignore = DecisionFilDeVie { ecrire: false, noter_navigation: false };
    assert_eq!(decision_fil_de_vie(NiveauJournal::Erreur, true, Some(0)), ecrit);
    assert_eq!(decision_fil_de_vie(NiveauJournal::Debogage, false, None), ignore);
    assert_eq!(decision_fil_de_vie(NiveauJournal::Info, false, Some(0)), ecrit);
    assert_eq!(decision_fil_de_vie(NiveauJournal::Info, true, None), DecisionFilDeVie { ecrire: true, noter_navigation: true });
    assert_eq!(decision_fil_de_vie(NiveauJournal::Info, true, Some(999_999)), ignore);
    assert_eq!(decision_fil_de_vie(NiveauJournal::Info, true, Some(1_000_000)), DecisionFilDeVie { ecrire: true, noter_navigation: true });
}

#[test]
fn issue_mesure_telemetre_cas() {
    assert_eq!(issue_mesure_telemetre(&Ok(1200), 2000), (EvenementTache::LectureReussie { valide: true }, Some(1200)));
    assert_eq!(issue_mesure_telemetre(&Ok(2000), 2000), (EvenementTache::LectureReussie { valide: false }, None));
    assert_eq!(issue_mesure_telemetre(&Err(ErreursAirHaum::HorsPortee), 2000), (EvenementTache::LectureReussie { valide: true }, None));
    assert_eq!(issue_mesure_telemetre(&Err(ErreursAirHaum::Timeout), 2000), (EvenementTache::LectureEchouee, None));
}

#[test]
fn silence_gps_cinquante_passages() {
    let mut sup = SuperviseurTache::nouveau(PolitiqueReprise::gps());
    sup.traiter(EvenementTache::InitReussie);
    for _ in 0..49 {
        let a = sup.traiter(EvenementTache::LectureEchouee);
        assert!(a.publication.is_none());
        assert!(!a.compter_erreur && !a.compter_reinit);
        assert_eq!(a.pause_ms, 200);
        assert_eq!(sup.phase, PhaseTache::Lecture);
    }
    let a = sup.traiter(EvenementTache::LectureEchouee);
    assert!(a.compter_reinit);
    assert_eq!(a.publication, Some(Publication { valide: false, erreurs_consecutives: 50 }));
    assert_eq!(sup.phase, PhaseTache::Initialisation);
}

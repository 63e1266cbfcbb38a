use airhaum::mission::etat_machine::{
    CommandeVol, ContexteVol, EtatVol, MachineEtatVol, HAUTEUR_FLARE_MM, VITESSE_ROTATION_MM_S,
};
use airhaum::surete::EtatSecurite;

fn mae_en(etat: EtatVol) -> MachineEtatVol {
    MachineEtatVol::depuis_etat(etat)
}

fn ctx_vide() -> ContexteVol {
    ContexteVol {
        vitesse_sol_mm_s: None,
        altitude_mm: None,
        altitude_cible_mm: 100_000,
        hauteur_sol_mm: None,
        estimation_prete: false,
    }
}

#[test]
fn prevol_par_commandes() {
    let mut mae = MachineEtatVol::nouveau();
    mae.traiter_commande(CommandeVol::DriversInitialises);
    assert_eq!(*mae.etat(), EtatVol::Initialisation);
    mae.traiter_commande(CommandeVol::ConfigurationTerminee);
    assert_eq!(*mae.etat(), EtatVol::AutoTest);
}

#[test]
fn autotest_vers_attente_par_tick() {
    let mut mae = mae_en(EtatVol::AutoTest);
    let ctx = ContexteVol { estimation_prete: true, ..ctx_vide() };
    mae.tick(&ctx);
    assert_eq!(*mae.etat(), EtatVol::AttenteArmement);
}

#[test]
fn autotest_bloque_si_capteurs_non_prets() {
    let mut mae = mae_en(EtatVol::AutoTest);
    mae.tick(&ctx_vide());
    assert_eq!(*mae.etat(), EtatVol::AutoTest);
}

#[test]
fn rotation_declenchee_par_vitesse() {
    let mut mae = mae_en(EtatVol::CourseDecollage);
    let ctx = ContexteVol { vitesse_sol_mm_s: Some(VITESSE_ROTATION_MM_S + 1_000), ..ctx_vide() };
    mae.tick(&ctx);
    assert_eq!(*mae.etat(), EtatVol::Montee);
}

#[test]
fn rotation_bloquee_sous_vitesse() {
    let mut mae = mae_en(EtatVol::CourseDecollage);
    let ctx = ContexteVol { vitesse_sol_mm_s: Some(5_000), ..ctx_vide() };
    mae.tick(&ctx);
    assert_eq!(*mae.etat(), EtatVol::CourseDecollage);
}

#[test]
fn chemin_nominal_atterrissage() {
    let mut mae = mae_en(EtatVol::VolLigneDroite);

    mae.traiter_commande(CommandeVol::Atterrir);
    assert_eq!(*mae.etat(), EtatVol::Approche);

    mae.traiter_commande(CommandeVol::ApprocheStabilisee);
    assert_eq!(*mae.etat(), EtatVol::Final);

    let ctx = ContexteVol { hauteur_sol_mm: Some(HAUTEUR_FLARE_MM - 1), ..ctx_vide() };
    mae.tick(&ctx);
    assert_eq!(*mae.etat(), EtatVol::Arrondi);

    mae.traiter_commande(CommandeVol::ContactSol);
    assert_eq!(*mae.etat(), EtatVol::RoulageAuSol);

    mae.traiter_commande(CommandeVol::Desarmer);
    assert_eq!(*mae.etat(), EtatVol::Desarmement);

    mae.traiter_commande(CommandeVol::ActionneursDesarmes);
    assert_eq!(*mae.etat(), EtatVol::SauvegardeDonnees);
}

#[test]
fn roulage_decollage_ne_desarme_pas_sur_arret() {
    let mut mae = mae_en(EtatVol::Armement);
    mae.traiter_commande(CommandeVol::ArmementValide);
    assert_eq!(*mae.etat(), EtatVol::RoulageAuSol);

    let ctx = ContexteVol { vitesse_sol_mm_s: Some(0), ..ctx_vide() };
    mae.tick(&ctx);
    assert_eq!(*mae.etat(), EtatVol::RoulageAuSol);
}

#[test]
fn desarmer_depuis_roulage() {
    let mut mae = mae_en(EtatVol::RoulageAuSol);
    mae.traiter_commande(CommandeVol::Desarmer);
    assert_eq!(*mae.etat(), EtatVol::Desarmement);
}

#[test]
fn commande_ignoree_hors_contexte() {
    let mut mae = MachineEtatVol::nouveau();
    assert!(mae.traiter_commande(CommandeVol::Armer).is_none());
    assert_eq!(*mae.etat(), EtatVol::Boot);
}

#[test]
fn failsafe_vers_loiter() {
    let mut mae = mae_en(EtatVol::Navigation);
    assert!(mae.forcer_urgence(&EtatSecurite::FailSafe));
    assert_eq!(*mae.etat(), EtatVol::AttenteEnCercle);
}

#[test]
fn arret_urgence_vers_approche() {
    let mut mae = mae_en(EtatVol::VolLigneDroite);
    let sec = EtatSecurite::ArretUrgence { raison: "emballement".into() };
    assert!(mae.forcer_urgence(&sec));
    assert_eq!(*mae.etat(), EtatVol::Approche);
}

#[test]
fn urgence_ignoree_au_sol() {
    let mut mae = mae_en(EtatVol::AttenteArmement);
    assert!(!mae.forcer_urgence(&EtatSecurite::FailSafe));
    assert_eq!(*mae.etat(), EtatVol::AttenteArmement);
}

#[test]
fn alerte_mineure_ne_force_pas() {
    let mut mae = mae_en(EtatVol::Navigation);
    let sec = EtatSecurite::AlerteMineure { raison: "test".into() };
    assert!(!mae.forcer_urgence(&sec));
    assert_eq!(*mae.etat(), EtatVol::Navigation);
}

#[test]
fn test_etat_nominal() {
    assert!(EtatSecurite::Normal.est_nominal());
    assert!(EtatSecurite::AlerteMineure { raison: "test".into() }.est_nominal());
    assert!(!EtatSecurite::FailSafe.est_nominal());
}

#[test]
fn test_etat_critique() {
    assert!(!EtatSecurite::Normal.est_critique());
    assert!(!EtatSecurite::AlerteMajeure { raison: "test".into() }.est_critique());
    assert!(EtatSecurite::FailSafe.est_critique());
    assert!(EtatSecurite::AtterrissageUrgence { raison: "batterie".into() }.est_critique());
    assert!(EtatSecurite::ArretUrgence { raison: "emballement".into() }.est_critique());
}

#[test]
fn etat_critique_jamais_nominal() {
    let etats = vec![
        EtatSecurite::Normal,
        EtatSecurite::AlerteMineure { raison: "a".into() },
        EtatSecurite::AlerteMajeure { raison: "b".into() },
        EtatSecurite::FailSafe,
        EtatSecurite::AtterrissageUrgence { raison: "c".into() },
        EtatSecurite::ArretUrgence { raison: "d".into() },
    ];
    for e in &etats {
        assert!(!(e.est_critique() && e.est_nominal()));
    }
}

#[test]
fn texte_etat_securite() {
    assert_eq!(EtatSecurite::Normal.texte(), "Normal");
    assert_eq!(EtatSecurite::ArretUrgence { raison: "emballement".into() }.texte(), "ArretUrgence: emballement");
}

#[test]
fn urgence_critique_en_vol_puis_idempotente() {
    let mut mae = mae_en(EtatVol::Montee);
    assert!(mae.forcer_urgence(&EtatSecurite::FailSafe));
    assert_eq!(*mae.etat(), EtatVol::AttenteEnCercle);
    assert!(!mae.forcer_urgence(&EtatSecurite::FailSafe));
    assert_eq!(*mae.etat(), EtatVol::AttenteEnCercle);
}

#[test]
fn est_en_vol_et_nom() {
    assert!(EtatVol::Navigation.est_en_vol());
    assert!(!EtatVol::RoulageAuSol.est_en_vol());
    assert_eq!(EtatVol::Montee.nom(), "Montée");
}

#[test]
fn reprise_rapide_vers_attente_armement() {
    let mut mae = MachineEtatVol::nouveau();
    assert_eq!(mae.traiter_commande(CommandeVol::DriversInitialises), Some(EtatVol::Initialisation));
    assert_eq!(mae.traiter_commande(CommandeVol::RepriseRapide), Some(EtatVol::AttenteArmement));
    assert_eq!(*mae.etat(), EtatVol::AttenteArmement);
    assert_eq!(mae.traiter_commande(CommandeVol::Armer), Some(EtatVol::Armement));
}

#[test]
fn reprise_rapide_ignoree_hors_initialisation() {
    let mut mae = MachineEtatVol::nouveau();
    assert!(mae.traiter_commande(CommandeVol::RepriseRapide).is_none());
    assert_eq!(*mae.etat(), EtatVol::Boot);
}

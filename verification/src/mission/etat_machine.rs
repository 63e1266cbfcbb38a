//! MAÉ vol — états, contexte, commandes et logique de transition.
//!
//! Trois chemins de transition : `tick` (seuils capteurs/estimation),
//! `traiter_commande` (commandes sol ou système) et `forcer_urgence`
//! (imposé par la MAÉ sécurité, prioritaire).
use vstd::prelude::*;
use crate::surete::EtatSecurite;

verus! {

/// Vitesse sol minimale pour la rotation au décollage (mm/s).
pub const VITESSE_ROTATION_MM_S: i32 = 15_000;

/// Hauteur sol maximale déclenchant l'arrondi (mm).
pub const HAUTEUR_FLARE_MM: u16 = 1_500;

/// États de la MAÉ vol.
#[derive(Debug, Clone, Copy, PartialEq, Eq, Structural, Default)]
pub enum EtatVol {
    #[default]
    Boot,
    Initialisation,
    AutoTest,
    AttenteArmement,
    Armement,
    RoulageAuSol,
    CourseDecollage,
    Montee,
    VolLigneDroite,
    Navigation,
    AttenteEnCercle,
    Approche,
    Final,
    Arrondi,
    Desarmement,
    SauvegardeDonnees,
}

impl EtatVol {
    /// L'appareil est en l'air.
    pub open spec fn spec_est_en_vol(self) -> bool {
        self is Montee || self is VolLigneDroite || self is Navigation || self is AttenteEnCercle
            || self is Approche || self is Final || self is Arrondi
    }

    /// Vrai si l'appareil est en vol (transitions d'urgence applicables).
    pub fn est_en_vol(&self) -> (r: bool)
        ensures
            r == self.spec_est_en_vol(),
    {
        match self {
            EtatVol::Montee | EtatVol::VolLigneDroite | EtatVol::Navigation | EtatVol::AttenteEnCercle
            | EtatVol::Approche | EtatVol::Final | EtatVol::Arrondi => true,
            _ => false,
        }
    }

    /// Nom affiché de l'état.
    pub open spec fn spec_nom(self) -> Seq<char> {
        match self {
            EtatVol::Boot => "Boot"@,
            EtatVol::Initialisation => "Initialisation"@,
            EtatVol::AutoTest => "AutoTest"@,
            EtatVol::AttenteArmement => "AttenteArmement"@,
            EtatVol::Armement => "Armement"@,
            EtatVol::RoulageAuSol => "RoulageAuSol"@,
            EtatVol::CourseDecollage => "CourseDecollage"@,
            EtatVol::Montee => "Montée"@,
            EtatVol::VolLigneDroite => "VolLigneDroite"@,
            EtatVol::Navigation => "Navigation"@,
            EtatVol::AttenteEnCercle => "AttenteEnCercle"@,
            EtatVol::Approche => "Approche"@,
            EtatVol::Final => "Final"@,
            EtatVol::Arrondi => "Arrondi"@,
            EtatVol::Desarmement => "Désarmement"@,
            EtatVol::SauvegardeDonnees => "SauvegardeDonnées"@,
        }
    }

    /// Nom affiché de l'état.
    pub fn nom(&self) -> (n: String)
        ensures
            n@ == self.spec_nom(),
    {
        let s = match self {
            EtatVol::Boot => "Boot",
            EtatVol::Initialisation => "Initialisation",
            EtatVol::AutoTest => "AutoTest",
            EtatVol::AttenteArmement => "AttenteArmement",
            EtatVol::Armement => "Armement",
            EtatVol::RoulageAuSol => "RoulageAuSol",
            EtatVol::CourseDecollage => "CourseDecollage",
            EtatVol::Montee => "Montée",
            EtatVol::VolLigneDroite => "VolLigneDroite",
            EtatVol::Navigation => "Navigation",
            EtatVol::AttenteEnCercle => "AttenteEnCercle",
            EtatVol::Approche => "Approche",
            EtatVol::Final => "Final",
            EtatVol::Arrondi => "Arrondi",
            EtatVol::Desarmement => "Désarmement",
            EtatVol::SauvegardeDonnees => "SauvegardeDonnées",
        };
        String::from_str(s)
    }
}

/// Instantané du système fourni à `tick`, en unités entières.
pub struct ContexteVol {
    /// Vitesse sol estimée (mm/s).
    pub vitesse_sol_mm_s: Option<i32>,
    /// Altitude barométrique (mm).
    pub altitude_mm: Option<i32>,
    /// Altitude de croisière cible (mm).
    pub altitude_cible_mm: i32,
    /// Hauteur sol mesurée par le télémètre (mm).
    pub hauteur_sol_mm: Option<u16>,
    /// L'estimation a produit au moins une attitude valide.
    pub estimation_prete: bool,
}

/// Commandes déclenchant des transitions dans la MAÉ vol : reçues du sol ou
/// émises par un module interne (contrôleur d'approche, etc.).
#[derive(Debug, Clone, Copy)]
pub enum CommandeVol {
    /// Demande d'armement opérateur (AttenteArmement → Armement).
    Armer,
    /// Demande de désarmement (RoulageAuSol → Desarmement).
    Desarmer,
    /// Demande d'atterrissage opérateur (croisière → Approche).
    Atterrir,
    /// Demande de loiter opérateur (croisière → AttenteEnCercle).
    Loiter,
    /// Reprise de navigation opérateur (AttenteEnCercle → Navigation).
    ReprendreNavigation,
    /// Activation navigation waypoints (VolLigneDroite → Navigation).
    ActiverNavigation,
    /// Désactivation navigation (Navigation → VolLigneDroite).
    DesactiverNavigation,
    /// Drivers initialisés, démarrage de l'autotest (Boot → Initialisation).
    DriversInitialises,
    /// Configuration drivers terminée (Initialisation → AutoTest).
    ConfigurationTerminee,
    /// Reprise rapide détectée : capteurs déjà opérationnels depuis le démarrage
    /// précédent, autotest implicitement passé (Initialisation → AttenteArmement).
    RepriseRapide,
    /// Vérifications pré-vol passées, actionneurs opérationnels (Armement → RoulageAuSol).
    ArmementValide,
    /// Position en bout de piste atteinte (RoulageAuSol → CourseDecollage).
    PositionDecollageAtteinte,
    /// Approche stabilisée sur l'axe (Approche → Final).
    ApprocheStabilisee,
    /// Contact sol détecté (Arrondi → RoulageAuSol).
    ContactSol,
    /// Actionneurs confirmés désactivés (Desarmement → SauvegardeDonnees).
    ActionneursDesarmes,
}

/// Transition déclenchée par une commande (`None` : commande hors contexte).
pub open spec fn transition_commande(e: EtatVol, c: CommandeVol) -> Option<EtatVol> {
    match (e, c) {
        (EtatVol::Boot, CommandeVol::DriversInitialises) => Some(EtatVol::Initialisation),
        (EtatVol::Initialisation, CommandeVol::ConfigurationTerminee) => Some(EtatVol::AutoTest),
        (EtatVol::Initialisation, CommandeVol::RepriseRapide) => Some(EtatVol::AttenteArmement),
        (EtatVol::AttenteArmement, CommandeVol::Armer) => Some(EtatVol::Armement),
        (EtatVol::Armement, CommandeVol::ArmementValide) => Some(EtatVol::RoulageAuSol),
        (EtatVol::RoulageAuSol, CommandeVol::PositionDecollageAtteinte) => Some(EtatVol::CourseDecollage),
        (EtatVol::VolLigneDroite, CommandeVol::ActiverNavigation) => Some(EtatVol::Navigation),
        (EtatVol::Navigation, CommandeVol::DesactiverNavigation) => Some(EtatVol::VolLigneDroite),
        (EtatVol::VolLigneDroite, CommandeVol::Loiter) => Some(EtatVol::AttenteEnCercle),
        (EtatVol::Navigation, CommandeVol::Loiter) => Some(EtatVol::AttenteEnCercle),
        (EtatVol::AttenteEnCercle, CommandeVol::ReprendreNavigation) => Some(EtatVol::Navigation),
        (EtatVol::VolLigneDroite, CommandeVol::Atterrir) => Some(EtatVol::Approche),
        (EtatVol::Navigation, CommandeVol::Atterrir) => Some(EtatVol::Approche),
        (EtatVol::AttenteEnCercle, CommandeVol::Atterrir) => Some(EtatVol::Approche),
        (EtatVol::Approche, CommandeVol::ApprocheStabilisee) => Some(EtatVol::Final),
        (EtatVol::Arrondi, CommandeVol::ContactSol) => Some(EtatVol::RoulageAuSol),
        (EtatVol::RoulageAuSol, CommandeVol::Desarmer) => Some(EtatVol::Desarmement),
        (EtatVol::Desarmement, CommandeVol::ActionneursDesarmes) => Some(EtatVol::SauvegardeDonnees),
        _ => None,
    }
}

/// Transition déclenchée par les seuils du contexte (`None` : pas de transition).
pub open spec fn transition_tick(e: EtatVol, ctx: ContexteVol) -> Option<EtatVol> {
    match e {
        EtatVol::AutoTest => if ctx.estimation_prete { Some(EtatVol::AttenteArmement) } else { None },
        EtatVol::CourseDecollage => match ctx.vitesse_sol_mm_s {
            Some(v) => if v >= VITESSE_ROTATION_MM_S { Some(EtatVol::Montee) } else { None },
            None => None,
        },
        EtatVol::Montee => match ctx.altitude_mm {
            Some(a) => if a >= ctx.altitude_cible_mm { Some(EtatVol::VolLigneDroite) } else { None },
            None => None,
        },
        EtatVol::Final => match ctx.hauteur_sol_mm {
            Some(h) => if h <= HAUTEUR_FLARE_MM { Some(EtatVol::Arrondi) } else { None },
            None => None,
        },
        _ => None,
    }
}

/// État d'urgence imposé par la sécurité (`None` : pas d'urgence applicable).
pub open spec fn cible_urgence(e: EtatVol, s: EtatSecurite) -> Option<EtatVol> {
    if !e.spec_est_en_vol() {
        None
    } else {
        match s {
            EtatSecurite::ArretUrgence { .. } => Some(EtatVol::Approche),
            EtatSecurite::AtterrissageUrgence { .. } => Some(EtatVol::Approche),
            EtatSecurite::FailSafe => Some(EtatVol::AttenteEnCercle),
            _ => None,
        }
    }
}

/// MAÉ vol : état courant et logique de transition.
pub struct MachineEtatVol {
    etat: EtatVol,
}

impl MachineEtatVol {
    /// État courant (vue abstraite).
    pub closed spec fn vue(&self) -> EtatVol {
        self.etat
    }

    /// MAÉ dans l'état `Boot`.
    pub fn nouveau() -> (m: MachineEtatVol)
        ensures
            m.vue() == EtatVol::Boot,
    {
        MachineEtatVol { etat: EtatVol::Boot }
    }

    /// MAÉ placée dans l'état donné (reprise, bancs d'essai).
    pub fn depuis_etat(etat: EtatVol) -> (m: MachineEtatVol)
        ensures
            m.vue() == etat,
    {
        MachineEtatVol { etat }
    }

    /// État courant.
    pub fn etat(&self) -> (e: &EtatVol)
        ensures
            *e == self.vue(),
    {
        &self.etat
    }

    /// Applique les seuils du contexte ; retourne le nouvel état si une transition a eu lieu.
    pub fn tick(&mut self, ctx: &ContexteVol) -> (r: Option<EtatVol>)
        ensures
            r == transition_tick(old(self).vue(), *ctx),
            final(self).vue() == match r { Some(n) => n, None => old(self).vue() },
    {
        let nouvel_etat = match self.etat {
            EtatVol::AutoTest => {
                if ctx.estimation_prete { EtatVol::AttenteArmement } else { return None; }
            },
            EtatVol::CourseDecollage => {
                match ctx.vitesse_sol_mm_s {
                    Some(v) => if v >= VITESSE_ROTATION_MM_S { EtatVol::Montee } else { return None; },
                    None => { return None; },
                }
            },
            EtatVol::Montee => {
                match ctx.altitude_mm {
                    Some(a) => if a >= ctx.altitude_cible_mm { EtatVol::VolLigneDroite } else { return None; },
                    None => { return None; },
                }
            },
            EtatVol::Final => {
                match ctx.hauteur_sol_mm {
                    Some(h) => if h <= HAUTEUR_FLARE_MM { EtatVol::Arrondi } else { return None; },
                    None => { return None; },
                }
            },
            _ => { return None; },
        };
        self.etat = nouvel_etat;
        Some(nouvel_etat)
    }

    /// Traite une commande ; `None` si elle est hors contexte (état inchangé).
    pub fn traiter_commande(&mut self, commande: CommandeVol) -> (r: Option<EtatVol>)
        ensures
            r == transition_commande(old(self).vue(), commande),
            final(self).vue() == match r { Some(n) => n, None => old(self).vue() },
    {
        let nouvel_etat = match (self.etat, commande) {
            (EtatVol::Boot, CommandeVol::DriversInitialises) => EtatVol::Initialisation,
            (EtatVol::Initialisation, CommandeVol::ConfigurationTerminee) => EtatVol::AutoTest,
            (EtatVol::Initialisation, CommandeVol::RepriseRapide) => EtatVol::AttenteArmement,
            (EtatVol::AttenteArmement, CommandeVol::Armer) => EtatVol::Armement,
            (EtatVol::Armement, CommandeVol::ArmementValide) => EtatVol::RoulageAuSol,
            (EtatVol::RoulageAuSol, CommandeVol::PositionDecollageAtteinte) => EtatVol::CourseDecollage,
            (EtatVol::VolLigneDroite, CommandeVol::ActiverNavigation) => EtatVol::Navigation,
            (EtatVol::Navigation, CommandeVol::DesactiverNavigation) => EtatVol::VolLigneDroite,
            (EtatVol::VolLigneDroite, CommandeVol::Loiter) => EtatVol::AttenteEnCercle,
            (EtatVol::Navigation, CommandeVol::Loiter) => EtatVol::AttenteEnCercle,
            (EtatVol::AttenteEnCercle, CommandeVol::ReprendreNavigation) => EtatVol::Navigation,
            (EtatVol::VolLigneDroite, CommandeVol::Atterrir) => EtatVol::Approche,
            (EtatVol::Navigation, CommandeVol::Atterrir) => EtatVol::Approche,
            (EtatVol::AttenteEnCercle, CommandeVol::Atterrir) => EtatVol::Approche,
            (EtatVol::Approche, CommandeVol::ApprocheStabilisee) => EtatVol::Final,
            (EtatVol::Arrondi, CommandeVol::ContactSol) => EtatVol::RoulageAuSol,
            (EtatVol::RoulageAuSol, CommandeVol::Desarmer) => EtatVol::Desarmement,
            (EtatVol::Desarmement, CommandeVol::ActionneursDesarmes) => EtatVol::SauvegardeDonnees,
            _ => { return None; },
        };
        self.etat = nouvel_etat;
        Some(nouvel_etat)
    }

    /// Force une transition d'urgence depuis un état en vol ; vrai si l'état a changé.
    pub fn forcer_urgence(&mut self, securite: &EtatSecurite) -> (r: bool)
        ensures
            r == (cible_urgence(old(self).vue(), *securite) matches Some(c) && c != old(self).vue()),
            final(self).vue() == match cible_urgence(old(self).vue(), *securite) {
                Some(c) => c,
                None => old(self).vue(),
            },
    {
        if !self.etat.est_en_vol() {
            return false;
        }
        let cible = match securite {
            EtatSecurite::ArretUrgence { .. } => EtatVol::Approche,
            EtatSecurite::AtterrissageUrgence { .. } => EtatVol::Approche,
            EtatSecurite::FailSafe => EtatVol::AttenteEnCercle,
            _ => { return false; },
        };
        if self.etat == cible {
            return false;
        }
        self.etat = cible;
        true
    }
}

// ── Lois ────────────────────────────────────────────────────────────────────

/// Au sol, aucune urgence ne change l'état de vol.
pub proof fn loi_urgence_ignoree_au_sol(e: EtatVol, s: EtatSecurite)
    requires
        !e.spec_est_en_vol(),
    ensures
        cible_urgence(e, s) is None,
{
}

/// Seul un état de sécurité critique impose une urgence, et l'état imposé
/// (approche ou attente en cercle) est un état en vol.
pub proof fn loi_urgence_critique(e: EtatVol, s: EtatSecurite)
    ensures
        cible_urgence(e, s) matches Some(c) ==> s.spec_est_critique() && c.spec_est_en_vol()
            && (c == EtatVol::Approche || c == EtatVol::AttenteEnCercle),
{
}

/// Forcer deux fois la même urgence : la seconde fois l'état ne change plus.
pub proof fn loi_urgence_idempotente(e: EtatVol, s: EtatSecurite)
    ensures
        ({
            let e1 = match cible_urgence(e, s) { Some(c) => c, None => e };
            match cible_urgence(e1, s) { Some(c) => c == e1, None => true }
        }),
{
}

/// Une commande ne fait jamais décoller : aucune commande ne mène d'un état
/// au sol à un état en vol.
pub proof fn loi_commande_sol_vers_vol(e: EtatVol, c: CommandeVol)
    requires
        !e.spec_est_en_vol(),
    ensures
        transition_commande(e, c) matches Some(n) ==> !n.spec_est_en_vol(),
{
}

/// Le décollage (course vers montée) et l'arrondi ne sont atteints que par les
/// seuils capteurs : aucune commande ne mène en `Montee` ni en `Arrondi`, et
/// `VolLigneDroite` n'est atteint par commande qu'en désactivant la navigation.
/// `AttenteArmement` n'est atteint par commande que par la reprise rapide
/// depuis l'initialisation ; sinon il faut l'autotest.
pub proof fn loi_etats_atteints_par_seuils(e: EtatVol, c: CommandeVol)
    ensures
        transition_commande(e, c) != Some(EtatVol::Montee),
        transition_commande(e, c) != Some(EtatVol::Arrondi),
        transition_commande(e, c) == Some(EtatVol::VolLigneDroite) ==> c is DesactiverNavigation,
        transition_commande(e, c) == Some(EtatVol::AttenteArmement)
            <==> (e == EtatVol::Initialisation && c is RepriseRapide),
{
}


/// État auquel mène une commande lorsqu'elle est acceptée, d'après son rôle.
pub open spec fn destination_commande(c: CommandeVol) -> EtatVol {
    match c {
        CommandeVol::Armer => EtatVol::Armement,
        CommandeVol::Desarmer => EtatVol::Desarmement,
        CommandeVol::Atterrir => EtatVol::Approche,
        CommandeVol::Loiter => EtatVol::AttenteEnCercle,
        CommandeVol::ReprendreNavigation => EtatVol::Navigation,
        CommandeVol::ActiverNavigation => EtatVol::Navigation,
        CommandeVol::DesactiverNavigation => EtatVol::VolLigneDroite,
        CommandeVol::DriversInitialises => EtatVol::Initialisation,
        CommandeVol::ConfigurationTerminee => EtatVol::AutoTest,
        CommandeVol::RepriseRapide => EtatVol::AttenteArmement,
        CommandeVol::ArmementValide => EtatVol::RoulageAuSol,
        CommandeVol::PositionDecollageAtteinte => EtatVol::CourseDecollage,
        CommandeVol::ApprocheStabilisee => EtatVol::Final,
        CommandeVol::ContactSol => EtatVol::RoulageAuSol,
        CommandeVol::ActionneursDesarmes => EtatVol::SauvegardeDonnees,
    }
}

/// Une commande acceptée mène toujours à l'état qu'elle désigne, quel que
/// soit l'état de départ. En particulier, le loiter met en attente en cercle
/// et est accepté depuis la croisière (vol en ligne droite ou navigation) et
/// seulement de là ; l'atterrissage mène en approche depuis la croisière ou
/// l'attente en cercle et seulement de là ; l'approche n'est atteinte par
/// commande que par l'atterrissage, l'attente en cercle que par le loiter.
pub proof fn loi_destination_commande(e: EtatVol, c: CommandeVol)
    ensures
        transition_commande(e, c) matches Some(n) ==> n == destination_commande(c),
        transition_commande(e, CommandeVol::Loiter) is Some <==> (e is VolLigneDroite || e is Navigation),
        (e is VolLigneDroite || e is Navigation) ==> transition_commande(e, CommandeVol::Loiter) == Some(EtatVol::AttenteEnCercle),
        transition_commande(e, CommandeVol::Atterrir) is Some
            <==> (e is VolLigneDroite || e is Navigation || e is AttenteEnCercle),
        (e is VolLigneDroite || e is Navigation || e is AttenteEnCercle)
            ==> transition_commande(e, CommandeVol::Atterrir) == Some(EtatVol::Approche),
        transition_commande(e, c) == Some(EtatVol::Approche) ==> c is Atterrir,
        transition_commande(e, c) == Some(EtatVol::AttenteEnCercle) ==> c is Loiter,
{
}

/// Les transitions sur seuils : l'autotest passe en attente d'armement dès
/// que l'estimation est prête ; la course au décollage passe en montée dès
/// que la vitesse sol connue atteint la vitesse de rotation ; la montée
/// passe en vol en ligne droite dès que l'altitude connue atteint l'altitude
/// cible ; la finale passe en arrondi dès que la hauteur sol connue descend à
/// la hauteur d'arrondi. Chaque fois, et seulement alors ; aucun autre état
/// ne change sur seuil.
pub proof fn loi_seuils_tick(e: EtatVol, ctx: ContexteVol)
    ensures
        transition_tick(EtatVol::AutoTest, ctx) == (if ctx.estimation_prete { Some(EtatVol::AttenteArmement) } else { None }),
        transition_tick(EtatVol::CourseDecollage, ctx) == Some(EtatVol::Montee)
            <==> (ctx.vitesse_sol_mm_s matches Some(v) && v >= VITESSE_ROTATION_MM_S),
        transition_tick(EtatVol::Montee, ctx) == Some(EtatVol::VolLigneDroite)
            <==> (ctx.altitude_mm matches Some(a) && a >= ctx.altitude_cible_mm),
        transition_tick(EtatVol::Final, ctx) == Some(EtatVol::Arrondi)
            <==> (ctx.hauteur_sol_mm matches Some(h) && h <= HAUTEUR_FLARE_MM),
        transition_tick(e, ctx) matches Some(n) ==> (
            (e is AutoTest && n is AttenteArmement) || (e is CourseDecollage && n is Montee)
            || (e is Montee && n is VolLigneDroite) || (e is Final && n is Arrondi)),
{
}

/// Les seuils sont monotones : une montée qui s'achève à une altitude
/// s'achève aussi à toute altitude plus haute (même cible) ; une course qui
/// passe en montée à une vitesse y passe aussi à toute vitesse plus grande ;
/// une finale qui passe en arrondi à une hauteur y passe aussi à toute
/// hauteur plus basse. Une altitude sous la cible ne termine jamais la montée.
pub proof fn loi_seuils_monotones(c1: ContexteVol, c2: ContexteVol)
    ensures
        (c1.altitude_mm matches Some(a1) && c2.altitude_mm matches Some(a2) && a1 <= a2
            && c1.altitude_cible_mm == c2.altitude_cible_mm
            && transition_tick(EtatVol::Montee, c1) is Some) ==> transition_tick(EtatVol::Montee, c2) is Some,
        (c1.vitesse_sol_mm_s matches Some(v1) && c2.vitesse_sol_mm_s matches Some(v2) && v1 <= v2
            && transition_tick(EtatVol::CourseDecollage, c1) is Some) ==> transition_tick(EtatVol::CourseDecollage, c2) is Some,
        (c1.hauteur_sol_mm matches Some(h1) && c2.hauteur_sol_mm matches Some(h2) && h2 <= h1
            && transition_tick(EtatVol::Final, c1) is Some) ==> transition_tick(EtatVol::Final, c2) is Some,
        (c1.altitude_mm matches Some(a1) && a1 < c1.altitude_cible_mm) ==> transition_tick(EtatVol::Montee, c1) is None,
{
}

} // verus!

//! Politique de reprise des tâches capteurs.
//!
//! Chaque tâche capteur alterne (ré)initialisation et lecture continue. Les
//! décisions (publier, compter, attendre, réinitialiser) sont prises ici, à
//! partir de l'état courant et de l'issue de la dernière opération ; la boucle
//! qui exécute les opérations et les pauses vit hors de ce module.
//!
//! - backoff exponentiel borné après chaque échec d'initialisation ou chaque
//!   réinitialisation, remis à sa valeur initiale après un succès ;
//! - réinitialisation après un nombre fixé d'échecs de lecture consécutifs ;
//! - suspension longue après un nombre fixé de réinitialisations ratées.
use vstd::prelude::*;
use vstd::arithmetic::power::pow;

verus! {

/// Paramètres de robustesse d'une tâche capteur.
#[derive(Debug, Clone, Copy, PartialEq, Eq)]
pub struct PolitiqueReprise {
    /// Échecs de lecture consécutifs déclenchant une réinitialisation.
    pub erreurs_avant_reinit: u32,
    /// Réinitialisations ratées consécutives déclenchant la suspension longue.
    pub reinit_max: u32,
    /// Délai initial du backoff (ms).
    pub backoff_initial_ms: u64,
    /// Facteur multiplicatif du backoff.
    pub backoff_facteur: u64,
    /// Délai maximal du backoff (ms).
    pub backoff_max_ms: u64,
    /// Durée de la suspension longue (ms).
    pub suspension_ms: u64,
    /// Pause après un échec de lecture sous le seuil (ms).
    pub pause_erreur_ms: u64,
    /// Pause après une lecture réussie (ms).
    pub periode_ms: u64,
    /// Vrai : chaque échec de lecture est publié et compté ; faux : seul
    /// l'échec qui atteint le seuil l'est.
    pub signale_chaque_echec: bool,
    /// Vrai : une lecture réussie remet le backoff à sa valeur initiale.
    pub remise_backoff_en_lecture: bool,
}

impl PolitiqueReprise {
    /// Paramètres cohérents : seuils non nuls, backoff initial sous le maximum,
    /// et produit maximal représentable.
    pub open spec fn bien_formee(self) -> bool {
        &&& 1 <= self.erreurs_avant_reinit
        &&& 1 <= self.reinit_max
        &&& 1 <= self.backoff_facteur
        &&& self.backoff_initial_ms <= self.backoff_max_ms
        &&& self.backoff_max_ms * self.backoff_facteur <= u64::MAX
    }

    /// Tâche du baromètre BMP280 (mesure toutes les ~23 ms).
    pub fn bmp280() -> (p: PolitiqueReprise)
        ensures
            p.bien_formee(),
            p == (PolitiqueReprise {
                erreurs_avant_reinit: 5,
                reinit_max: 10,
                backoff_initial_ms: 100,
                backoff_facteur: 2,
                backoff_max_ms: 5_000,
                suspension_ms: 30_000,
                pause_erreur_ms: 50,
                periode_ms: 23,
                signale_chaque_echec: true,
                remise_backoff_en_lecture: true,
            }),
    {
        PolitiqueReprise {
            erreurs_avant_reinit: 5,
            reinit_max: 10,
            backoff_initial_ms: 100,
            backoff_facteur: 2,
            backoff_max_ms: 5_000,
            suspension_ms: 30_000,
            pause_erreur_ms: 50,
            periode_ms: 23,
            signale_chaque_echec: true,
            remise_backoff_en_lecture: true,
        }
    }

    /// Tâche du télémètre VL53L0X (la mesure elle-même bloque ~30 ms).
    pub fn vl53l0x() -> (p: PolitiqueReprise)
        ensures
            p.bien_formee(),
            p == (PolitiqueReprise {
                erreurs_avant_reinit: 5,
                reinit_max: 10,
                backoff_initial_ms: 100,
                backoff_facteur: 2,
                backoff_max_ms: 5_000,
                suspension_ms: 30_000,
                pause_erreur_ms: 50,
                periode_ms: 0,
                signale_chaque_echec: true,
                remise_backoff_en_lecture: true,
            }),
    {
        PolitiqueReprise {
            erreurs_avant_reinit: 5,
            reinit_max: 10,
            backoff_initial_ms: 100,
            backoff_facteur: 2,
            backoff_max_ms: 5_000,
            suspension_ms: 30_000,
            pause_erreur_ms: 50,
            periode_ms: 0,
            signale_chaque_echec: true,
            remise_backoff_en_lecture: true,
        }
    }

    /// Tâche de la centrale inertielle MPU9250 (200 Hz).
    pub fn mpu9250() -> (p: PolitiqueReprise)
        ensures
            p.bien_formee(),
            p == (PolitiqueReprise {
                erreurs_avant_reinit: 5,
                reinit_max: 10,
                backoff_initial_ms: 100,
                backoff_facteur: 2,
                backoff_max_ms: 5_000,
                suspension_ms: 30_000,
                pause_erreur_ms: 10,
                periode_ms: 5,
                signale_chaque_echec: true,
                remise_backoff_en_lecture: true,
            }),
    {
        PolitiqueReprise {
            erreurs_avant_reinit: 5,
            reinit_max: 10,
            backoff_initial_ms: 100,
            backoff_facteur: 2,
            backoff_max_ms: 5_000,
            suspension_ms: 30_000,
            pause_erreur_ms: 10,
            periode_ms: 5,
            signale_chaque_echec: true,
            remise_backoff_en_lecture: true,
        }
    }

    /// Tâche GPS : une « lecture ratée » est un passage sans nouvelle trame ;
    /// seul un silence de 50 passages (10 s) déclenche la réinitialisation.
    pub fn gps() -> (p: PolitiqueReprise)
        ensures
            p.bien_formee(),
            p == politique_gps(),
    {
        PolitiqueReprise {
            erreurs_avant_reinit: 50,
            reinit_max: 10,
            backoff_initial_ms: 200,
            backoff_facteur: 2,
            backoff_max_ms: 5_000,
            suspension_ms: 30_000,
            pause_erreur_ms: 200,
            periode_ms: 200,
            signale_chaque_echec: false,
            remise_backoff_en_lecture: false,
        }
    }

    /// Backoff suivant : multiplié par le facteur, plafonné au maximum.
    pub open spec fn spec_backoff_suivant(self, backoff_ms: u64) -> u64 {
        if backoff_ms * self.backoff_facteur <= self.backoff_max_ms {
            (backoff_ms * self.backoff_facteur) as u64
        } else {
            self.backoff_max_ms
        }
    }
}

/// Phase d'une tâche capteur.
#[derive(Debug, Clone, Copy, PartialEq, Eq)]
pub enum PhaseTache {
    /// Le capteur doit être (ré)initialisé.
    Initialisation,
    /// Le capteur est lu en continu.
    Lecture,
}

/// Issue de la dernière opération de la tâche.
#[derive(Debug, Clone, Copy, PartialEq, Eq)]
pub enum EvenementTache {
    /// L'initialisation du capteur a réussi.
    InitReussie,
    /// L'initialisation du capteur a échoué.
    InitEchouee,
    /// Une lecture a abouti ; `valide` dit si la mesure est exploitable.
    LectureReussie { valide: bool },
    /// Une lecture a échoué (ou, pour le GPS, aucune trame n'est arrivée).
    LectureEchouee,
}

/// Publication sur le canal de la tâche (les données sont jointes par l'appelant).
#[derive(Debug, Clone, Copy, PartialEq, Eq)]
pub struct Publication {
    pub valide: bool,
    pub erreurs_consecutives: u32,
}

/// Décision prise après un événement.
#[derive(Debug, Clone, Copy, PartialEq, Eq)]
pub struct ActionTache {
    /// Message à publier, s'il y en a un.
    pub publication: Option<Publication>,
    /// Pause avant l'opération suivante (ms).
    pub pause_ms: u64,
    /// Incrémenter le compteur d'erreurs de santé.
    pub compter_erreur: bool,
    /// Incrémenter le compteur de réinitialisations de santé.
    pub compter_reinit: bool,
}

/// État de la politique de reprise d'une tâche capteur.
#[derive(Debug, Clone, Copy, PartialEq, Eq)]
pub struct SuperviseurTache {
    pub politique: PolitiqueReprise,
    pub phase: PhaseTache,
    pub erreurs_consecutives: u32,
    pub nb_reinit: u32,
    pub backoff_ms: u64,
}

/// Effet d'un événement : nouvel état et action.
pub open spec fn transition(s: SuperviseurTache, e: EvenementTache) -> (SuperviseurTache, ActionTache) {
    let p = s.politique;
    match e {
        EvenementTache::InitReussie => (
            SuperviseurTache {
                phase: PhaseTache::Lecture,
                erreurs_consecutives: 0,
                nb_reinit: 0,
                backoff_ms: p.backoff_initial_ms,
                ..s
            },
            ActionTache { publication: None, pause_ms: 0, compter_erreur: false, compter_reinit: false },
        ),
        EvenementTache::InitEchouee => {
            let n = (s.nb_reinit + 1) as u32;
            let action_base = ActionTache {
                publication: Some(Publication { valide: false, erreurs_consecutives: n }),
                pause_ms: 0,
                compter_erreur: false,
                compter_reinit: true,
            };
            if n >= p.reinit_max {
                (
                    SuperviseurTache { nb_reinit: 0, backoff_ms: p.backoff_initial_ms, ..s },
                    ActionTache { pause_ms: p.suspension_ms, ..action_base },
                )
            } else {
                (
                    SuperviseurTache { nb_reinit: n, backoff_ms: p.spec_backoff_suivant(s.backoff_ms), ..s },
                    ActionTache { pause_ms: s.backoff_ms, ..action_base },
                )
            }
        },
        EvenementTache::LectureReussie { valide } => (
            SuperviseurTache {
                erreurs_consecutives: 0,
                backoff_ms: if p.remise_backoff_en_lecture { p.backoff_initial_ms } else { s.backoff_ms },
                ..s
            },
            ActionTache {
                publication: Some(Publication { valide, erreurs_consecutives: 0 }),
                pause_ms: p.periode_ms,
                compter_erreur: false,
                compter_reinit: false,
            },
        ),
        EvenementTache::LectureEchouee => {
            let n = (s.erreurs_consecutives + 1) as u32;
            if n >= p.erreurs_avant_reinit {
                (
                    SuperviseurTache {
                        phase: PhaseTache::Initialisation,
                        erreurs_consecutives: 0,
                        backoff_ms: p.spec_backoff_suivant(s.backoff_ms),
                        ..s
                    },
                    ActionTache {
                        publication: Some(Publication { valide: false, erreurs_consecutives: n }),
                        pause_ms: s.backoff_ms,
                        compter_erreur: true,
                        compter_reinit: true,
                    },
                )
            } else {
                (
                    SuperviseurTache { erreurs_consecutives: n, ..s },
                    ActionTache {
                        publication: if p.signale_chaque_echec {
                            Some(Publication { valide: false, erreurs_consecutives: n })
                        } else {
                            None
                        },
                        pause_ms: p.pause_erreur_ms,
                        compter_erreur: p.signale_chaque_echec,
                        compter_reinit: false,
                    },
                )
            }
        },
    }
}

impl SuperviseurTache {
    /// Invariant : politique cohérente, backoff dans ses bornes, compteurs
    /// sous leurs seuils.
    pub open spec fn bien_forme(self) -> bool {
        &&& self.politique.bien_formee()
        &&& self.politique.backoff_initial_ms <= self.backoff_ms <= self.politique.backoff_max_ms
        &&& self.nb_reinit < self.politique.reinit_max
        &&& self.erreurs_consecutives < self.politique.erreurs_avant_reinit
    }

    /// Superviseur au démarrage de la tâche : à initialiser, compteurs nuls.
    pub fn nouveau(politique: PolitiqueReprise) -> (s: SuperviseurTache)
        requires
            politique.bien_formee(),
        ensures
            s.bien_forme(),
            s == (SuperviseurTache {
                politique,
                phase: PhaseTache::Initialisation,
                erreurs_consecutives: 0,
                nb_reinit: 0,
                backoff_ms: politique.backoff_initial_ms,
            }),
    {
        SuperviseurTache {
            politique,
            phase: PhaseTache::Initialisation,
            erreurs_consecutives: 0,
            nb_reinit: 0,
            backoff_ms: politique.backoff_initial_ms,
        }
    }

    fn backoff_suivant(&self) -> (b: u64)
        requires
            self.bien_forme(),
        ensures
            b == self.politique.spec_backoff_suivant(self.backoff_ms),
            self.politique.backoff_initial_ms <= b <= self.politique.backoff_max_ms,
    {
        let p = self.politique;
        proof {
            assert(self.backoff_ms * p.backoff_facteur <= p.backoff_max_ms * p.backoff_facteur) by (nonlinear_arith)
                requires
                    self.backoff_ms <= p.backoff_max_ms;
            assert(self.backoff_ms <= self.backoff_ms * p.backoff_facteur) by (nonlinear_arith)
                requires
                    1 <= p.backoff_facteur;
        }
        let double = self.backoff_ms * p.backoff_facteur;
        if double <= p.backoff_max_ms {
            double
        } else {
            p.backoff_max_ms
        }
    }

    /// Applique l'issue de la dernière opération : met à jour l'état et
    /// renvoie ce que la tâche doit faire (publier, compter, attendre).
    pub fn traiter(&mut self, evenement: EvenementTache) -> (action: ActionTache)
        requires
            old(self).bien_forme(),
        ensures
            final(self).bien_forme(),
            (*final(self), action) == transition(*old(self), evenement),
    {
        let p = self.politique;
        match evenement {
            EvenementTache::InitReussie => {
                self.phase = PhaseTache::Lecture;
                self.erreurs_consecutives = 0;
                self.nb_reinit = 0;
                self.backoff_ms = p.backoff_initial_ms;
                ActionTache { publication: None, pause_ms: 0, compter_erreur: false, compter_reinit: false }
            },
            EvenementTache::InitEchouee => {
                let n = self.nb_reinit + 1;
                let publication = Some(Publication { valide: false, erreurs_consecutives: n });
                if n >= p.reinit_max {
                    self.nb_reinit = 0;
                    self.backoff_ms = p.backoff_initial_ms;
                    ActionTache { publication, pause_ms: p.suspension_ms, compter_erreur: false, compter_reinit: true }
                } else {
                    let pause = self.backoff_ms;
                    self.backoff_ms = self.backoff_suivant();
                    self.nb_reinit = n;
                    ActionTache { publication, pause_ms: pause, compter_erreur: false, compter_reinit: true }
                }
            },
            EvenementTache::LectureReussie { valide } => {
                self.erreurs_consecutives = 0;
                if p.remise_backoff_en_lecture {
                    self.backoff_ms = p.backoff_initial_ms;
                }
                ActionTache {
                    publication: Some(Publication { valide, erreurs_consecutives: 0 }),
                    pause_ms: p.periode_ms,
                    compter_erreur: false,
                    compter_reinit: false,
                }
            },
            EvenementTache::LectureEchouee => {
                let n = self.erreurs_consecutives + 1;
                if n >= p.erreurs_avant_reinit {
                    let pause = self.backoff_ms;
                    self.backoff_ms = self.backoff_suivant();
                    self.erreurs_consecutives = 0;
                    self.phase = PhaseTache::Initialisation;
                    ActionTache {
                        publication: Some(Publication { valide: false, erreurs_consecutives: n }),
                        pause_ms: pause,
                        compter_erreur: true,
                        compter_reinit: true,
                    }
                } else {
                    self.erreurs_consecutives = n;
                    let publication = if p.signale_chaque_echec {
                        Some(Publication { valide: false, erreurs_consecutives: n })
                    } else {
                        None
                    };
                    ActionTache {
                        publication,
                        pause_ms: p.pause_erreur_ms,
                        compter_erreur: p.signale_chaque_echec,
                        compter_reinit: false,
                    }
                }
            },
        }
    }
}

/// État après `n` occurrences successives du même événement.
pub open spec fn apres(s: SuperviseurTache, e: EvenementTache, n: nat) -> SuperviseurTache
    decreases n,
{
    if n == 0 {
        s
    } else {
        transition(apres(s, e, (n - 1) as nat), e).0
    }
}

/// Politique de reprise de la tâche GPS.
pub open spec fn politique_gps() -> PolitiqueReprise {
    PolitiqueReprise {
        erreurs_avant_reinit: 50,
        reinit_max: 10,
        backoff_initial_ms: 200,
        backoff_facteur: 2,
        backoff_max_ms: 5_000,
        suspension_ms: 30_000,
        pause_erreur_ms: 200,
        periode_ms: 200,
        signale_chaque_echec: false,
        remise_backoff_en_lecture: false,
    }
}

/// Plus petit de deux entiers.
pub open spec fn minimum(a: int, b: int) -> int {
    if a <= b { a } else { b }
}

/// Toute transition préserve l'invariant du superviseur.
pub proof fn loi_invariant_preserve(s: SuperviseurTache, e: EvenementTache)
    requires
        s.bien_forme(),
    ensures
        transition(s, e).0.bien_forme(),
{
    let p = s.politique;
    assert(s.backoff_ms * p.backoff_facteur <= p.backoff_max_ms * p.backoff_facteur) by (nonlinear_arith)
        requires
            s.backoff_ms <= p.backoff_max_ms;
    assert(s.backoff_ms <= s.backoff_ms * p.backoff_facteur) by (nonlinear_arith)
        requires
            1 <= p.backoff_facteur;
}

proof fn lemme_echecs_lecture(s: SuperviseurTache, k: nat)
    requires
        s.bien_forme(),
        s.phase is Lecture,
        s.erreurs_consecutives == 0,
        k < s.politique.erreurs_avant_reinit,
    ensures
        apres(s, EvenementTache::LectureEchouee, k) == (SuperviseurTache { erreurs_consecutives: k as u32, ..s }),
    decreases k,
{
    if k > 0 {
        lemme_echecs_lecture(s, (k - 1) as nat);
    }
}

/// Réinitialisation au seuil : depuis une lecture sans erreur en cours, les
/// échecs de lecture consécutifs restent en lecture et sont comptés un à un
/// jusqu'au seuil ; l'échec qui atteint le seuil, et lui seul, renvoie la
/// tâche en initialisation avec compteur remis à zéro.
pub proof fn loi_reinit_au_seuil(s: SuperviseurTache)
    requires
        s.bien_forme(),
        s.phase is Lecture,
        s.erreurs_consecutives == 0,
    ensures
        forall|k: nat| k < s.politique.erreurs_avant_reinit ==>
            (#[trigger] apres(s, EvenementTache::LectureEchouee, k)).phase is Lecture
            && apres(s, EvenementTache::LectureEchouee, k).erreurs_consecutives == k,
        forall|k: nat| k + 1 < s.politique.erreurs_avant_reinit ==>
            !(#[trigger] transition(apres(s, EvenementTache::LectureEchouee, k), EvenementTache::LectureEchouee)).1.compter_reinit,
        ({
            let avant = apres(s, EvenementTache::LectureEchouee, (s.politique.erreurs_avant_reinit - 1) as nat);
            let (apres_seuil, action) = transition(avant, EvenementTache::LectureEchouee);
            &&& apres_seuil.phase is Initialisation
            &&& apres_seuil.erreurs_consecutives == 0
            &&& action.compter_reinit
            &&& action.pause_ms == avant.backoff_ms
        }),
        apres(s, EvenementTache::LectureEchouee, s.politique.erreurs_avant_reinit as nat).phase is Initialisation,
{
    let e = EvenementTache::LectureEchouee;
    assert forall|k: nat| k < s.politique.erreurs_avant_reinit implies
        (#[trigger] apres(s, e, k)).phase is Lecture && apres(s, e, k).erreurs_consecutives == k by {
        lemme_echecs_lecture(s, k);
    }
    assert forall|k: nat| k + 1 < s.politique.erreurs_avant_reinit implies
        !(#[trigger] transition(apres(s, e, k), e)).1.compter_reinit by {
        lemme_echecs_lecture(s, k);
    }
    let n = (s.politique.erreurs_avant_reinit - 1) as nat;
    lemme_echecs_lecture(s, n);
    assert(apres(s, e, n + 1) == transition(apres(s, e, n), e).0);
}

proof fn lemme_pas_backoff(p: PolitiqueReprise, m: int, k: nat)
    requires
        p.bien_formee(),
        m == minimum(p.backoff_initial_ms * pow(p.backoff_facteur as int, k), p.backoff_max_ms as int),
    ensures
        p.spec_backoff_suivant(m as u64) == minimum(p.backoff_initial_ms * pow(p.backoff_facteur as int, k + 1), p.backoff_max_ms as int),
{
    let i = p.backoff_initial_ms as int;
    let f = p.backoff_facteur as int;
    let mx = p.backoff_max_ms as int;
    let q = pow(f, k);
    assert(pow(f, k + 1) == f * q) by {
        reveal(pow);
    }
    vstd::arithmetic::power::lemma_pow_positive(f, k);
    assert(i * (f * q) == (i * q) * f) by (nonlinear_arith);
    assert(0 <= m <= mx);
    if i * q <= mx {
        assert(m == i * q);
    } else {
        assert(m == mx);
        assert(mx <= mx * f) by (nonlinear_arith)
            requires
                0 <= mx,
                1 <= f;
        assert((i * q) * f >= i * q) by (nonlinear_arith)
            requires
                0 <= i * q,
                1 <= f;
    }
}

proof fn lemme_echecs_init(s: SuperviseurTache, k: nat)
    requires
        s.bien_forme(),
        s.nb_reinit == 0,
        s.backoff_ms == s.politique.backoff_initial_ms,
        k < s.politique.reinit_max,
    ensures
        apres(s, EvenementTache::InitEchouee, k) == (SuperviseurTache {
            nb_reinit: k as u32,
            backoff_ms: minimum(
                s.politique.backoff_initial_ms * pow(s.politique.backoff_facteur as int, k),
                s.politique.backoff_max_ms as int,
            ) as u64,
            ..s
        }),
    decreases k,
{
    let p = s.politique;
    if k == 0 {
        vstd::arithmetic::power::lemma_pow0(p.backoff_facteur as int);
    } else {
        lemme_echecs_init(s, (k - 1) as nat);
        let m = minimum(p.backoff_initial_ms * pow(p.backoff_facteur as int, (k - 1) as nat), p.backoff_max_ms as int);
        vstd::arithmetic::power::lemma_pow_positive(p.backoff_facteur as int, (k - 1) as nat);
        assert(p.backoff_initial_ms * pow(p.backoff_facteur as int, (k - 1) as nat) >= 0) by (nonlinear_arith)
            requires
                pow(p.backoff_facteur as int, (k - 1) as nat) > 0;
        lemme_pas_backoff(p, m, (k - 1) as nat);
    }
}

/// Backoff exponentiel borné : depuis un superviseur sans réinitialisation
/// ratée et au backoff initial, la `k`-ième tentative d'initialisation ratée
/// (sous le seuil de suspension) attend `min(initial × facteurᵏ, max)` ; au
/// seuil, la tâche se suspend pour la durée de suspension et repart du
/// backoff initial, compteur remis à zéro.
pub proof fn loi_backoff_exponentiel(s: SuperviseurTache)
    requires
        s.bien_forme(),
        s.nb_reinit == 0,
        s.backoff_ms == s.politique.backoff_initial_ms,
    ensures
        forall|k: nat| k < s.politique.reinit_max ==>
            (#[trigger] transition(apres(s, EvenementTache::InitEchouee, k), EvenementTache::InitEchouee)).1.pause_ms
            == (if k + 1 < s.politique.reinit_max {
                minimum(
                    s.politique.backoff_initial_ms * pow(s.politique.backoff_facteur as int, k),
                    s.politique.backoff_max_ms as int,
                )
            } else {
                s.politique.suspension_ms as int
            }),
        apres(s, EvenementTache::InitEchouee, s.politique.reinit_max as nat).nb_reinit == 0,
        apres(s, EvenementTache::InitEchouee, s.politique.reinit_max as nat).backoff_ms == s.politique.backoff_initial_ms,
{
    let e = EvenementTache::InitEchouee;
    assert forall|k: nat| k < s.politique.reinit_max implies
        (#[trigger] transition(apres(s, e, k), e)).1.pause_ms
            == (if k + 1 < s.politique.reinit_max {
                minimum(
                    s.politique.backoff_initial_ms * pow(s.politique.backoff_facteur as int, k),
                    s.politique.backoff_max_ms as int,
                )
            } else {
                s.politique.suspension_ms as int
            }) by {
        lemme_echecs_init(s, k);
        let f = s.politique.backoff_facteur as int;
        vstd::arithmetic::power::lemma_pow_positive(f, k);
        assert(s.politique.backoff_initial_ms * pow(f, k) >= 0) by (nonlinear_arith)
            requires
                pow(f, k) > 0;
    }
    let n = (s.politique.reinit_max - 1) as nat;
    lemme_echecs_init(s, n);
    assert(apres(s, e, n + 1) == transition(apres(s, e, n), e).0);
}

/// Une lecture réussie (y compris « aucun obstacle en portée ») n'est jamais
/// comptée comme une erreur, ne déclenche pas de réinitialisation et remet à
/// zéro le compteur d'échecs consécutifs.
pub proof fn loi_succes_sans_erreur(s: SuperviseurTache, valide: bool)
    requires
        s.bien_forme(),
    ensures
        ({
            let (t, a) = transition(s, EvenementTache::LectureReussie { valide });
            &&& t.erreurs_consecutives == 0
            &&& t.phase == s.phase
            &&& !a.compter_erreur
            &&& !a.compter_reinit
            &&& a.publication == Some(Publication { valide, erreurs_consecutives: 0 })
            &&& (s.politique.remise_backoff_en_lecture ==> t.backoff_ms == s.politique.backoff_initial_ms)
        }),
{
}

/// Tâche GPS : depuis une lecture sans erreur en cours, les 49 premiers
/// passages sans nouvelle trame ne publient rien, ne comptent ni erreur ni
/// réinitialisation et attendent chacun 200 ms ; le 50ᵉ (10 s de silence)
/// publie une mesure invalide et renvoie la tâche en initialisation.
pub proof fn loi_silence_gps(s: SuperviseurTache)
    requires
        s.bien_forme(),
        s.politique == politique_gps(),
        s.phase is Lecture,
        s.erreurs_consecutives == 0,
    ensures
        forall|k: nat| k < 49 ==> {
            let a = (#[trigger] transition(apres(s, EvenementTache::LectureEchouee, k), EvenementTache::LectureEchouee)).1;
            &&& a.publication is None
            &&& !a.compter_erreur
            &&& !a.compter_reinit
            &&& a.pause_ms == 200
        },
        forall|k: nat| k <= 49 ==> (#[trigger] apres(s, EvenementTache::LectureEchouee, k)).phase is Lecture,
        ({
            let a = transition(apres(s, EvenementTache::LectureEchouee, 49), EvenementTache::LectureEchouee).1;
            &&& a.compter_reinit
            &&& a.publication == Some(Publication { valide: false, erreurs_consecutives: 50 })
        }),
        apres(s, EvenementTache::LectureEchouee, 50).phase is Initialisation,
{
    let e = EvenementTache::LectureEchouee;
    loi_reinit_au_seuil(s);
    assert forall|k: nat| k < 49 implies {
        let a = (#[trigger] transition(apres(s, e, k), e)).1;
        &&& a.publication is None
        &&& !a.compter_erreur
        &&& !a.compter_reinit
        &&& a.pause_ms == 200
    } by {
        lemme_echecs_lecture(s, k);
    }
    lemme_echecs_lecture(s, 49);
}


/// État après la suite d'événements `evts`, dans l'ordre.
pub open spec fn suite_evenements(s: SuperviseurTache, evts: Seq<EvenementTache>) -> SuperviseurTache
    decreases evts.len(),
{
    if evts.len() == 0 {
        s
    } else {
        transition(suite_evenements(s, evts.drop_last()), evts.last()).0
    }
}

/// Événement de lecture (réussie ou non).
pub open spec fn est_lecture(e: EvenementTache) -> bool {
    e is LectureReussie || e is LectureEchouee
}

proof fn lemme_lectures_gardent_reinit(s: SuperviseurTache, evts: Seq<EvenementTache>)
    requires
        s.bien_forme(),
        forall|i: int| 0 <= i < evts.len() ==> est_lecture(#[trigger] evts[i]),
    ensures
        suite_evenements(s, evts).bien_forme(),
        suite_evenements(s, evts).nb_reinit == s.nb_reinit,
        suite_evenements(s, evts).politique == s.politique,
    decreases evts.len(),
{
    if evts.len() > 0 {
        let debut = evts.drop_last();
        assert forall|i: int| 0 <= i < debut.len() implies est_lecture(#[trigger] debut[i]) by {
            assert(debut[i] == evts[i]);
        }
        lemme_lectures_gardent_reinit(s, debut);
        assert(est_lecture(evts[evts.len() - 1]));
        loi_invariant_preserve(suite_evenements(s, debut), evts.last());
    }
}

/// Une initialisation réussie remet la reprise à neuf : la tâche passe en
/// lecture, les compteurs d'échecs de lecture et de réinitialisations ratées
/// repartent de zéro, le backoff revient à sa valeur initiale, et rien n'est
/// publié ni attendu. Les lectures qui suivent, réussies ou non (y compris
/// celles qui renvoient la tâche en initialisation), ne touchent pas au
/// compteur de réinitialisations ratées : le prochain échec d'initialisation
/// est publié avec un compteur de 1 et, si le seuil de suspension dépasse 1,
/// n'attend que le backoff courant au lieu de la suspension longue.
pub proof fn loi_init_reussie_remet_a_zero(s: SuperviseurTache, lectures: Seq<EvenementTache>)
    requires
        s.bien_forme(),
        forall|i: int| 0 <= i < lectures.len() ==> est_lecture(#[trigger] lectures[i]),
    ensures
        ({
            let (t, a) = transition(s, EvenementTache::InitReussie);
            &&& t.phase is Lecture
            &&& t.erreurs_consecutives == 0
            &&& t.nb_reinit == 0
            &&& t.backoff_ms == s.politique.backoff_initial_ms
            &&& t.politique == s.politique
            &&& a.publication is None
            &&& a.pause_ms == 0
            &&& !a.compter_erreur
            &&& !a.compter_reinit
        }),
        ({
            let u = suite_evenements(transition(s, EvenementTache::InitReussie).0, lectures);
            let a = transition(u, EvenementTache::InitEchouee).1;
            &&& u.nb_reinit == 0
            &&& a.publication == Some(Publication { valide: false, erreurs_consecutives: 1 })
            &&& a.compter_reinit
            &&& (s.politique.reinit_max > 1 ==> a.pause_ms == u.backoff_ms)
            &&& (s.politique.reinit_max > 1 ==> transition(u, EvenementTache::InitEchouee).0.nb_reinit == 1)
        }),
{
    let t = transition(s, EvenementTache::InitReussie).0;
    loi_invariant_preserve(s, EvenementTache::InitReussie);
    lemme_lectures_gardent_reinit(t, lectures);
}

} // verus!

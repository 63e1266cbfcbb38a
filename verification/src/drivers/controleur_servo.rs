//! Liaison série Pi ↔ Arduino Nano (servos et radiocommande).
//!
//! - trame consigne Pi → Arduino : 11 octets (`0xAA`, fanions, 4 × u16 LE, XOR)
//! - trame remontée Arduino → Pi : 15 octets (`0xBB`, fanions, 6 × u16 LE, XOR)
//!
//! Un octet de début erroné ou une somme de contrôle invalide fait avancer le
//! tampon de réception jusqu'au prochain octet de début.
use vstd::prelude::*;
use crate::types::{ErreursAirHaum, Result};
use crate::hal::uart::PortSerie;
use crate::systeme::texte::Saisie;
use crate::hal::i2c::{u16_le, assembler_u16_le};

verus! {

/// Octet de début d'une trame consigne.
pub const DEBUT_CONSIGNE: u8 = 0xAA;
/// Octet de début d'une trame de remontée.
pub const DEBUT_REMONTEE: u8 = 0xBB;
/// Taille d'une trame consigne.
pub const TAILLE_CONSIGNE: usize = 11;
/// Taille d'une trame de remontée.
pub const TAILLE_REMONTEE: usize = 15;

/// Impulsion minimale (µs).
pub const IMPULSION_MIN_US: u16 = 1_000;
/// Impulsion neutre (µs).
pub const IMPULSION_NEUTRE_US: u16 = 1_500;
/// Impulsion maximale (µs).
pub const IMPULSION_MAX_US: u16 = 2_000;

/// Consignes envoyées au Nano.
#[derive(Debug, Clone)]
pub struct ConsignesServos {
    /// Ailerons en µs.
    pub ailerons: u16,
    /// Gouverne de profondeur en µs.
    pub profondeur: u16,
    /// Gaz en µs (ignorés par le Nano si non armé).
    pub gaz: u16,
    /// Gouverne de direction en µs.
    pub direction: u16,
    /// Armement des gaz.
    pub arme: bool,
}

/// Gouverne actionnée lors d'un test de débattement.
#[derive(Debug, Clone, Copy, PartialEq, Eq)]
pub enum SurfaceVol {
    Ailerons,
    Profondeur,
    Direction,
}

impl ConsignesServos {
    /// Consigne d'un test de débattement : la gouverne `surface` à
    /// `impulsion`, les autres au neutre, gaz au minimum, non armé.
    pub fn pour_surface(surface: SurfaceVol, impulsion: u16) -> (c: ConsignesServos)
        ensures
            c.ailerons == (if surface == SurfaceVol::Ailerons { impulsion } else { IMPULSION_NEUTRE_US }),
            c.profondeur == (if surface == SurfaceVol::Profondeur { impulsion } else { IMPULSION_NEUTRE_US }),
            c.direction == (if surface == SurfaceVol::Direction { impulsion } else { IMPULSION_NEUTRE_US }),
            c.gaz == IMPULSION_MIN_US,
            !c.arme,
    {
        let mut c = ConsignesServos::neutre();
        match surface {
            SurfaceVol::Ailerons => c.ailerons = impulsion,
            SurfaceVol::Profondeur => c.profondeur = impulsion,
            SurfaceVol::Direction => c.direction = impulsion,
        }
        c
    }

    /// Position de sécurité : servos au neutre, gaz au minimum, non armé.
    pub fn neutre() -> (c: ConsignesServos)
        ensures
            c.ailerons == IMPULSION_NEUTRE_US,
            c.profondeur == IMPULSION_NEUTRE_US,
            c.gaz == IMPULSION_MIN_US,
            c.direction == IMPULSION_NEUTRE_US,
            !c.arme,
    {
        ConsignesServos {
            ailerons: IMPULSION_NEUTRE_US,
            profondeur: IMPULSION_NEUTRE_US,
            gaz: IMPULSION_MIN_US,
            direction: IMPULSION_NEUTRE_US,
            arme: false,
        }
    }
}

/// Choix de l'opérateur dans le menu de test des débattements.
#[derive(Debug, Clone, Copy, PartialEq, Eq)]
pub enum ChoixDebattement {
    /// Tester la gouverne donnée.
    Tester(SurfaceVol),
    /// Quitter le test.
    Quitter,
    /// Saisie non reconnue.
    Invalide,
}

/// Choix que représente une saisie : `1`, `2`, `3` pour ailerons,
/// profondeur, direction ; `q` ou `Q` pour quitter.
pub open spec fn spec_choix_debattement(s: Saisie) -> ChoixDebattement {
    match s {
        Saisie::Touche(c) => if c == 'q' || c == 'Q' {
            ChoixDebattement::Quitter
        } else if c == '1' {
            ChoixDebattement::Tester(SurfaceVol::Ailerons)
        } else if c == '2' {
            ChoixDebattement::Tester(SurfaceVol::Profondeur)
        } else if c == '3' {
            ChoixDebattement::Tester(SurfaceVol::Direction)
        } else {
            ChoixDebattement::Invalide
        },
        _ => ChoixDebattement::Invalide,
    }
}

/// Décode une saisie du menu de test des débattements.
pub fn choix_debattement(s: Saisie) -> (r: ChoixDebattement)
    ensures
        r == spec_choix_debattement(s),
{
    match s {
        Saisie::Touche(c) => {
            if c == 'q' || c == 'Q' {
                ChoixDebattement::Quitter
            } else if c == '1' {
                ChoixDebattement::Tester(SurfaceVol::Ailerons)
            } else if c == '2' {
                ChoixDebattement::Tester(SurfaceVol::Profondeur)
            } else if c == '3' {
                ChoixDebattement::Tester(SurfaceVol::Direction)
            } else {
                ChoixDebattement::Invalide
            }
        },
        _ => ChoixDebattement::Invalide,
    }
}

/// Impulsions successives d'un test de débattement : minimum, maximum, puis neutre.
pub fn impulsions_debattement() -> (v: [u16; 3])
    ensures
        v@ == seq![IMPULSION_MIN_US, IMPULSION_MAX_US, IMPULSION_NEUTRE_US],
{
    let v = [IMPULSION_MIN_US, IMPULSION_MAX_US, IMPULSION_NEUTRE_US];
    assert(v@ =~= seq![IMPULSION_MIN_US, IMPULSION_MAX_US, IMPULSION_NEUTRE_US]);
    v
}

/// Mode d'arbitrage actif sur le Nano.
#[derive(Debug, Clone, Copy, PartialEq, Eq)]
pub enum ModeArduino {
    Autopilote,
    Manuel,
}

/// État remonté par le Nano.
#[derive(Debug, Clone)]
pub struct EtatArduino {
    pub mode: ModeArduino,
    /// Signal RC absent depuis plus d'une seconde.
    pub rc_perdu: bool,
    /// Aucune trame Pi valide depuis deux secondes.
    pub chien_de_garde: bool,
    /// Impulsions RC des canaux 1 à 5 (µs).
    pub canaux_rc: [u16; 5],
    /// Gaz réellement appliqués au variateur (µs).
    pub gaz_applique: u16,
}

impl EtatArduino {
    /// État initial avant tout contact avec le Nano.
    pub fn absent() -> (e: EtatArduino)
        ensures
            e.mode == ModeArduino::Autopilote,
            e.rc_perdu,
            !e.chien_de_garde,
            e.canaux_rc@ == seq![IMPULSION_NEUTRE_US; 5],
            e.gaz_applique == IMPULSION_MIN_US,
    {
        let e = EtatArduino {
            mode: ModeArduino::Autopilote,
            rc_perdu: true,
            chien_de_garde: false,
            canaux_rc: [IMPULSION_NEUTRE_US; 5],
            gaz_applique: IMPULSION_MIN_US,
        };
        assert(e.canaux_rc@ =~= seq![IMPULSION_NEUTRE_US; 5]);
        e
    }
}

// ── Spécification du protocole ──────────────────────────────────────────────

/// OU exclusif de tous les octets de `s`.
pub open spec fn xor_octets(s: Seq<u8>) -> u8
    decreases s.len(),
{
    if s.len() == 0 {
        0
    } else {
        xor_octets(s.drop_last()) ^ s.last()
    }
}

/// Octet de poids faible d'un u16.
pub open spec fn octet_bas(v: u16) -> u8 {
    (v % 256) as u8
}

/// Octet de poids fort d'un u16.
pub open spec fn octet_haut(v: u16) -> u8 {
    (v / 256) as u8
}

/// Charge utile (9 octets) d'une trame consigne.
pub open spec fn charge_consigne(c: ConsignesServos) -> Seq<u8> {
    seq![
        if c.arme { 1u8 } else { 0u8 },
        octet_bas(c.ailerons), octet_haut(c.ailerons),
        octet_bas(c.profondeur), octet_haut(c.profondeur),
        octet_bas(c.gaz), octet_haut(c.gaz),
        octet_bas(c.direction), octet_haut(c.direction),
    ]
}

/// Trame consigne complète (11 octets).
pub open spec fn trame_consigne(c: ConsignesServos) -> Seq<u8> {
    seq![DEBUT_CONSIGNE] + charge_consigne(c) + seq![xor_octets(charge_consigne(c))]
}

/// Somme de contrôle d'une trame de remontée de 15 octets valide.
pub open spec fn somme_remontee_ok(t: Seq<u8>) -> bool {
    xor_octets(t.subrange(1, 14)) == t[14]
}

/// Traitement du tampon de réception : (tampon restant, trame reconnue).
///
/// Les octets précédant le premier octet de début sont écartés ; une trame
/// dont la somme de contrôle est fausse fait avancer d'un octet ; une trame
/// incomplète est conservée en attendant la suite.
pub open spec fn extraire(t: Seq<u8>) -> (Seq<u8>, Option<Seq<u8>>)
    decreases t.len(),
{
    if t.len() == 0 {
        (t, None)
    } else if t[0] != DEBUT_REMONTEE {
        extraire(t.drop_first())
    } else if t.len() < TAILLE_REMONTEE {
        (t, None)
    } else if somme_remontee_ok(t.take(TAILLE_REMONTEE as int)) {
        (t.skip(TAILLE_REMONTEE as int), Some(t.take(TAILLE_REMONTEE as int)))
    } else {
        extraire(t.drop_first())
    }
}

/// `e` est l'état décrit par la trame de remontée `t`.
pub open spec fn etat_decrit(e: EtatArduino, t: Seq<u8>) -> bool {
    &&& e.mode == (if t[1] & 0x01 != 0 { ModeArduino::Manuel } else { ModeArduino::Autopilote })
    &&& e.rc_perdu == (t[1] & 0x02 != 0)
    &&& e.chien_de_garde == (t[1] & 0x04 != 0)
    &&& e.canaux_rc@ == seq![
        u16_le(t[2], t[3]),
        u16_le(t[4], t[5]),
        u16_le(t[6], t[7]),
        u16_le(t[8], t[9]),
        u16_le(t[10], t[11]),
    ]
    &&& e.gaz_applique == u16_le(t[12], t[13])
}

/// Le résultat `r` correspond à la trame `t` reconnue (ou à son absence).
pub open spec fn resultat_conforme(r: Option<EtatArduino>, t: Option<Seq<u8>>) -> bool {
    match (r, t) {
        (None, None) => true,
        (Some(e), Some(t)) => etat_decrit(e, t),
        _ => false,
    }
}

proof fn lemme_extraire_saute(t: Seq<u8>, i: int)
    requires
        0 <= i <= t.len(),
        forall|j: int| 0 <= j < i ==> t[j] != DEBUT_REMONTEE,
    ensures
        extraire(t) == extraire(t.skip(i)),
    decreases i,
{
    if i > 0 {
        assert(t.skip(1) == t.drop_first());
        lemme_extraire_saute(t.drop_first(), i - 1);
        assert(t.drop_first().skip(i - 1) == t.skip(i));
    } else {
        assert(t.skip(0) == t);
    }
}

/// Au rang `j` du tampon `t`, l'extraction s'arrête : octet de début suivi
/// soit de moins de 15 octets en tout (trame incomplète), soit d'une trame de
/// 15 octets de somme de contrôle valide.
pub open spec fn arret_extraction(t: Seq<u8>, j: int) -> bool {
    &&& t[j] == DEBUT_REMONTEE
    &&& (j + TAILLE_REMONTEE > t.len() || somme_remontee_ok(t.subrange(j, j + TAILLE_REMONTEE)))
}

proof fn lemme_arret_decale(t: Seq<u8>, j: int)
    requires
        1 <= j < t.len(),
    ensures
        arret_extraction(t, j) == arret_extraction(t.drop_first(), j - 1),
{
    let u = t.drop_first();
    assert(u[j - 1] == t[j]);
    if j + TAILLE_REMONTEE <= t.len() {
        assert(u.subrange(j - 1, j - 1 + TAILLE_REMONTEE) =~= t.subrange(j, j + TAILLE_REMONTEE));
    }
}

/// Extraction d'une trame du tampon de réception : sans rang d'arrêt, tout
/// le tampon est écarté sans trame ; sinon, au premier rang d'arrêt `j`, les
/// octets qui le précèdent sont écartés (octets parasites et trames de somme
/// de contrôle fausse) et soit la trame de 15 octets qui y commence est
/// reconnue et retirée, soit, incomplète, elle reste en tampon.
pub proof fn loi_extraction(t: Seq<u8>, j: int)
    ensures
        (forall|k: int| 0 <= k < t.len() ==> !#[trigger] arret_extraction(t, k)) ==> extraire(t) == (Seq::<u8>::empty(), None::<Seq<u8>>),
        0 <= j < t.len() && arret_extraction(t, j) && (forall|k: int| 0 <= k < j ==> !#[trigger] arret_extraction(t, k)) ==>
            extraire(t) == (if j + TAILLE_REMONTEE <= t.len() {
                (t.skip(j + TAILLE_REMONTEE), Some(t.subrange(j, j + TAILLE_REMONTEE)))
            } else {
                (t.skip(j), None::<Seq<u8>>)
            }),
    decreases t.len(),
{
    if t.len() > 0 {
        let u = t.drop_first();
        if !arret_extraction(t, 0) {
            assert(extraire(t) == extraire(u)) by {
                if t[0] == DEBUT_REMONTEE {
                    assert(t.take(TAILLE_REMONTEE as int) =~= t.subrange(0, TAILLE_REMONTEE as int));
                }
            }
            loi_extraction(u, j - 1);
            assert forall|k: int| 1 <= k < t.len() implies arret_extraction(t, k) == #[trigger] arret_extraction(u, k - 1) by {
                lemme_arret_decale(t, k);
            }
            if forall|k: int| 0 <= k < t.len() ==> !#[trigger] arret_extraction(t, k) {
                assert forall|k: int| 0 <= k < u.len() implies !#[trigger] arret_extraction(u, k) by {
                    lemme_arret_decale(t, k + 1);
                    assert(!arret_extraction(t, k + 1));
                }
            }
            if 0 <= j < t.len() && arret_extraction(t, j) && (forall|k: int| 0 <= k < j ==> !#[trigger] arret_extraction(t, k)) {
                assert(j >= 1);
                lemme_arret_decale(t, j);
                assert forall|k: int| 0 <= k < j - 1 implies !#[trigger] arret_extraction(u, k) by {
                    lemme_arret_decale(t, k + 1);
                    assert(!arret_extraction(t, k + 1));
                }
                assert(u.skip(j - 1) =~= t.skip(j));
                if j + TAILLE_REMONTEE <= t.len() {
                    assert(u.skip(j - 1 + TAILLE_REMONTEE) =~= t.skip(j + TAILLE_REMONTEE));
                    assert(u.subrange(j - 1, j - 1 + TAILLE_REMONTEE) =~= t.subrange(j, j + TAILLE_REMONTEE));
                }
            }
        } else {
            if t.len() >= TAILLE_REMONTEE {
                assert(t.take(TAILLE_REMONTEE as int) =~= t.subrange(0, TAILLE_REMONTEE as int));
            }
            assert(t.skip(0) =~= t);
            if 0 <= j < t.len() && arret_extraction(t, j) && (forall|k: int| 0 <= k < j ==> !#[trigger] arret_extraction(t, k)) {
                assert(j == 0);
            }
        }
    }
}

/// Une trame de remontée intègre est reconnue telle quelle, quels que soient
/// les octets parasites (sans octet de début) qui la précèdent ; les octets
/// qui la suivent restent dans le tampon.
pub proof fn loi_remontee_reconnue(parasites: Seq<u8>, t: Seq<u8>, suite: Seq<u8>)
    requires
        forall|j: int| 0 <= j < parasites.len() ==> parasites[j] != DEBUT_REMONTEE,
        t.len() == TAILLE_REMONTEE,
        t[0] == DEBUT_REMONTEE,
        somme_remontee_ok(t),
    ensures
        extraire(parasites + t + suite) == (suite, Some(t)),
{
    let flux = parasites + t + suite;
    assert forall|j: int| 0 <= j < parasites.len() implies flux[j] != DEBUT_REMONTEE by {
        assert(flux[j] == parasites[j]);
    }
    lemme_extraire_saute(flux, parasites.len() as int);
    let reste = flux.skip(parasites.len() as int);
    assert(reste =~= t + suite);
    assert(reste.take(TAILLE_REMONTEE as int) =~= t);
    assert(reste.skip(TAILLE_REMONTEE as int) =~= suite);
}

// ── Calculs exécutables ─────────────────────────────────────────────────────

/// OU exclusif des octets `s[debut..fin]`.
fn xor_tranche(s: &[u8], debut: usize, fin: usize) -> (x: u8)
    requires
        debut <= fin <= s@.len(),
    ensures
        x == xor_octets(s@.subrange(debut as int, fin as int)),
{
    let mut acc: u8 = 0;
    let mut i = debut;
    while i < fin
        invariant
            debut <= i <= fin <= s@.len(),
            acc == xor_octets(s@.subrange(debut as int, i as int)),
        decreases fin - i,
    {
        assert(s@.subrange(debut as int, i + 1).drop_last() == s@.subrange(debut as int, i as int));
        acc = acc ^ s[i];
        i = i + 1;
    }
    acc
}

/// Encode une trame consigne.
pub fn encoder_consigne(c: &ConsignesServos) -> (t: [u8; 11])
    ensures
        t@ == trame_consigne(*c),
{
    let fanions: u8 = if c.arme { 1 } else { 0 };
    let charge: [u8; 9] = [
        fanions,
        (c.ailerons % 256) as u8, (c.ailerons / 256) as u8,
        (c.profondeur % 256) as u8, (c.profondeur / 256) as u8,
        (c.gaz % 256) as u8, (c.gaz / 256) as u8,
        (c.direction % 256) as u8, (c.direction / 256) as u8,
    ];
    assert(charge@ =~= charge_consigne(*c));
    let checksum = xor_tranche(&charge, 0, 9);
    assert(charge@.subrange(0, 9) =~= charge@);
    let trame: [u8; 11] = [
        DEBUT_CONSIGNE,
        charge[0], charge[1], charge[2], charge[3], charge[4],
        charge[5], charge[6], charge[7], charge[8],
        checksum,
    ];
    assert(trame@ =~= trame_consigne(*c));
    trame
}

/// Décode une trame de remontée (15 octets, somme non vérifiée ici).
fn parser_remontee(trame: &[u8]) -> (e: EtatArduino)
    requires
        trame@.len() >= TAILLE_REMONTEE,
    ensures
        etat_decrit(e, trame@),
{
    let fanions = trame[1];
    let canaux = [
        assembler_u16_le(trame[2], trame[3]),
        assembler_u16_le(trame[4], trame[5]),
        assembler_u16_le(trame[6], trame[7]),
        assembler_u16_le(trame[8], trame[9]),
        assembler_u16_le(trame[10], trame[11]),
    ];
    let e = EtatArduino {
        mode: if fanions & 0x01 != 0 { ModeArduino::Manuel } else { ModeArduino::Autopilote },
        rc_perdu: fanions & 0x02 != 0,
        chien_de_garde: fanions & 0x04 != 0,
        canaux_rc: canaux,
        gaz_applique: assembler_u16_le(trame[12], trame[13]),
    };
    assert(e.canaux_rc@ =~= seq![
        u16_le(trame@[2], trame@[3]),
        u16_le(trame@[4], trame@[5]),
        u16_le(trame@[6], trame@[7]),
        u16_le(trame@[8], trame@[9]),
        u16_le(trame@[10], trame@[11]),
    ]);
    e
}

/// Position du premier octet de début dans `t`.
fn chercher_debut(t: &Vec<u8>) -> (p: Option<usize>)
    ensures
        match p {
            Some(i) => i < t@.len() && t@[i as int] == DEBUT_REMONTEE
                && forall|j: int| 0 <= j < i ==> t@[j] != DEBUT_REMONTEE,
            None => forall|j: int| 0 <= j < t@.len() ==> t@[j] != DEBUT_REMONTEE,
        },
{
    let mut i: usize = 0;
    while i < t.len()
        invariant
            0 <= i <= t@.len(),
            forall|j: int| 0 <= j < i ==> t@[j] != DEBUT_REMONTEE,
        decreases t@.len() - i,
    {
        if t[i] == DEBUT_REMONTEE {
            return Some(i);
        }
        i = i + 1;
    }
    None
}

/// Retire les `k` premiers octets de `v`.
fn retirer_debut(v: &mut Vec<u8>, k: usize)
    requires
        k <= old(v)@.len(),
    ensures
        final(v)@ == old(v)@.skip(k as int),
{
    let mut reste: Vec<u8> = Vec::new();
    let mut i = k;
    while i < v.len()
        invariant
            k <= i <= v@.len(),
            v@ == old(v)@,
            reste@ == v@.subrange(k as int, i as int),
        decreases v@.len() - i,
    {
        reste.push(v[i]);
        assert(v@.subrange(k as int, i + 1) == v@.subrange(k as int, i as int).push(v@[i as int]));
        i = i + 1;
    }
    *v = reste;
}

// ── Driver ──────────────────────────────────────────────────────────────────

/// Driver Pi ↔ Arduino Nano.
pub struct ControleurServo<P: PortSerie> {
    /// Port série de la liaison.
    pub port: P,
    tampon: Vec<u8>,
}

impl<P: PortSerie> ControleurServo<P> {
    /// Octets reçus en attente d'une trame complète.
    pub closed spec fn tampon(&self) -> Seq<u8> {
        self.tampon@
    }

    /// Port série du driver.
    pub closed spec fn liaison(&self) -> P {
        self.port
    }

    /// Port série du driver.
    pub fn port_serie(&self) -> (p: &P)
        ensures
            *p == self.liaison(),
    {
        &self.port
    }

    /// Driver sur le port donné, tampon vide.
    pub fn nouveau(port: P) -> (d: Self)
        ensures
            d.liaison() == port,
            d.tampon() == Seq::<u8>::empty(),
    {
        ControleurServo { port, tampon: Vec::with_capacity(TAILLE_REMONTEE * 2) }
    }

    /// Envoie une trame consigne ; le port peut n'en émettre qu'un préfixe,
    /// et l'émet entière s'il n'en tronque aucune.
    pub fn envoyer(&mut self, c: &ConsignesServos) -> (r: Result<()>)
        ensures
            r is Ok <==> old(self).liaison().ecriture_acceptee(trame_consigne(*c)),
            r is Ok && old(self).liaison().ecriture_complete(trame_consigne(*c))
                ==> final(self).liaison().emis() == old(self).liaison().emis() + trame_consigne(*c),
            final(self).tampon() == old(self).tampon(),
            final(self).liaison().entrant() == old(self).liaison().entrant(),
            r is Ok ==> exists|n: int| 0 <= n <= TAILLE_CONSIGNE
                && #[trigger] final(self).liaison().emis() == old(self).liaison().emis() + trame_consigne(*c).take(n),
            r is Err ==> final(self).liaison().emis() == old(self).liaison().emis(),
    {
        let trame = encoder_consigne(c);
        match self.port.ecrire(&trame) {
            Ok(n) => {
                assert(trame@.subrange(0, n as int) == trame_consigne(*c).take(n as int));
                Ok(())
            },
            Err(e) => Err(e),
        }
    }

    /// Ajoute `octets` au tampon puis tente d'en extraire une trame de remontée.
    pub fn accepter_octets(&mut self, octets: &[u8]) -> (r: Option<EtatArduino>)
        ensures
            final(self).liaison() == old(self).liaison(),
            final(self).tampon() == extraire(old(self).tampon() + octets@).0,
            resultat_conforme(r, extraire(old(self).tampon() + octets@).1),
    {
        let mut i: usize = 0;
        while i < octets.len()
            invariant
                0 <= i <= octets@.len(),
                self.tampon@ == old(self).tampon@ + octets@.subrange(0, i as int),
                self.port == old(self).port,
            decreases octets@.len() - i,
        {
            self.tampon.push(octets[i]);
            assert(octets@.subrange(0, i + 1) == octets@.subrange(0, i as int).push(octets@[i as int]));
            i = i + 1;
        }
        assert(octets@.subrange(0, octets@.len() as int) == octets@);
        self.extraire_trame()
    }

    fn extraire_trame(&mut self) -> (r: Option<EtatArduino>)
        ensures
            final(self).liaison() == old(self).liaison(),
            final(self).tampon() == extraire(old(self).tampon()).0,
            resultat_conforme(r, extraire(old(self).tampon()).1),
    {
        let ghost t0 = self.tampon@;
        loop
            invariant
                t0 == old(self).tampon@,
                extraire(self.tampon@) == extraire(t0),
                self.port == old(self).port,
            decreases self.tampon@.len(),
        {
            match chercher_debut(&self.tampon) {
                None => {
                    proof {
                        lemme_extraire_saute(self.tampon@, self.tampon@.len() as int);
                        assert(self.tampon@.skip(self.tampon@.len() as int) =~= Seq::<u8>::empty());
                    }
                    self.tampon.clear();
                    return None;
                },
                Some(pos) => {
                    proof {
                        lemme_extraire_saute(self.tampon@, pos as int);
                    }
                    let ghost t = self.tampon@.skip(pos as int);
                    assert(t[0] == DEBUT_REMONTEE);
                    if self.tampon.len() - pos < TAILLE_REMONTEE {
                        assert(extraire(t) == (t, None::<Seq<u8>>));
                        if pos > 0 {
                            retirer_debut(&mut self.tampon, pos);
                        } else {
                            assert(self.tampon@.skip(0) == self.tampon@);
                        }
                        return None;
                    }
                    let c = xor_tranche(self.tampon.as_slice(), pos + 1, pos + 14);
                    assert(t.take(15).subrange(1, 14) == self.tampon@.subrange(pos + 1, pos + 14));
                    if c == self.tampon[pos + 14] {
                        let trame = self.tampon.as_slice();
                        let ghost tt = t.take(15);
                        let e = parser_remontee_a(trame, pos);
                        retirer_debut(&mut self.tampon, pos + TAILLE_REMONTEE);
                        assert(t.skip(15) == self.tampon@);
                        return Some(e);
                    }
                    assert(t.drop_first() == self.tampon@.skip(pos + 1));
                    retirer_debut(&mut self.tampon, pos + 1);
                },
            }
        }
    }

    /// Lit les octets disponibles sur le port et tente d'extraire une trame de remontée.
    ///
    /// `Ok(None)` si aucune trame complète et valide n'est disponible ; une
    /// absence de données (`Timeout`) n'est pas une erreur.
    pub fn recevoir(&mut self) -> (r: Result<Option<EtatArduino>>)
        ensures
            !old(self).liaison().lecture_acceptee() && !(old(self).liaison().erreur_lecture() is Timeout) ==> {
                &&& r == Err::<Option<EtatArduino>, ErreursAirHaum>(old(self).liaison().erreur_lecture())
                &&& final(self).tampon() == old(self).tampon()
                &&& final(self).liaison().entrant() == old(self).liaison().entrant()
            },
            !old(self).liaison().lecture_acceptee() && old(self).liaison().erreur_lecture() is Timeout ==> {
                &&& r matches Ok(res)
                &&& final(self).liaison().entrant() == old(self).liaison().entrant()
                &&& final(self).tampon() == extraire(old(self).tampon()).0
                &&& resultat_conforme(res, extraire(old(self).tampon()).1)
            },
            old(self).liaison().lecture_acceptee() && old(self).liaison().lecture_complete() ==> {
                let lu = old(self).liaison().entrant().take(
                    vstd::math::min(64, old(self).liaison().entrant().len() as int));
                &&& r matches Ok(res)
                &&& final(self).liaison().entrant() == old(self).liaison().entrant().skip(lu.len() as int)
                &&& final(self).tampon() == extraire(old(self).tampon() + lu).0
                &&& resultat_conforme(res, extraire(old(self).tampon() + lu).1)
            },
            match r {
                Err(e) => !(e is Timeout) && final(self).tampon() == old(self).tampon(),
                Ok(res) => exists|lu: Seq<u8>| lu.len() <= 64
                    && #[trigger] (lu + final(self).liaison().entrant()) == old(self).liaison().entrant()
                    && final(self).tampon() == extraire(old(self).tampon() + lu).0
                    && resultat_conforme(res, extraire(old(self).tampon() + lu).1),
            },
            final(self).liaison().emis() == old(self).liaison().emis(),
    {
        let mut buf = [0u8; 64];
        let lecture = self.port.lire(&mut buf);
        match lecture {
            Ok(n) => {
                let octets = copier_prefixe(&buf, n);
                let ghost lu = octets@;
                assert(lu + self.port.entrant() == old(self).liaison().entrant()) by {
                    assert(old(self).liaison().entrant() =~= old(self).liaison().entrant().subrange(0, n as int) + old(self).liaison().entrant().skip(n as int));
                }
                Ok(self.accepter_octets(octets.as_slice()))
            },
            Err(ErreursAirHaum::Timeout) => {
                let vide: [u8; 0] = [];
                assert(vide@ + self.port.entrant() =~= old(self).liaison().entrant());
                Ok(self.accepter_octets(&vide))
            },
            Err(e) => Err(e),
        }
    }
}

/// Décode la trame de remontée commençant à `pos`.
fn parser_remontee_a(t: &[u8], pos: usize) -> (e: EtatArduino)
    requires
        pos + TAILLE_REMONTEE <= t@.len(),
    ensures
        etat_decrit(e, t@.subrange(pos as int, pos + TAILLE_REMONTEE)),
{
    let longueur = t.len();
    let mut trame = [0u8; 15];
    let mut i: usize = 0;
    while i < 15
        invariant
            0 <= i <= 15,
            longueur == t@.len(),
            pos + TAILLE_REMONTEE <= longueur,
            forall|j: int| 0 <= j < i ==> trame@[j] == t@[pos + j],
        decreases 15 - i,
    {
        trame[i] = t[pos + i];
        i = i + 1;
    }
    assert(trame@ =~= t@.subrange(pos as int, pos + TAILLE_REMONTEE));
    parser_remontee(&trame)
}

/// Copie des `n` premiers octets de `buf`.
fn copier_prefixe(buf: &[u8], n: usize) -> (v: Vec<u8>)
    requires
        n <= buf@.len(),
    ensures
        v@ == buf@.subrange(0, n as int),
{
    let mut v: Vec<u8> = Vec::new();
    let mut i: usize = 0;
    while i < n
        invariant
            0 <= i <= n <= buf@.len(),
            v@ == buf@.subrange(0, i as int),
        decreases n - i,
    {
        v.push(buf[i]);
        assert(buf@.subrange(0, i + 1) == buf@.subrange(0, i as int).push(buf@[i as int]));
        i = i + 1;
    }
    v
}


/// Touches du test des débattements : 1, 2 et 3 choisissent respectivement
/// ailerons, profondeur et direction, q ou Q quitte ; toute autre saisie
/// (ligne vide comprise) est invalide.
pub proof fn loi_touches_debattement(s: Saisie, c: char)
    ensures
        spec_choix_debattement(Saisie::Touche(c)) == ChoixDebattement::Tester(SurfaceVol::Ailerons) <==> c == '1',
        spec_choix_debattement(Saisie::Touche(c)) == ChoixDebattement::Tester(SurfaceVol::Profondeur) <==> c == '2',
        spec_choix_debattement(Saisie::Touche(c)) == ChoixDebattement::Tester(SurfaceVol::Direction) <==> c == '3',
        spec_choix_debattement(Saisie::Touche(c)) is Quitter <==> (c == 'q' || c == 'Q'),
        !(s is Touche) ==> spec_choix_debattement(s) is Invalide,
{
}

} // verus!

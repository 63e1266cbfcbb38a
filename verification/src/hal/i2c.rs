//! Abstraction du bus I²C et bus simulé en mémoire.
use vstd::prelude::*;
use crate::types::{ErreursAirHaum, Horodatage, Result, instant_maintenant, micros_ecoulees};
use crate::systeme::texte::{hex2_maj, pousser_hex2};

verus! {

/// Entier 16 bits petit-boutiste formé de deux octets.
pub open spec fn u16_le(lo: u8, hi: u8) -> u16 {
    (lo as int + 256 * hi as int) as u16
}

/// Entier 16 bits gros-boutiste formé de deux octets.
pub open spec fn u16_be(hi: u8, lo: u8) -> u16 {
    (lo as int + 256 * hi as int) as u16
}

/// Assemble deux octets en entier 16 bits (octet de poids faible en premier).
pub fn assembler_u16_le(lo: u8, hi: u8) -> (v: u16)
    ensures
        v == u16_le(lo, hi),
{
    lo as u16 + (hi as u16) * 256
}

/// Octet rendu par la lecture du registre `registre` du périphérique
/// `adresse` depuis cet état du bus ; `None` si le bus refuse la lecture.
pub open spec fn registre_lu<B: BusI2c>(bus: B, adresse: u8, registre: u8) -> Option<u8> {
    if bus.lecture_acceptee(adresse, seq![registre], 1) {
        Some(bus.reponse(adresse, seq![registre], 1)[0])
    } else {
        None
    }
}

/// Une lecture de `n` octets du périphérique `b` à partir du registre `g`
/// passe par le registre `cible` du périphérique `adresse`.
pub open spec fn lecture_couvre(b: u8, g: u8, n: nat, adresse: u8, cible: u8) -> bool {
    b == adresse && exists|i: int| 0 <= i < n && #[trigger] registre_suivant(g, i) == cible
}

/// Bus I²C : écritures de registres et transactions écriture-puis-lecture.
///
/// Le modèle abstrait d'un bus comprend le journal des écritures émises
/// (`ecritures`) et la réponse que le bus fournit à une lecture (`reponse`),
/// fonction de l'état du bus avant la transaction.
///
/// Toute erreur d'un bus est une `ErreurI2C`.
///
/// Les bus de la bibliothèque redéfinissent ce modèle et en prouvent les
/// contrats. Le modèle par défaut (journal vide, toute transaction acceptée,
/// réponses vides) n'existe que pour les bus matériels implémentés hors de la
/// bibliothèque ; aucun bus réel ne peut tenir les contrats avec ce modèle,
/// si bien que les garanties des drivers ne disent rien de ces bus-là.
pub trait BusI2c: Sized {
    /// Journal des écritures réussies : (adresse esclave, octets émis).
    closed spec fn ecritures(&self) -> Seq<(u8, Seq<u8>)> {
        Seq::empty()
    }

    /// Octets renvoyés par le périphérique `adresse` pour une lecture de `n`
    /// octets précédée de l'écriture de `registre` (vide pour une lecture brute).
    closed spec fn reponse(&self, adresse: u8, registre: Seq<u8>, n: nat) -> Seq<u8> {
        Seq::empty()
    }

    /// L'écriture de `donnees` vers `adresse` aboutit depuis cet état du bus.
    closed spec fn ecriture_acceptee(&self, adresse: u8, donnees: Seq<u8>) -> bool {
        true
    }

    /// Une lecture brute de `n` octets depuis `adresse` aboutit depuis cet état du bus.
    closed spec fn lecture_brute_acceptee(&self, adresse: u8, n: nat) -> bool {
        true
    }

    /// L'écriture de `registre` suivie de la lecture de `n` octets depuis
    /// `adresse` aboutit depuis cet état du bus.
    closed spec fn lecture_acceptee(&self, adresse: u8, registre: Seq<u8>, n: nat) -> bool {
        true
    }

    /// Le bus est en service : il accepte toute écriture et le reste après
    /// toute opération.
    closed spec fn en_service(&self) -> bool {
        false
    }

    /// Le bus se comporte comme une mémoire de registres : lectures et pauses
    /// le laissent inchangé, et l'écriture réussie d'un registre (deux octets
    /// `[registre, valeur]`) fixe la valeur relue de ce registre sans changer
    /// celle d'aucun autre.
    closed spec fn registres_memoire() -> bool {
        false
    }

    /// Écrit `donnees` (généralement `[registre, valeur, ...]`) vers le périphérique.
    fn ecrire(&mut self, adresse: u8, donnees: &[u8]) -> (r: Result<()>)
        ensures
            old(self).en_service() ==> r is Ok && final(self).en_service(),
            r matches Err(e) ==> e is ErreurI2C,
            r is Ok <==> old(self).ecriture_acceptee(adresse, donnees@),
            r is Ok ==> final(self).ecritures() == old(self).ecritures().push((adresse, donnees@)),
            r is Err ==> final(self).ecritures() == old(self).ecritures(),
            Self::registres_memoire() && r is Ok && donnees@.len() == 2 ==> forall|b: u8, g: u8|
                (if #[trigger] final(self).lecture_acceptee(b, seq![g], 1) { Some(final(self).reponse(b, seq![g], 1)[0]) } else { None })
                    == (if b == adresse && g == donnees@[0] { Some(donnees@[1]) } else {
                        if old(self).lecture_acceptee(b, seq![g], 1) { Some(old(self).reponse(b, seq![g], 1)[0]) } else { None } }),
            Self::registres_memoire() && r is Ok && donnees@.len() == 2 ==> forall|b: u8, g: u8, n: nat|
                !lecture_couvre(b, g, n, adresse, donnees@[0])
                    ==> #[trigger] final(self).reponse(b, seq![g], n) == old(self).reponse(b, seq![g], n),
            Self::registres_memoire() && r is Ok && donnees@.len() == 2 ==> forall|b: u8, g: u8, n: nat|
                !lecture_couvre(b, g, n, adresse, donnees@[0])
                    ==> #[trigger] final(self).lecture_acceptee(b, seq![g], n) == old(self).lecture_acceptee(b, seq![g], n),
    ;

    /// Lit `buffer.len()` octets sans sélection de registre.
    fn lire(&mut self, adresse: u8, buffer: &mut [u8]) -> (r: Result<()>)
        ensures
            old(self).en_service() ==> final(self).en_service(),
            r matches Err(e) ==> e is ErreurI2C,
            r is Ok <==> old(self).lecture_brute_acceptee(adresse, old(buffer)@.len()),
            Self::registres_memoire() ==> *final(self) == *old(self),
            final(buffer)@.len() == old(buffer)@.len(),
            final(self).ecritures() == old(self).ecritures(),
            r is Ok ==> final(buffer)@ == old(self).reponse(adresse, Seq::empty(), old(buffer)@.len()),
    ;

    /// Transaction écriture-puis-lecture sans relâcher le bus (repeated START).
    fn ecrire_lire(&mut self, adresse: u8, registre: &[u8], buffer: &mut [u8]) -> (r: Result<()>)
        ensures
            old(self).en_service() ==> final(self).en_service(),
            r matches Err(e) ==> e is ErreurI2C,
            r is Ok <==> old(self).lecture_acceptee(adresse, registre@, old(buffer)@.len()),
            Self::registres_memoire() ==> *final(self) == *old(self),
            final(buffer)@.len() == old(buffer)@.len(),
            final(self).ecritures() == old(self).ecritures(),
            r is Ok ==> final(buffer)@ == old(self).reponse(adresse, registre@, old(buffer)@.len()),
    ;

    /// Suspend l'appelant pendant `ms` millisecondes (attente d'une conversion
    /// du périphérique) ; n'émet aucune transaction.
    fn pause_ms(&mut self, ms: u32)
        ensures
            old(self).en_service() ==> final(self).en_service(),
            final(self).ecritures() == old(self).ecritures(),
            Self::registres_memoire() ==> *final(self) == *old(self),
    ;

    /// Écrit une valeur dans un registre 8 bits.
    fn ecrire_registre_u8(&mut self, adresse: u8, registre: u8, valeur: u8) -> (r: Result<()>)
        ensures
            old(self).en_service() ==> r is Ok && final(self).en_service(),
            r matches Err(e) ==> e is ErreurI2C,
            r is Ok <==> old(self).ecriture_acceptee(adresse, seq![registre, valeur]),
            Self::registres_memoire() && r is Ok ==> forall|b: u8, g: u8|
                (if #[trigger] final(self).lecture_acceptee(b, seq![g], 1) { Some(final(self).reponse(b, seq![g], 1)[0]) } else { None })
                    == (if b == adresse && g == registre { Some(valeur) } else {
                        if old(self).lecture_acceptee(b, seq![g], 1) { Some(old(self).reponse(b, seq![g], 1)[0]) } else { None } }),
            Self::registres_memoire() && r is Ok ==> forall|b: u8, g: u8, n: nat|
                !lecture_couvre(b, g, n, adresse, registre)
                    ==> #[trigger] final(self).reponse(b, seq![g], n) == old(self).reponse(b, seq![g], n),
            Self::registres_memoire() && r is Ok ==> forall|b: u8, g: u8, n: nat|
                !lecture_couvre(b, g, n, adresse, registre)
                    ==> #[trigger] final(self).lecture_acceptee(b, seq![g], n) == old(self).lecture_acceptee(b, seq![g], n),
            r is Ok ==> final(self).ecritures() == old(self).ecritures().push((adresse, seq![registre, valeur])),
            r is Err ==> final(self).ecritures() == old(self).ecritures(),
    {
        let donnees = [registre, valeur];
        let r = self.ecrire(adresse, &donnees);
        assert(donnees@ == seq![registre, valeur]);
        r
    }

    /// Lit un registre 8 bits.
    fn lire_registre_u8(&mut self, adresse: u8, registre: u8) -> (r: Result<u8>)
        ensures
            old(self).en_service() ==> final(self).en_service(),
            r matches Err(e) ==> e is ErreurI2C,
            r is Ok <==> old(self).lecture_acceptee(adresse, seq![registre], 1),
            Self::registres_memoire() ==> *final(self) == *old(self),
            final(self).ecritures() == old(self).ecritures(),
            r matches Ok(v) ==> v == old(self).reponse(adresse, seq![registre], 1)[0],
    {
        let mut buffer = [0u8; 1];
        let reg = [registre];
        assert(reg@ == seq![registre]);
        let r = self.ecrire_lire(adresse, &reg, &mut buffer);
        match r {
            Ok(()) => Ok(buffer[0]),
            Err(e) => Err(e),
        }
    }

    /// Lit un registre 16 bits gros-boutiste.
    fn lire_registre_u16_be(&mut self, adresse: u8, registre: u8) -> (r: Result<u16>)
        ensures
            old(self).en_service() ==> final(self).en_service(),
            r matches Err(e) ==> e is ErreurI2C,
            r is Ok <==> old(self).lecture_acceptee(adresse, seq![registre], 2),
            Self::registres_memoire() ==> *final(self) == *old(self),
            final(self).ecritures() == old(self).ecritures(),
            r matches Ok(v) ==> ({
                let o = old(self).reponse(adresse, seq![registre], 2);
                v == u16_be(o[0], o[1])
            }),
    {
        let mut buffer = [0u8; 2];
        let reg = [registre];
        assert(reg@ == seq![registre]);
        let r = self.ecrire_lire(adresse, &reg, &mut buffer);
        match r {
            Ok(()) => Ok(assembler_u16_le(buffer[1], buffer[0])),
            Err(e) => Err(e),
        }
    }

    /// Lit un registre 16 bits petit-boutiste.
    fn lire_registre_u16_le(&mut self, adresse: u8, registre: u8) -> (r: Result<u16>)
        ensures
            old(self).en_service() ==> final(self).en_service(),
            r matches Err(e) ==> e is ErreurI2C,
            r is Ok <==> old(self).lecture_acceptee(adresse, seq![registre], 2),
            Self::registres_memoire() ==> *final(self) == *old(self),
            final(self).ecritures() == old(self).ecritures(),
            r matches Ok(v) ==> ({
                let o = old(self).reponse(adresse, seq![registre], 2);
                v == u16_le(o[0], o[1])
            }),
    {
        let mut buffer = [0u8; 2];
        let reg = [registre];
        assert(reg@ == seq![registre]);
        let r = self.ecrire_lire(adresse, &reg, &mut buffer);
        match r {
            Ok(()) => Ok(assembler_u16_le(buffer[0], buffer[1])),
            Err(e) => Err(e),
        }
    }

    /// Lit des données puis les horodate immédiatement après la transaction.
    fn lire_avec_horodatage(&mut self, adresse: u8, registre: &[u8], buffer: &mut [u8]) -> (r: Result<Horodatage>)
        ensures
            old(self).en_service() ==> final(self).en_service(),
            r matches Err(e) ==> e is ErreurI2C,
            r is Ok <==> old(self).lecture_acceptee(adresse, registre@, old(buffer)@.len()),
            Self::registres_memoire() ==> *final(self) == *old(self),
            final(buffer)@.len() == old(buffer)@.len(),
            final(self).ecritures() == old(self).ecritures(),
            r is Ok ==> final(buffer)@ == old(self).reponse(adresse, registre@, old(buffer)@.len()),
    {
        match self.ecrire_lire(adresse, registre, buffer) {
            Ok(()) => Ok(Horodatage::maintenant()),
            Err(e) => Err(e),
        }
    }
}

/// Clé de la table des registres simulés pour le couple (périphérique, registre).
pub open spec fn cle(adresse: u8, registre: u8) -> u16 {
    (adresse as int * 256 + registre as int) as u16
}

fn calculer_cle(adresse: u8, registre: u8) -> (c: u16)
    ensures
        c == cle(adresse, registre),
{
    (adresse as u16) * 256 + registre as u16
}

/// Registre atteint `i` octets après `debut`, avec rebouclage après 0xFF.
pub open spec fn registre_suivant(debut: u8, i: int) -> u8 {
    ((debut as int + i) % 256) as u8
}

/// Table des registres après l'écriture de `valeurs` à partir de `debut`.
pub open spec fn inserer_registres(m: Map<u16, u8>, adresse: u8, debut: u8, valeurs: Seq<u8>) -> Map<u16, u8>
    decreases valeurs.len(),
{
    if valeurs.len() == 0 {
        m
    } else {
        inserer_registres(m, adresse, debut, valeurs.drop_last()).insert(
            cle(adresse, registre_suivant(debut, valeurs.len() - 1)),
            valeurs.last(),
        )
    }
}

/// Relire un registre du bus simulé rend la valeur qu'une écriture d'au
/// plus 256 octets y a placée (aucun rebouclage ne l'a recouverte).
pub proof fn loi_relecture_ecriture(m: Map<u16, u8>, adresse: u8, debut: u8, valeurs: Seq<u8>, i: int)
    requires
        0 <= i < valeurs.len() <= 256,
    ensures
        inserer_registres(m, adresse, debut, valeurs).contains_key(cle(adresse, registre_suivant(debut, i))),
        inserer_registres(m, adresse, debut, valeurs)[cle(adresse, registre_suivant(debut, i))] == valeurs[i],
    decreases valeurs.len(),
{
    let n = valeurs.len() as int;
    if i < n - 1 {
        loi_relecture_ecriture(m, adresse, debut, valeurs.drop_last(), i);
        assert(valeurs.drop_last()[i] == valeurs[i]);
        let ri = registre_suivant(debut, i);
        let rn = registre_suivant(debut, n - 1);
        assert(ri != rn);
        assert(cle(adresse, ri) != cle(adresse, rn));
    }
}

/// Une écriture ne modifie aucun registre d'un autre périphérique.
pub proof fn loi_ecriture_locale(m: Map<u16, u8>, adresse: u8, debut: u8, valeurs: Seq<u8>, autre: u8, registre: u8)
    requires
        autre != adresse,
    ensures
        inserer_registres(m, adresse, debut, valeurs).contains_key(cle(autre, registre)) == m.contains_key(cle(autre, registre)),
        inserer_registres(m, adresse, debut, valeurs)[cle(autre, registre)] == m[cle(autre, registre)],
    decreases valeurs.len(),
{
    if valeurs.len() > 0 {
        loi_ecriture_locale(m, adresse, debut, valeurs.drop_last(), autre, registre);
        let rn = registre_suivant(debut, valeurs.len() - 1);
        assert(cle(adresse, rn) != cle(autre, registre));
    }
}

/// Écrire un registre du bus simulé fixe sa valeur et laisse les autres.
proof fn lemme_valeur_apres_ecriture(m0: I2cMock, m1: I2cMock, adresse: u8, registre: u8, valeur: u8)
    requires
        m1.table() == m0.table().insert(cle(adresse, registre), valeur),
    ensures
        forall|b: u8, g: u8| #[trigger] m1.valeur(b, g)
            == (if b == adresse && g == registre { Some(valeur) } else { m0.valeur(b, g) }),
{
    assert forall|b: u8, g: u8| #[trigger] m1.valeur(b, g)
        == (if b == adresse && g == registre { Some(valeur) } else { m0.valeur(b, g) }) by {
        if !(b == adresse && g == registre) {
            assert(cle(b, g) != cle(adresse, registre));
        }
    }
}

/// Après l'écriture d'un registre du bus simulé sans panne : la lecture d'un
/// octet de ce registre rend la valeur écrite, celle d'un autre registre est
/// inchangée, et toute lecture qui ne passe pas par ce registre est inchangée.
proof fn lemme_lectures_apres_ecriture(m0: I2cMock, m1: I2cMock, adresse: u8, registre: u8, valeur: u8)
    requires
        !m0.erreur_simulee(),
        m1.erreur_simulee() == m0.erreur_simulee(),
        m1.table() == m0.table().insert(cle(adresse, registre), valeur),
    ensures
        forall|b: u8, g: u8|
            (if #[trigger] m1.lecture_simulee_acceptee(b, seq![g], 1) { Some(m1.reponse_simulee(b, seq![g], 1)[0]) } else { None })
                == (if b == adresse && g == registre { Some(valeur) } else {
                    if m0.lecture_simulee_acceptee(b, seq![g], 1) { Some(m0.reponse_simulee(b, seq![g], 1)[0]) } else { None } }),
        forall|b: u8, g: u8, n: nat| !lecture_couvre(b, g, n, adresse, registre)
            ==> #[trigger] m1.reponse_simulee(b, seq![g], n) == m0.reponse_simulee(b, seq![g], n),
        forall|b: u8, g: u8, n: nat| !lecture_couvre(b, g, n, adresse, registre)
            ==> #[trigger] m1.lecture_simulee_acceptee(b, seq![g], n) == m0.lecture_simulee_acceptee(b, seq![g], n),
{
    lemme_valeur_apres_ecriture(m0, m1, adresse, registre, valeur);
    assert forall|b: u8, g: u8|
        (if #[trigger] m1.lecture_simulee_acceptee(b, seq![g], 1) { Some(m1.reponse_simulee(b, seq![g], 1)[0]) } else { None })
            == (if b == adresse && g == registre { Some(valeur) } else {
                if m0.lecture_simulee_acceptee(b, seq![g], 1) { Some(m0.reponse_simulee(b, seq![g], 1)[0]) } else { None } }) by {
        assert(registre_suivant(g, 0) == g);
        assert(seq![g][0] == g);
        assert(m1.lecture_simulee_acceptee(b, seq![g], 1) <==> m1.valeur(b, g) is Some) by {
            if m1.valeur(b, g) is Some {
                assert forall|i: int| 0 <= i < 1 implies (#[trigger] m1.valeur(b, registre_suivant(seq![g][0], i))) is Some by {
                    assert(i == 0);
                }
            }
        }
        assert(m0.lecture_simulee_acceptee(b, seq![g], 1) <==> m0.valeur(b, g) is Some) by {
            if m0.valeur(b, g) is Some {
                assert forall|i: int| 0 <= i < 1 implies (#[trigger] m0.valeur(b, registre_suivant(seq![g][0], i))) is Some by {
                    assert(i == 0);
                }
            }
        }
    }
    assert forall|b: u8, g: u8, n: nat| !lecture_couvre(b, g, n, adresse, registre) implies
        #[trigger] m1.reponse_simulee(b, seq![g], n) == m0.reponse_simulee(b, seq![g], n) by {
        lemme_lecture_hors_registre(m0, m1, adresse, registre, valeur, b, g, n);
    }
    assert forall|b: u8, g: u8, n: nat| !lecture_couvre(b, g, n, adresse, registre) implies
        #[trigger] m1.lecture_simulee_acceptee(b, seq![g], n) == m0.lecture_simulee_acceptee(b, seq![g], n) by {
        lemme_lecture_hors_registre(m0, m1, adresse, registre, valeur, b, g, n);
    }
}

proof fn lemme_lecture_hors_registre(m0: I2cMock, m1: I2cMock, adresse: u8, registre: u8, valeur: u8, b: u8, g: u8, n: nat)
    requires
        m1.erreur_simulee() == m0.erreur_simulee(),
        forall|b: u8, g: u8| #[trigger] m1.valeur(b, g)
            == (if b == adresse && g == registre { Some(valeur) } else { m0.valeur(b, g) }),
        !lecture_couvre(b, g, n, adresse, registre),
    ensures
        m1.reponse_simulee(b, seq![g], n) == m0.reponse_simulee(b, seq![g], n),
        m1.lecture_simulee_acceptee(b, seq![g], n) == m0.lecture_simulee_acceptee(b, seq![g], n),
{
    let r = seq![g];
    assert(r[0] == g);
    assert(r.len() == 1);
    assert forall|i: int| 0 <= i < n implies
        #[trigger] m1.valeur(b, registre_suivant(g, i)) == m0.valeur(b, registre_suivant(g, i)) by {
        if b == adresse {
            assert(registre_suivant(g, i) != registre);
        }
    }
    assert(m1.reponse_simulee(b, r, n) =~= m0.reponse_simulee(b, r, n));
    if m0.lecture_simulee_acceptee(b, r, n) {
        assert forall|i: int| 0 <= i < n implies (#[trigger] m1.valeur(b, registre_suivant(r[0], i))) is Some by {
            assert(m0.valeur(b, registre_suivant(r[0], i)) is Some);
        }
    }
    if m1.lecture_simulee_acceptee(b, r, n) {
        assert forall|i: int| 0 <= i < n implies (#[trigger] m0.valeur(b, registre_suivant(r[0], i))) is Some by {
            assert(m1.valeur(b, registre_suivant(r[0], i)) is Some);
        }
    }
}

/// Sur le bus simulé sans panne, la lecture d'un octet d'un registre rend sa
/// valeur simulée, et elle est refusée si le registre est absent.
pub proof fn loi_relecture_simulee(m: I2cMock, adresse: u8, registre: u8)
    requires
        !m.erreur_simulee(),
    ensures
        registre_lu(m, adresse, registre) == m.valeur(adresse, registre),
{
    let r = seq![registre];
    assert(r[0] == registre);
    assert(registre_suivant(registre, 0) == registre);
    if m.valeur(adresse, registre) is Some {
        assert forall|i: int| 0 <= i < 1 implies (#[trigger] m.valeur(adresse, registre_suivant(r[0], i))) is Some by {
            assert(i == 0);
        }
        assert(m.reponse_simulee(adresse, r, 1)[0] == m.valeur(adresse, registre)->0);
    } else {
        assert(m.valeur(adresse, registre_suivant(r[0], 0)) is None);
    }
}

/// Le premier registre absent est l'unique registre absent précédé de
/// registres tous présents.
proof fn lemme_premier_absent(m: I2cMock, adresse: u8, debut: u8, n: int, i: int)
    requires
        0 <= i < n,
        m.valeur(adresse, registre_suivant(debut, i)) is None,
        forall|j: int| 0 <= j < i ==> (#[trigger] m.valeur(adresse, registre_suivant(debut, j))) is Some,
    ensures
        m.premier_registre_absent(adresse, debut, n) == i,
{
    let k = m.premier_registre_absent(adresse, debut, n);
    assert(0 <= k < n && m.valeur(adresse, registre_suivant(debut, k)) is None
        && forall|j: int| 0 <= j < k ==> (#[trigger] m.valeur(adresse, registre_suivant(debut, j))) is Some);
    if k < i {
        assert(m.valeur(adresse, registre_suivant(debut, k)) is Some);
    }
    if k > i {
        assert(m.valeur(adresse, registre_suivant(debut, i)) is Some);
    }
}

/// Bus I²C simulé en mémoire : table `(périphérique, registre) → valeur`.
pub struct I2cMock {
    registres: std::collections::HashMap<u16, u8>,
    /// Si vrai, toutes les opérations échouent avec une erreur I²C.
    pub simuler_erreur: bool,
    origine: std::time::Instant,
    journal: Ghost<Seq<(u8, Seq<u8>)>>,
}

impl I2cMock {
    /// Table des registres simulés.
    pub closed spec fn table(&self) -> Map<u16, u8> {
        self.registres@
    }

    /// Vrai si le bus simule une panne (champ `simuler_erreur`).
    pub closed spec fn erreur_simulee(&self) -> bool {
        self.simuler_erreur
    }

    /// Valeur simulée du registre `registre` du périphérique `adresse`.
    pub open spec fn valeur(&self, adresse: u8, registre: u8) -> Option<u8> {
        if self.table().contains_key(cle(adresse, registre)) {
            Some(self.table()[cle(adresse, registre)])
        } else {
            None
        }
    }

    /// Une lecture de `n` octets à partir de `registre[0]` aboutit : pas de
    /// panne simulée, registre de départ fourni, registres lus tous présents.
    pub open spec fn lecture_simulee_acceptee(&self, adresse: u8, registre: Seq<u8>, n: nat) -> bool {
        &&& !self.erreur_simulee()
        &&& registre.len() > 0
        &&& forall|i: int| 0 <= i < n ==> (#[trigger] self.valeur(adresse, registre_suivant(registre[0], i))) is Some
    }

    /// Octets rendus par une lecture de `n` octets à partir de `registre[0]`
    /// (0 pour un registre absent, à partir de 0 sans registre de départ).
    pub open spec fn reponse_simulee(&self, adresse: u8, registre: Seq<u8>, n: nat) -> Seq<u8> {
        let debut: u8 = if registre.len() == 0 { 0 } else { registre[0] };
        Seq::new(n, |i: int| match self.valeur(adresse, registre_suivant(debut, i)) {
            Some(v) => v,
            None => 0u8,
        })
    }

    /// Premier des `n` registres lus à partir de `debut` qui n'a été ni
    /// préchargé ni écrit.
    pub open spec fn premier_registre_absent(&self, adresse: u8, debut: u8, n: int) -> int {
        choose|k: int| {
            &&& 0 <= k < n
            &&& self.valeur(adresse, registre_suivant(debut, k)) is None
            &&& forall|j: int| 0 <= j < k ==> (#[trigger] self.valeur(adresse, registre_suivant(debut, j))) is Some
        }
    }

    /// Message d'une lecture `ecrire_lire` refusée par le bus simulé.
    pub open spec fn texte_echec_lecture(&self, adresse: u8, registre: Seq<u8>, n: int) -> Seq<char> {
        if self.erreur_simulee() {
            "Erreur simulée"@
        } else if registre.len() == 0 {
            "ecrire_lire : le slice 'registre' ne peut pas être vide"@
        } else {
            texte_registre_absent_spec(
                adresse, registre_suivant(registre[0], self.premier_registre_absent(adresse, registre[0], n)))
        }
    }

    /// Bus simulé vide, sans erreur simulée.
    pub fn nouveau() -> (m: I2cMock)
        ensures
            m.table() == Map::<u16, u8>::empty(),
            !m.erreur_simulee(),
            m.ecritures() == Seq::<(u8, Seq<u8>)>::empty(),
    {
        I2cMock {
            registres: std::collections::HashMap::new(),
            simuler_erreur: false,
            origine: instant_maintenant(),
            journal: Ghost(Seq::empty()),
        }
    }

    /// Active ou coupe la panne simulée : tant qu'elle est active, toutes
    /// les opérations échouent avec une erreur I²C.
    pub fn simuler_panne(&mut self, active: bool)
        ensures
            final(self).erreur_simulee() == active,
            final(self).table() == old(self).table(),
            final(self).ecritures() == old(self).ecritures(),
    {
        self.simuler_erreur = active;
    }

    /// Précharge un registre pour simuler la réponse d'un capteur.
    pub fn precharger_registre(&mut self, adresse: u8, registre: u8, valeur: u8)
        ensures
            final(self).table() == old(self).table().insert(cle(adresse, registre), valeur),
            final(self).erreur_simulee() == old(self).erreur_simulee(),
            final(self).ecritures() == old(self).ecritures(),
    {
        broadcast use vstd::std_specs::hash::group_hash_axioms;
        let c = calculer_cle(adresse, registre);
        self.registres.insert(c, valeur);
    }

    /// Valeur courante d'un registre simulé (`None` s'il n'a été ni préchargé ni écrit).
    pub fn verifier_registre(&self, adresse: u8, registre: u8) -> (r: Option<u8>)
        ensures
            r == self.valeur(adresse, registre),
    {
        broadcast use vstd::std_specs::hash::group_hash_axioms;
        let c = calculer_cle(adresse, registre);
        match self.registres.get(&c) {
            Some(v) => Some(*v),
            None => None,
        }
    }
}

impl BusI2c for I2cMock {
    closed spec fn ecritures(&self) -> Seq<(u8, Seq<u8>)> {
        self.journal@
    }

    open spec fn registres_memoire() -> bool {
        true
    }

    open spec fn en_service(&self) -> bool {
        !self.erreur_simulee()
    }

    open spec fn ecriture_acceptee(&self, adresse: u8, donnees: Seq<u8>) -> bool {
        !self.erreur_simulee()
    }

    open spec fn lecture_brute_acceptee(&self, adresse: u8, n: nat) -> bool {
        !self.erreur_simulee()
    }

    open spec fn lecture_acceptee(&self, adresse: u8, registre: Seq<u8>, n: nat) -> bool {
        self.lecture_simulee_acceptee(adresse, registre, n)
    }

    open spec fn reponse(&self, adresse: u8, registre: Seq<u8>, n: nat) -> Seq<u8> {
        self.reponse_simulee(adresse, registre, n)
    }

    #[verifier::rlimit(30)]
    fn ecrire(&mut self, adresse: u8, donnees: &[u8]) -> (r: Result<()>)
        ensures
            r is Ok <==> !old(self).erreur_simulee(),
            r matches Err(e) ==> e matches ErreursAirHaum::ErreurI2C(m) && m@ == "Erreur simulée"@,
            final(self).erreur_simulee() == old(self).erreur_simulee(),
            r is Ok && donnees@.len() >= 2 ==> final(self).table() == inserer_registres(
                old(self).table(), adresse, donnees@[0], donnees@.drop_first()),
            r is Err || donnees@.len() < 2 ==> final(self).table() == old(self).table(),
    {
        broadcast use vstd::std_specs::hash::group_hash_axioms;
        if self.simuler_erreur {
            return Err(ErreursAirHaum::ErreurI2C(String::from_str("Erreur simulée")));
        }
        if donnees.len() >= 2 {
            let registre = donnees[0];
            let n = donnees.len();
            let ghost depart = self.registres@;
            let ghost valeurs = donnees@.drop_first();
            let mut i: usize = 1;
            while i < n
                invariant
                    1 <= i <= n,
                    n == donnees@.len(),
                    registre == donnees@[0],
                    valeurs == donnees@.drop_first(),
                    self.registres@ == inserer_registres(depart, adresse, registre, valeurs.take(i - 1)),
                    self.journal == old(self).journal,
                    self.simuler_erreur == old(self).simuler_erreur,
                decreases n - i,
            {
                let reg = ((registre as usize + (i - 1) % 256) % 256) as u8;
                let c = calculer_cle(adresse, reg);
                self.registres.insert(c, donnees[i]);
                assert(valeurs.take(i as int).drop_last() == valeurs.take(i - 1));
                i = i + 1;
            }
            assert(valeurs.take(n - 1) == valeurs);
        }
        proof {
            self.journal@ = self.journal@.push((adresse, donnees@));
            if donnees@.len() == 2 {
                let valeurs = donnees@.drop_first();
                assert(valeurs.drop_last() == Seq::<u8>::empty());
                assert(registre_suivant(donnees@[0], 0) == donnees@[0]);
                reveal_with_fuel(inserer_registres, 2);
                lemme_lectures_apres_ecriture(*old(self), *self, adresse, donnees@[0], donnees@[1]);
            }
        }
        Ok(())
    }

    #[verifier::rlimit(30)]
    fn lire(&mut self, adresse: u8, buffer: &mut [u8]) -> (r: Result<()>)
        ensures
            r is Ok <==> !old(self).erreur_simulee(),
            r matches Err(e) ==> e matches ErreursAirHaum::ErreurI2C(m) && m@ == "Erreur simulée"@,
            *final(self) == *old(self),
    {
        broadcast use vstd::std_specs::hash::group_hash_axioms;
        if self.simuler_erreur {
            return Err(ErreursAirHaum::ErreurI2C(String::from_str("Erreur simulée")));
        }
        let n = buffer.len();
        let ghost attendu = self.reponse(adresse, Seq::empty(), n as nat);
        let mut i: usize = 0;
        while i < n
            invariant
                0 <= i <= n,
                n == buffer@.len(),
                n == old(buffer)@.len(),
                attendu == self.reponse(adresse, Seq::empty(), n as nat),
                forall|j: int| 0 <= j < i ==> buffer@[j] == attendu[j],
            decreases n - i,
        {
            let c = calculer_cle(adresse, (i % 256) as u8);
            let v = match self.registres.get(&c) {
                Some(v) => *v,
                None => 0u8,
            };
            buffer[i] = v;
            i = i + 1;
        }
        assert(buffer@ == attendu);
        Ok(())
    }

    fn ecrire_lire(&mut self, adresse: u8, registre: &[u8], buffer: &mut [u8]) -> (r: Result<()>)
        ensures
            r is Ok <==> !old(self).erreur_simulee() && registre@.len() > 0 && forall|i: int|
                0 <= i < old(buffer)@.len() ==> (#[trigger] old(self).valeur(adresse, registre_suivant(registre@[0], i))) is Some,
            r matches Err(e) ==> e matches ErreursAirHaum::ErreurI2C(m)
                && m@ == old(self).texte_echec_lecture(adresse, registre@, old(buffer)@.len() as int),
            *final(self) == *old(self),
    {
        broadcast use vstd::std_specs::hash::group_hash_axioms;
        if self.simuler_erreur {
            return Err(ErreursAirHaum::ErreurI2C(String::from_str("Erreur simulée")));
        }
        if registre.len() == 0 {
            return Err(ErreursAirHaum::ErreurI2C(String::from_str("ecrire_lire : le slice 'registre' ne peut pas être vide")));
        }
        let debut = registre[0];
        let n = buffer.len();
        let ghost attendu = self.reponse(adresse, registre@, n as nat);
        let mut i: usize = 0;
        while i < n
            invariant
                0 <= i <= n,
                n == buffer@.len(),
                n == old(buffer)@.len(),
                registre@.len() > 0,
                debut == registre@[0],
                !old(self).erreur_simulee(),
                *self == *old(self),
                attendu == self.reponse(adresse, registre@, n as nat),
                forall|j: int| 0 <= j < i ==> buffer@[j] == attendu[j],
                forall|j: int| 0 <= j < i ==> (#[trigger] self.valeur(adresse, registre_suivant(debut, j))) is Some,
            decreases n - i,
        {
            let reg = ((debut as usize + i % 256) % 256) as u8;
            let c = calculer_cle(adresse, reg);
            match self.registres.get(&c) {
                Some(v) => {
                    buffer[i] = *v;
                },
                None => {
                    assert(self.valeur(adresse, registre_suivant(debut, i as int)) is None);
                    proof {
                        lemme_premier_absent(*self, adresse, debut, n as int, i as int);
                        assert(reg == registre_suivant(debut, i as int));
                    }
                    return Err(ErreursAirHaum::ErreurI2C(texte_registre_absent(adresse, reg)));
                },
            }
            i = i + 1;
        }
        assert(buffer@ == attendu);
        Ok(())
    }

    fn pause_ms(&mut self, ms: u32)
        ensures
            *final(self) == *old(self),
    {
    }

    fn ecrire_registre_u8(&mut self, adresse: u8, registre: u8, valeur: u8) -> (r: Result<()>)
        ensures
            r matches Err(e) ==> e matches ErreursAirHaum::ErreurI2C(m) && m@ == "Erreur simulée"@,
            final(self).erreur_simulee() == old(self).erreur_simulee(),
            r is Ok ==> final(self).table() == old(self).table().insert(cle(adresse, registre), valeur),
            r is Err ==> final(self).table() == old(self).table(),
    {
        let donnees = [registre, valeur];
        assert(donnees@ == seq![registre, valeur]);
        let r = self.ecrire(adresse, &donnees);
        proof {
            let valeurs = donnees@.drop_first();
            assert(valeurs == seq![valeur]);
            assert(valeurs.drop_last() == Seq::<u8>::empty());
            assert(registre_suivant(registre, 0) == registre);
            reveal_with_fuel(inserer_registres, 2);
        }
        r
    }

    fn lire_avec_horodatage(&mut self, adresse: u8, registre: &[u8], buffer: &mut [u8]) -> (r: Result<Horodatage>)
        ensures
            r is Ok <==> !old(self).erreur_simulee() && registre@.len() > 0 && forall|i: int|
                0 <= i < old(buffer)@.len() ==> (#[trigger] old(self).valeur(adresse, registre_suivant(registre@[0], i))) is Some,
            r matches Err(e) ==> e matches ErreursAirHaum::ErreurI2C(m)
                && m@ == old(self).texte_echec_lecture(adresse, registre@, old(buffer)@.len() as int),
            *final(self) == *old(self),
    {
        match self.ecrire_lire(adresse, registre, buffer) {
            Ok(()) => Ok(Horodatage::depuis_micros(micros_ecoulees(&self.origine))),
            Err(e) => Err(e),
        }
    }
}

/// Message d'un registre simulé absent.
pub open spec fn texte_registre_absent_spec(adresse: u8, registre: u8) -> Seq<char> {
    "Mock : registre 0x"@ + hex2_maj(adresse) + ":0x"@ + hex2_maj(registre) + " non préchargé"@
}

/// Message d'erreur d'un registre simulé absent.
fn texte_registre_absent(adresse: u8, registre: u8) -> (s: String)
    ensures
        s@ == texte_registre_absent_spec(adresse, registre),
{
    let mut s = String::from_str("Mock : registre 0x");
    pousser_hex2(&mut s, adresse);
    s.append(":0x");
    pousser_hex2(&mut s, registre);
    s.append(" non préchargé");
    s
}

} // verus!

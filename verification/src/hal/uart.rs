//! Abstraction du port série UART et port simulé en mémoire.
use vstd::prelude::*;
use crate::types::{ErreursAirHaum, Result};

verus! {

/// Port série bidirectionnel.
///
/// Modèle abstrait : `emis` est la suite des octets déjà émis sur la ligne,
/// `entrant` la suite des octets reçus et non encore lus, dans l'ordre d'arrivée.
/// Les prédicats `ecriture_acceptee`, `lecture_acceptee` et `erreur_lecture`
/// disent quand une opération aboutit et ce qu'elle rend sinon ;
/// `ecriture_complete` et `lecture_complete` disent quand elle transfère tout.
///
/// Les ports de la bibliothèque redéfinissent ce modèle et en prouvent les
/// contrats. Le modèle par défaut (vide, toute opération acceptée) n'existe
/// que pour les ports matériels implémentés hors de la bibliothèque ; aucun
/// port réel ne peut tenir les contrats avec ce modèle, si bien que les
/// garanties des drivers ne disent rien de ces ports-là.
pub trait PortSerie {
    /// Octets émis depuis l'ouverture du port.
    closed spec fn emis(&self) -> Seq<u8> {
        Seq::empty()
    }

    /// Octets en attente de lecture.
    closed spec fn entrant(&self) -> Seq<u8> {
        Seq::empty()
    }

    /// L'écriture de `octets` aboutit depuis cet état du port.
    closed spec fn ecriture_acceptee(&self, octets: Seq<u8>) -> bool {
        true
    }

    /// Une écriture acceptée de `octets` les émet tous (le port n'en tronque aucune).
    closed spec fn ecriture_complete(&self, octets: Seq<u8>) -> bool {
        false
    }

    /// Une lecture aboutit depuis cet état du port.
    closed spec fn lecture_acceptee(&self) -> bool {
        true
    }

    /// Erreur rendue par une lecture refusée depuis cet état du port.
    closed spec fn erreur_lecture(&self) -> ErreursAirHaum {
        ErreursAirHaum::Timeout
    }

    /// Une lecture acceptée rend tous les octets en attente qui tiennent dans le tampon.
    closed spec fn lecture_complete(&self) -> bool {
        false
    }

    /// Lit les octets disponibles dans `buf` sans bloquer ; `Err(Timeout)`
    /// signale qu'aucun octet n'est disponible.
    fn lire(&mut self, buf: &mut [u8]) -> (r: Result<usize>)
        ensures
            r is Ok <==> old(self).lecture_acceptee(),
            r matches Err(e) ==> e == old(self).erreur_lecture(),
            old(self).lecture_complete() ==> (r matches Ok(n) ==> n == vstd::math::min(
                old(buf)@.len() as int, old(self).entrant().len() as int)),
            final(buf)@.len() == old(buf)@.len(),
            final(self).emis() == old(self).emis(),
            match r {
                Ok(n) => {
                    &&& n <= old(buf)@.len()
                    &&& n <= old(self).entrant().len()
                    &&& final(buf)@.subrange(0, n as int) == old(self).entrant().subrange(0, n as int)
                    &&& final(self).entrant() == old(self).entrant().skip(n as int)
                },
                Err(_) => final(self).entrant() == old(self).entrant(),
            },
    ;

    /// Écrit `buf` sur le port ; retourne le nombre d'octets effectivement émis.
    fn ecrire(&mut self, buf: &[u8]) -> (r: Result<usize>)
        ensures
            r is Ok <==> old(self).ecriture_acceptee(buf@),
            old(self).ecriture_complete(buf@) ==> (r matches Ok(n) ==> n == buf@.len()),
            final(self).entrant() == old(self).entrant(),
            match r {
                Ok(n) => n <= buf@.len() && final(self).emis() == old(self).emis() + buf@.subrange(0, n as int),
                Err(_) => final(self).emis() == old(self).emis(),
            },
    ;

    /// Change la vitesse de la liaison (bauds).
    fn reconfigurer_baudrate(&mut self, baudrate: u32) -> (r: Result<()>)
        ensures
            final(self).emis() == old(self).emis(),
    ;

    /// Suspend l'appelant pendant `ms` millisecondes (laisser le périphérique
    /// répondre ou appliquer une configuration) ; n'émet rien. Des octets
    /// peuvent arriver pendant la pause.
    fn pause_ms(&mut self, ms: u32)
        ensures
            final(self).emis() == old(self).emis(),
    ;
}

/// Port série simulé : octets injectés à lire, octets écrits capturés.
pub struct PortSerieMock {
    donnees: std::collections::VecDeque<u8>,
    ecrits: Vec<u8>,
    tampons: Ghost<Seq<Seq<u8>>>,
}

/// Tampons mis bout à bout, dans l'ordre.
pub open spec fn aplatir(tampons: Seq<Seq<u8>>) -> Seq<u8>
    decreases tampons.len(),
{
    if tampons.len() == 0 {
        Seq::empty()
    } else {
        aplatir(tampons.drop_last()) + tampons.last()
    }
}

proof fn lemme_aplatir_push(tampons: Seq<Seq<u8>>, t: Seq<u8>)
    ensures
        aplatir(tampons.push(t)) == aplatir(tampons) + t,
{
    assert(tampons.push(t).drop_last() =~= tampons);
}

impl PortSerieMock {
    /// Tampons écrits avec succès depuis la création du port, dans l'ordre.
    pub closed spec fn tampons_ecrits(&self) -> Seq<Seq<u8>> {
        self.tampons@
    }

    /// Les octets émis sont les tampons écrits mis bout à bout ; vrai de tout
    /// port obtenu de `nouveau` par les opérations du port.
    pub closed spec fn coherent(&self) -> bool {
        self.ecrits@ == aplatir(self.tampons@)
    }

    /// Port simulé vide.
    pub fn nouveau() -> (p: PortSerieMock)
        ensures
            p.entrant() == Seq::<u8>::empty(),
            p.emis() == Seq::<u8>::empty(),
            p.tampons_ecrits() == Seq::<Seq<u8>>::empty(),
            p.coherent(),
    {
        let p = PortSerieMock { donnees: std::collections::VecDeque::new(), ecrits: Vec::new(), tampons: Ghost(Seq::empty()) };
        assert(p.ecrits@ =~= aplatir(Seq::<Seq<u8>>::empty()));
        p
    }

    /// Ajoute des octets qui seront rendus par les prochaines lectures.
    pub fn injecter(&mut self, data: &[u8])
        ensures
            final(self).entrant() == old(self).entrant() + data@,
            final(self).emis() == old(self).emis(),
            final(self).tampons_ecrits() == old(self).tampons_ecrits(),
            final(self).coherent() == old(self).coherent(),
    {
        let mut i: usize = 0;
        while i < data.len()
            invariant
                0 <= i <= data@.len(),
                self.donnees@ == old(self).donnees@ + data@.subrange(0, i as int),
                self.ecrits@ == old(self).ecrits@,
                self.tampons == old(self).tampons,
            decreases data@.len() - i,
        {
            self.donnees.push_back(data[i]);
            assert(data@.subrange(0, i + 1) == data@.subrange(0, i as int).push(data@[i as int]));
            i = i + 1;
        }
        assert(data@.subrange(0, data@.len() as int) == data@);
    }

    /// Octets écrits sur le port depuis sa création.
    pub fn octets_ecrits(&self) -> (o: &[u8])
        ensures
            o@ == self.emis(),
    {
        self.ecrits.as_slice()
    }
}

impl PortSerie for PortSerieMock {
    closed spec fn emis(&self) -> Seq<u8> {
        self.ecrits@
    }

    closed spec fn entrant(&self) -> Seq<u8> {
        self.donnees@
    }

    open spec fn ecriture_acceptee(&self, octets: Seq<u8>) -> bool {
        true
    }

    open spec fn ecriture_complete(&self, octets: Seq<u8>) -> bool {
        true
    }

    open spec fn lecture_acceptee(&self) -> bool {
        self.entrant().len() > 0
    }

    open spec fn erreur_lecture(&self) -> ErreursAirHaum {
        ErreursAirHaum::Timeout
    }

    open spec fn lecture_complete(&self) -> bool {
        true
    }

    fn lire(&mut self, buf: &mut [u8]) -> (r: Result<usize>)
        ensures
            old(self).entrant().len() == 0 ==> r == Err::<usize, ErreursAirHaum>(ErreursAirHaum::Timeout),
            old(self).entrant().len() > 0 ==> r == Ok::<usize, ErreursAirHaum>(
                if old(buf)@.len() < old(self).entrant().len() { old(buf)@.len() } else { old(self).entrant().len() } as usize),
            final(self).tampons_ecrits() == old(self).tampons_ecrits(),
            final(self).coherent() == old(self).coherent(),
    {
        if self.donnees.len() == 0 {
            return Err(ErreursAirHaum::Timeout);
        }
        let n = if buf.len() < self.donnees.len() { buf.len() } else { self.donnees.len() };
        let ghost d0 = self.donnees@;
        let mut i: usize = 0;
        while i < n
            invariant
                0 <= i <= n,
                n <= buf@.len(),
                n <= d0.len(),
                buf@.len() == old(buf)@.len(),
                self.donnees@ == d0.skip(i as int),
                buf@.subrange(0, i as int) == d0.subrange(0, i as int),
                self.ecrits@ == old(self).ecrits@,
                self.tampons == old(self).tampons,
            decreases n - i,
        {
            let b = self.donnees.pop_front();
            match b {
                Some(x) => {
                    buf[i] = x;
                },
                None => {
                    assert(false);
                },
            }
            assert(buf@.subrange(0, i + 1) =~= d0.subrange(0, i + 1));
            i = i + 1;
        }
        Ok(n)
    }

    fn ecrire(&mut self, buf: &[u8]) -> (r: Result<usize>)
        ensures
            r == Ok::<usize, ErreursAirHaum>(buf@.len() as usize),
            final(self).tampons_ecrits() == old(self).tampons_ecrits().push(buf@),
            old(self).coherent() ==> final(self).coherent(),
    {
        let mut i: usize = 0;
        while i < buf.len()
            invariant
                0 <= i <= buf@.len(),
                self.ecrits@ == old(self).ecrits@ + buf@.subrange(0, i as int),
                self.donnees@ == old(self).donnees@,
                self.tampons == old(self).tampons,
            decreases buf@.len() - i,
        {
            self.ecrits.push(buf[i]);
            assert(buf@.subrange(0, i + 1) == buf@.subrange(0, i as int).push(buf@[i as int]));
            i = i + 1;
        }
        proof {
            assert(buf@.subrange(0, buf@.len() as int) == buf@);
            lemme_aplatir_push(self.tampons@, buf@);
            self.tampons@ = self.tampons@.push(buf@);
        }
        Ok(buf.len())
    }

    fn reconfigurer_baudrate(&mut self, _baudrate: u32) -> (r: Result<()>)
        ensures
            r is Ok,
            *final(self) == *old(self),
    {
        Ok(())
    }

    /// Sans effet : le port simulé ne reçoit que ce qu'on lui injecte.
    fn pause_ms(&mut self, _ms: u32)
        ensures
            *final(self) == *old(self),
    {
    }
}

/// Sur un port simulé obtenu de `nouveau` par ses opérations, les octets
/// émis sont exactement les tampons écrits, mis bout à bout dans l'ordre des
/// écritures ; injections, lectures, pauses et changements de vitesse n'y
/// ajoutent rien.
pub proof fn loi_octets_emis(m: PortSerieMock)
    requires
        m.coherent(),
    ensures
        m.emis() == aplatir(m.tampons_ecrits()),
{
}

} // verus!

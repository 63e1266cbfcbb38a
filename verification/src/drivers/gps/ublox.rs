//! Driver u-blox NEO-M8N : protocole UBX binaire sur un port série.
use vstd::prelude::*;
use crate::hal::uart::PortSerie;
use crate::interfaces::gps::CapteurGps;
use crate::types::{DonneesGps, ErreursAirHaum, Horodatage, Result, TypeFixGps};
use crate::systeme::texte::{hex2_maj, pousser_hex2};
use super::ubx_parser::{
    EtatParseur, NavPvt, UbxParseur, VueParseur, alimenter_suite, corps_ubx, etape, fletcher, loi_nav_pvt, loi_trame_ubx,
    octets_le32, trame_ubx, trames_reconnues, vue_valide,
};

verus! {

/// Protocole détecté sur la liaison à l'initialisation.
#[derive(Debug, Clone, Copy, PartialEq, Eq)]
pub enum ProtocoleDetecte {
    /// Trames NMEA (configuration usine).
    Nmea,
    /// Trames UBX binaires.
    Ubx,
    /// Données ni NMEA ni UBX (débit probablement différent).
    Inconnu,
    /// Aucune donnée reçue.
    Aucun,
}

/// Vrai si `o` contient les octets consécutifs `a`, `b`.
pub open spec fn contient_paire(o: Seq<u8>, a: u8, b: u8) -> bool {
    exists|i: int| 0 <= i && i + 1 < o.len() && #[trigger] o[i] == a && o[i + 1] == b
}

/// Protocole reconnu dans les octets reçus.
pub open spec fn protocole_de(o: Seq<u8>) -> ProtocoleDetecte {
    if o.len() == 0 {
        ProtocoleDetecte::Aucun
    } else if contient_paire(o, 0xB5, 0x62) {
        ProtocoleDetecte::Ubx
    } else if contient_paire(o, 0x24, 0x47) {
        ProtocoleDetecte::Nmea
    } else {
        ProtocoleDetecte::Inconnu
    }
}

fn chercher_paire(o: &[u8], a: u8, b: u8) -> (r: bool)
    ensures
        r == contient_paire(o@, a, b),
{
    let n = o.len();
    let mut i: usize = 0;
    while n > 0 && i < n - 1
        invariant
            n == o@.len(),
            forall|j: int| 0 <= j < i && j + 1 < o@.len() ==> !(#[trigger] o@[j] == a && o@[j + 1] == b),
        decreases n - i,
    {
        if o[i] == a && o[i + 1] == b {
            return true;
        }
        i = i + 1;
    }
    proof {
        assert forall|j: int| 0 <= j && j + 1 < o@.len() implies !(#[trigger] o@[j] == a && o@[j + 1] == b) by {
            assert(j < i);
        }
    }
    false
}

/// Détecte le protocole à partir des octets reçus (UBX prioritaire sur NMEA `$G`).
pub fn detecter_protocole(octets: &[u8]) -> (p: ProtocoleDetecte)
    ensures
        p == protocole_de(octets@),
{
    if octets.len() == 0 {
        return ProtocoleDetecte::Aucun;
    }
    if chercher_paire(octets, 0xB5, 0x62) {
        return ProtocoleDetecte::Ubx;
    }
    if chercher_paire(octets, 0x24, 0x47) {
        return ProtocoleDetecte::Nmea;
    }
    ProtocoleDetecte::Inconnu
}

/// Construit la trame UBX (synchronisation, corps, somme de Fletcher).
pub fn construire_trame_ubx(classe: u8, id: u8, payload: &[u8]) -> (t: Vec<u8>)
    ensures
        t@ == trame_ubx(classe, id, payload@),
{
    let n = payload.len();
    let mut corps: Vec<u8> = Vec::new();
    corps.push(classe);
    corps.push(id);
    corps.push((n % 256) as u8);
    corps.push(((n / 256) % 256) as u8);
    let mut i: usize = 0;
    while i < n
        invariant
            n == payload@.len(),
            0 <= i <= n,
            corps@ == seq![classe, id, (n % 256) as u8, ((n / 256) % 256) as u8] + payload@.take(i as int),
        decreases n - i,
    {
        corps.push(payload[i]);
        assert(payload@.take(i + 1) == payload@.take(i as int).push(payload@[i as int]));
        i = i + 1;
    }
    assert(payload@.take(n as int) == payload@);
    let ghost c = corps@;
    assert(c == corps_ubx(classe, id, payload@));
    let mut ck_a: u8 = 0;
    let mut ck_b: u8 = 0;
    let mut k: usize = 0;
    while k < corps.len()
        invariant
            corps@ == c,
            0 <= k <= c.len(),
            (ck_a, ck_b) == fletcher(c.take(k as int)),
        decreases c.len() - k,
    {
        assert(c.take(k + 1).drop_last() == c.take(k as int));
        ck_a = ck_a.wrapping_add(corps[k]);
        ck_b = ck_b.wrapping_add(ck_a);
        k = k + 1;
    }
    assert(c.take(c.len() as int) == c);
    let mut trame: Vec<u8> = Vec::new();
    trame.push(0xB5);
    trame.push(0x62);
    let mut j: usize = 0;
    while j < corps.len()
        invariant
            corps@ == c,
            0 <= j <= c.len(),
            trame@ == seq![0xB5u8, 0x62u8] + c.take(j as int),
        decreases c.len() - j,
    {
        trame.push(corps[j]);
        assert(c.take(j + 1) == c.take(j as int).push(c[j as int]));
        j = j + 1;
    }
    trame.push(ck_a);
    trame.push(ck_b);
    assert(trame@ =~= trame_ubx(classe, id, payload@));
    trame
}

/// Message d'un envoi UBX refusé par le port.
pub open spec fn texte_echec_ubx(classe: u8, id: u8, e: ErreursAirHaum) -> Seq<char> {
    "UBX "@ + hex2_maj(classe) + "/"@ + hex2_maj(id) + ": "@ + e.spec_texte()
}

fn message_echec_ubx(classe: u8, id: u8, e: &ErreursAirHaum) -> (s: String)
    ensures
        s@ == texte_echec_ubx(classe, id, *e),
{
    let t = e.texte();
    let mut s = String::from_str("UBX ");
    pousser_hex2(&mut s, classe);
    s.append("/");
    pousser_hex2(&mut s, id);
    s.append(": ");
    s.append(t.as_str());
    s
}

/// Message `contexte` suivi du texte de l'erreur `e`.
fn message_contexte(contexte: &str, e: &ErreursAirHaum) -> (s: String)
    ensures
        s@ == contexte@ + e.spec_texte(),
{
    let t = e.texte();
    let mut s = String::from_str(contexte);
    s.append(t.as_str());
    s
}

/// Construit et envoie une trame UBX ; le port peut n'en émettre qu'un préfixe.
pub fn envoyer_ubx<P: PortSerie>(port: &mut P, classe: u8, id: u8, payload: &[u8]) -> (r: Result<()>)
    ensures
        final(port).entrant() == old(port).entrant(),
        r is Ok ==> exists|k: int| 0 <= k <= trame_ubx(classe, id, payload@).len()
            && #[trigger] final(port).emis() == old(port).emis() + trame_ubx(classe, id, payload@).take(k),
        r matches Err(e) ==> e is ErreurIO && final(port).emis() == old(port).emis(),
        r matches Err(e) ==> e matches ErreursAirHaum::ErreurIO(m)
            && exists|ep: ErreursAirHaum| m@ == #[trigger] texte_echec_ubx(classe, id, ep),
{
    let trame = construire_trame_ubx(classe, id, payload);
    match port.ecrire(trame.as_slice()) {
        Ok(k) => {
            assert(trame@.subrange(0, k as int) == trame_ubx(classe, id, payload@).take(k as int));
            Ok(())
        },
        Err(e) => Err(ErreursAirHaum::ErreurIO(message_echec_ubx(classe, id, &e))),
    }
}

// ── Séquences de configuration ──────────────────────────────────────────────

/// Payload CFG-MSG désactivant le message NMEA (classe 0xF0, `id`).
pub fn payload_desactivation_nmea(id: u8) -> (p: Vec<u8>)
    ensures
        p@ == seq![0xF0u8, id, 0u8, 0u8, 0u8, 0u8, 0u8, 0u8],
{
    let p = vec![0xF0u8, id, 0, 0, 0, 0, 0, 0];
    assert(p@ =~= seq![0xF0u8, id, 0u8, 0u8, 0u8, 0u8, 0u8, 0u8]);
    p
}

/// Payload CFG-PRT : UART1 à 115 200 bauds, 8N1, entrée UBX+NMEA, sortie UBX.
pub open spec fn spec_payload_cfg_prt() -> Seq<u8> {
    seq![
        0x01u8, 0x00u8, 0x00u8, 0x00u8, 0xD0u8, 0x08u8, 0x00u8, 0x00u8, 0x00u8, 0xC2u8,
        0x01u8, 0x00u8, 0x07u8, 0x00u8, 0x01u8, 0x00u8, 0x00u8, 0x00u8, 0x00u8, 0x00u8,
    ]
}

/// Payload CFG-PRT (voir [`spec_payload_cfg_prt`]).
pub fn payload_cfg_prt() -> (p: Vec<u8>)
    ensures
        p@ == spec_payload_cfg_prt(),
{
    let p = vec![
        0x01u8, 0x00, 0x00, 0x00, 0xD0, 0x08, 0x00, 0x00, 0x00, 0xC2,
        0x01, 0x00, 0x07, 0x00, 0x01, 0x00, 0x00, 0x00, 0x00, 0x00,
    ];
    assert(p@ =~= spec_payload_cfg_prt());
    p
}

/// Payload CFG-MSG activant le message (`classe`, `id`) sur UART1 à chaque solution.
pub fn payload_activation_message(classe: u8, id: u8) -> (p: Vec<u8>)
    ensures
        p@ == seq![classe, id, 0u8, 1u8, 0u8, 0u8, 0u8, 0u8],
{
    let p = vec![classe, id, 0, 1, 0, 0, 0, 0];
    assert(p@ =~= seq![classe, id, 0u8, 1u8, 0u8, 0u8, 0u8, 0u8]);
    p
}

/// Payload CFG-RATE : mesure toutes les 100 ms, temps GPS.
pub open spec fn spec_payload_cfg_rate() -> Seq<u8> {
    seq![0x64u8, 0x00u8, 0x01u8, 0x00u8, 0x01u8, 0x00u8]
}

/// Payload CFG-RATE (voir [`spec_payload_cfg_rate`]).
pub fn payload_cfg_rate() -> (p: Vec<u8>)
    ensures
        p@ == spec_payload_cfg_rate(),
{
    let p = vec![0x64u8, 0x00, 0x01, 0x00, 0x01, 0x00];
    assert(p@ =~= spec_payload_cfg_rate());
    p
}

/// Vitesse d'usine du récepteur (bauds).
pub const BAUDRATE_USINE: u32 = 9_600;

/// Vitesse de fonctionnement (bauds).
pub const BAUDRATE_CIBLE: u32 = 115_200;

/// Octets lus au plus pour la détection du protocole.
pub const OCTETS_DETECTION: usize = 512;

/// Octets vidés au plus à la fin de l'initialisation.
pub const OCTETS_DRAIN_INIT: usize = 1024;

/// Le texte émis ne fait que s'allonger : `ancien` est un préfixe de `nouveau`.
pub open spec fn prolonge(nouveau: Seq<u8>, ancien: Seq<u8>) -> bool {
    ancien.len() <= nouveau.len() && nouveau.take(ancien.len() as int) == ancien
}

proof fn lemme_prolonge_transitif(a: Seq<u8>, b: Seq<u8>, c: Seq<u8>)
    requires
        prolonge(b, a),
        prolonge(c, b),
    ensures
        prolonge(c, a),
{
    assert(c.take(a.len() as int) =~= b.take(a.len() as int));
}

proof fn lemme_prolonge_refl(a: Seq<u8>)
    ensures
        prolonge(a, a),
{
    assert(a.take(a.len() as int) =~= a);
}

proof fn lemme_prolonge_ajout(a: Seq<u8>, x: Seq<u8>)
    ensures
        prolonge(a + x, a),
{
    assert((a + x).take(a.len() as int) =~= a);
}

// ── Séquences de configuration ──────────────────────────────────────────────

/// Octets émis quand les trames `trames` sont envoyées dans l'ordre et que le
/// port n'émet que les `ks[i]` premiers octets de la `i`-ième.
pub open spec fn emission(trames: Seq<Seq<u8>>, ks: Seq<int>) -> Seq<u8>
    decreases ks.len(),
{
    if ks.len() == 0 {
        Seq::empty()
    } else {
        emission(trames, ks.drop_last()) + trames[ks.len() - 1].take(ks.last())
    }
}

/// `e` est l'envoi de toutes les trames de `trames`, dans l'ordre, chacune
/// éventuellement tronquée par le port.
pub open spec fn emission_tronquee(trames: Seq<Seq<u8>>, e: Seq<u8>) -> bool {
    exists|ks: Seq<int>|
        ks.len() == trames.len()
        && (forall|i: int| 0 <= i < ks.len() ==> 0 <= #[trigger] ks[i] <= trames[i].len())
        && e == #[trigger] emission(trames, ks)
}

/// Trames de passage en UBX à 115 200 bauds : désactivation des six trames
/// NMEA standard (CFG-MSG), puis configuration du port (CFG-PRT).
pub open spec fn trames_bascule() -> Seq<Seq<u8>> {
    Seq::new(6, |i: int| trame_ubx(0x06, 0x01, seq![0xF0u8, i as u8, 0u8, 0u8, 0u8, 0u8, 0u8, 0u8]))
        .push(trame_ubx(0x06, 0x00, spec_payload_cfg_prt()))
}

/// Identifiants des messages de navigation activés : NAV-PVT, NAV-DOP,
/// NAV-STATUS, NAV-TIMEGPS.
pub open spec fn messages_navigation() -> Seq<u8> {
    seq![0x07u8, 0x04u8, 0x03u8, 0x20u8]
}

/// Trames d'activation des messages de navigation (CFG-MSG), puis cadence de
/// navigation (CFG-RATE).
pub open spec fn trames_activation() -> Seq<Seq<u8>> {
    Seq::new(4, |i: int| trame_ubx(0x06, 0x01, seq![0x01u8, messages_navigation()[i], 0u8, 1u8, 0u8, 0u8, 0u8, 0u8]))
        .push(trame_ubx(0x06, 0x08, spec_payload_cfg_rate()))
}

proof fn lemme_emission_pousse(trames: Seq<Seq<u8>>, ks: Seq<int>, k: int)
    ensures
        emission(trames, ks.push(k)) == emission(trames, ks) + trames[ks.len() as int].take(k),
{
    assert(ks.push(k).drop_last() =~= ks);
}

/// L'émission ne dépend que des trames déjà envoyées.
proof fn lemme_emission_prefixe(t1: Seq<Seq<u8>>, t2: Seq<Seq<u8>>, ks: Seq<int>)
    requires
        ks.len() <= t1.len(),
    ensures
        emission(t1 + t2, ks) == emission(t1, ks),
    decreases ks.len(),
{
    if ks.len() > 0 {
        lemme_emission_prefixe(t1, t2, ks.drop_last());
        assert((t1 + t2)[ks.len() - 1] == t1[ks.len() - 1]);
    }
}

/// Envoyer deux listes de trames à la suite, c'est envoyer leur concaténation.
proof fn lemme_emission_concat(t1: Seq<Seq<u8>>, t2: Seq<Seq<u8>>, k1: Seq<int>, k2: Seq<int>)
    requires
        k1.len() == t1.len(),
        k2.len() <= t2.len(),
    ensures
        emission(t1 + t2, k1 + k2) == emission(t1, k1) + emission(t2, k2),
    decreases k2.len(),
{
    if k2.len() == 0 {
        assert(k1 + k2 =~= k1);
        lemme_emission_prefixe(t1, t2, k1);
        assert(emission(t1, k1) + emission(t2, k2) =~= emission(t1, k1));
    } else {
        lemme_emission_concat(t1, t2, k1, k2.drop_last());
        assert((k1 + k2).drop_last() =~= k1 + k2.drop_last());
        assert((t1 + t2)[(k1 + k2).len() - 1] == t2[k2.len() - 1]);
        assert(emission(t1, k1) + emission(t2, k2.drop_last()) + t2[k2.len() - 1].take(k2.last())
            =~= emission(t1, k1) + (emission(t2, k2.drop_last()) + t2[k2.len() - 1].take(k2.last())));
    }
}

/// Les envois réussis de deux listes à la suite forment un envoi de leur concaténation.
proof fn lemme_emission_tronquee_concat(t1: Seq<Seq<u8>>, t2: Seq<Seq<u8>>, e1: Seq<u8>, e2: Seq<u8>)
    requires
        emission_tronquee(t1, e1),
        emission_tronquee(t2, e2),
    ensures
        emission_tronquee(t1 + t2, e1 + e2),
{
    let k1 = choose|ks: Seq<int>|
        ks.len() == t1.len()
        && (forall|i: int| 0 <= i < ks.len() ==> 0 <= #[trigger] ks[i] <= t1[i].len())
        && e1 == #[trigger] emission(t1, ks);
    let k2 = choose|ks: Seq<int>|
        ks.len() == t2.len()
        && (forall|i: int| 0 <= i < ks.len() ==> 0 <= #[trigger] ks[i] <= t2[i].len())
        && e2 == #[trigger] emission(t2, ks);
    lemme_emission_concat(t1, t2, k1, k2);
    let ks = k1 + k2;
    assert forall|i: int| 0 <= i < ks.len() implies 0 <= #[trigger] ks[i] <= (t1 + t2)[i].len() by {
        if i < k1.len() {
            assert(ks[i] == k1[i]);
        } else {
            assert(ks[i] == k2[i - k1.len()]);
        }
    }
    assert(ks.len() == (t1 + t2).len());
}

/// Désactive les six trames NMEA (GGA, GLL, GSA, GSV, RMC, VTG) puis bascule
/// le récepteur à 115 200 bauds en sortie UBX seule (CFG-PRT).
fn basculer_vers_ubx_115200<P: PortSerie>(port: &mut P) -> (r: Result<()>)
    ensures
        prolonge(final(port).emis(), old(port).emis()),
        r is Ok ==> emission_tronquee(trames_bascule(), final(port).emis().skip(old(port).emis().len() as int)),
{
    let ghost e0 = port.emis();
    let ghost mut ks: Seq<int> = Seq::empty();
    proof {
        assert(e0 + emission(trames_bascule(), ks) =~= e0);
    }
    let mut id: u8 = 0;
    while id < 6
        invariant
            id <= 6,
            e0 == old(port).emis(),
            ks.len() == id,
            forall|j: int| 0 <= j < ks.len() ==> 0 <= #[trigger] ks[j] <= trames_bascule()[j].len(),
            port.emis() == e0 + emission(trames_bascule(), ks),
        decreases 6 - id,
    {
        let ghost avant = port.emis();
        let payload = payload_desactivation_nmea(id);
        match envoyer_ubx(port, 0x06, 0x01, payload.as_slice()) {
            Ok(()) => {},
            Err(e) => {
                proof {
                    lemme_prolonge_ajout(e0, emission(trames_bascule(), ks));
                }
                return Err(e);
            },
        }
        proof {
            let t = trame_ubx(0x06, 0x01, payload@);
            let k = choose|k: int| 0 <= k <= t.len() && #[trigger] port.emis() == avant + t.take(k);
            assert(trames_bascule()[id as int] == t);
            lemme_emission_pousse(trames_bascule(), ks, k);
            ks = ks.push(k);
            assert(port.emis() =~= e0 + emission(trames_bascule(), ks));
        }
        port.pause_ms(100);
        id = id + 1;
    }
    let ghost avant = port.emis();
    let payload = payload_cfg_prt();
    match envoyer_ubx(port, 0x06, 0x00, payload.as_slice()) {
        Ok(()) => {},
        Err(e) => {
            proof {
                lemme_prolonge_ajout(e0, emission(trames_bascule(), ks));
            }
            return Err(e);
        },
    }
    proof {
        let t = trame_ubx(0x06, 0x00, payload@);
        let k = choose|k: int| 0 <= k <= t.len() && #[trigger] port.emis() == avant + t.take(k);
        assert(trames_bascule()[6] == t);
        lemme_emission_pousse(trames_bascule(), ks, k);
        ks = ks.push(k);
        let e = emission(trames_bascule(), ks);
        assert(port.emis() =~= e0 + e);
        assert(port.emis().skip(e0.len() as int) =~= e);
        lemme_prolonge_ajout(e0, e);
        assert(ks.len() == trames_bascule().len());
    }
    Ok(())
}

/// Active NAV-PVT, NAV-DOP, NAV-STATUS et NAV-TIMEGPS sur UART1, puis règle
/// la cadence de navigation à 10 Hz (CFG-RATE).
fn activer_messages<P: PortSerie>(port: &mut P) -> (r: Result<()>)
    ensures
        prolonge(final(port).emis(), old(port).emis()),
        r is Ok ==> emission_tronquee(trames_activation(), final(port).emis().skip(old(port).emis().len() as int)),
{
    let messages: [u8; 4] = [0x07, 0x04, 0x03, 0x20];
    let ghost e0 = port.emis();
    let ghost mut ks: Seq<int> = Seq::empty();
    proof {
        assert(messages@ =~= messages_navigation());
        assert(e0 + emission(trames_activation(), ks) =~= e0);
    }
    let mut i: usize = 0;
    while i < 4
        invariant
            i <= 4,
            e0 == old(port).emis(),
            messages@ == messages_navigation(),
            ks.len() == i,
            forall|j: int| 0 <= j < ks.len() ==> 0 <= #[trigger] ks[j] <= trames_activation()[j].len(),
            port.emis() == e0 + emission(trames_activation(), ks),
        decreases 4 - i,
    {
        let ghost avant = port.emis();
        let payload = payload_activation_message(0x01, messages[i]);
        match envoyer_ubx(port, 0x06, 0x01, payload.as_slice()) {
            Ok(()) => {},
            Err(e) => {
                proof {
                    lemme_prolonge_ajout(e0, emission(trames_activation(), ks));
                }
                return Err(e);
            },
        }
        proof {
            let t = trame_ubx(0x06, 0x01, payload@);
            let k = choose|k: int| 0 <= k <= t.len() && #[trigger] port.emis() == avant + t.take(k);
            assert(trames_activation()[i as int] == t);
            lemme_emission_pousse(trames_activation(), ks, k);
            ks = ks.push(k);
            assert(port.emis() =~= e0 + emission(trames_activation(), ks));
        }
        port.pause_ms(100);
        i = i + 1;
    }
    let ghost avant = port.emis();
    let payload = payload_cfg_rate();
    match envoyer_ubx(port, 0x06, 0x08, payload.as_slice()) {
        Ok(()) => {},
        Err(e) => {
            proof {
                lemme_prolonge_ajout(e0, emission(trames_activation(), ks));
            }
            return Err(e);
        },
    }
    proof {
        let t = trame_ubx(0x06, 0x08, payload@);
        let k = choose|k: int| 0 <= k <= t.len() && #[trigger] port.emis() == avant + t.take(k);
        assert(trames_activation()[4] == t);
        lemme_emission_pousse(trames_activation(), ks, k);
        ks = ks.push(k);
        let e = emission(trames_activation(), ks);
        assert(port.emis() =~= e0 + e);
        assert(port.emis().skip(e0.len() as int) =~= e);
        lemme_prolonge_ajout(e0, e);
        assert(ks.len() == trames_activation().len());
    }
    port.pause_ms(100);
    Ok(())
}

// ── Conversion NAV-PVT → DonneesGps ─────────────────────────────────────────

/// Cap normalisé dans [0, 36 000 000[ (1e-5 degré).
pub open spec fn cap_normalise(head_mot: i32) -> int {
    (head_mot as int) % 36_000_000
}

/// `d` reprend les champs de `pvt` (précision horizontale en millièmes :
/// HDOP × 1000 si le HDOP est connu, sinon h_acc en mm).
pub open spec fn donnees_de(d: DonneesGps, pvt: NavPvt, hdop: Option<u16>) -> bool {
    &&& d.latitude == pvt.lat
    &&& d.longitude == pvt.lon
    &&& d.altitude_msl == pvt.h_msl
    &&& d.vitesse_sol == pvt.g_speed
    &&& d.cap as int == cap_normalise(pvt.head_mot)
    &&& d.vel_nord == pvt.vel_n
    &&& d.vel_est == pvt.vel_e
    &&& d.vel_bas == pvt.vel_d
    &&& d.precision_h as int == (match hdop { Some(h) => 10 * h as int, None => pvt.h_acc as int })
    &&& d.precision_v == pvt.v_acc
    &&& d.nombre_satellites == pvt.num_sv
    &&& d.type_fix == TypeFixGps::spec_depuis_ubx(pvt.fix_type)
}

fn pvt_vers_donnees(pvt: NavPvt, hdop: Option<u16>, horodatage: Horodatage) -> (d: DonneesGps)
    ensures
        donnees_de(d, pvt, hdop),
        d.horodatage == horodatage,
{
    let r = pvt.head_mot % 36_000_000;
    let cap = if r < 0 { r + 36_000_000 } else { r };
    let precision_h: u32 = match hdop {
        Some(h) => h as u32 * 10,
        None => pvt.h_acc,
    };
    DonneesGps {
        horodatage,
        latitude: pvt.lat,
        longitude: pvt.lon,
        altitude_msl: pvt.h_msl,
        vitesse_sol: pvt.g_speed,
        cap,
        vel_nord: pvt.vel_n,
        vel_est: pvt.vel_e,
        vel_bas: pvt.vel_d,
        precision_h,
        precision_v: pvt.v_acc,
        nombre_satellites: pvt.num_sv,
        type_fix: TypeFixGps::depuis_ubx(pvt.fix_type),
    }
}

// ── Driver ──────────────────────────────────────────────────────────────────

/// Vue abstraite du driver : automate UBX, NAV-PVT (et HDOP) à l'origine de
/// la dernière position, dernier HDOP reçu (× 100).
pub struct VueGps {
    pub parseur: VueParseur,
    pub source: Option<(NavPvt, Option<u16>)>,
    pub hdop: Option<u16>,
}

/// Traitement d'un octet : (nouvelle vue, nouvelle position décodée).
pub open spec fn gps_pas(e: VueGps, o: u8) -> (VueGps, bool) {
    let (v2, complet) = etape(e.parseur, o);
    let suite = VueGps { parseur: v2, ..e };
    if complet {
        match v2.last_entete {
            Some(h) => if h.classe == 0x01 && h.id == 0x07 {
                match v2.last_nav_pvt {
                    Some(pvt) => (VueGps { source: Some((pvt, e.hdop)), ..suite }, true),
                    None => (suite, false),
                }
            } else if h.classe == 0x01 && h.id == 0x04 {
                match v2.last_nav_dop {
                    Some(dop) => (VueGps { hdop: Some(dop.h_dop), ..suite }, false),
                    None => (suite, false),
                }
            } else {
                (suite, false)
            },
            None => (suite, false),
        }
    } else {
        (suite, false)
    }
}

/// Traitement d'une suite d'octets : (vue finale, au moins une nouvelle position).
pub open spec fn gps_suite(e: VueGps, s: Seq<u8>) -> (VueGps, bool)
    decreases s.len(),
{
    if s.len() == 0 {
        (e, false)
    } else {
        let (e1, b1) = gps_suite(e, s.drop_last());
        let (e2, b2) = gps_pas(e1, s.last());
        (e2, b1 || b2)
    }
}

/// Driver GPS u-blox sur un port série.
pub struct DriverGps<P: PortSerie> {
    port: P,
    parseur: UbxParseur,
    derniere_donnee: Option<DonneesGps>,
    hdop: Option<u16>,
    source: Ghost<Option<(NavPvt, Option<u16>)>>,
}

impl<P: PortSerie> DriverGps<P> {
    /// Vue abstraite du driver.
    pub closed spec fn vue(&self) -> VueGps {
        VueGps { parseur: self.parseur.vue(), source: self.source@, hdop: self.hdop }
    }

    /// Port série du driver.
    pub closed spec fn liaison(&self) -> P {
        self.port
    }

    /// Port série du driver.
    pub fn port_serie(&self) -> (p: &P)
        ensures
            *p == self.liaison(),
    {
        &self.port
    }

    /// Driver sur le port donné, aucune position connue.
    pub fn nouveau(port: P) -> (d: Self)
        ensures
            d.bien_forme(),
            d.liaison() == port,
            d.position() is None,
            d.vue().source is None,
            d.vue().hdop is None,
            d.vue().parseur.etat == super::ubx_parser::EtatParseur::AttenteSync1,
    {
        DriverGps {
            port,
            parseur: UbxParseur::nouveau(),
            derniere_donnee: None,
            hdop: None,
            source: Ghost(None),
        }
    }

    /// Accès au port (injection de données après l'initialisation).
    pub fn port_mut(&mut self) -> (p: &mut P)
        ensures
            *p == old(self).liaison(),
            final(self).liaison() == *final(p),
            final(self).vue() == old(self).vue(),
            final(self).position() == old(self).position(),
            final(self).bien_forme() == old(self).bien_forme(),
    {
        &mut self.port
    }
}

impl<P: PortSerie> CapteurGps for DriverGps<P> {
    closed spec fn position(&self) -> Option<DonneesGps> {
        self.derniere_donnee
    }

    closed spec fn bien_forme(&self) -> bool {
        &&& self.parseur.inv()
        &&& match (self.derniere_donnee, self.source@) {
            (None, None) => true,
            (Some(d), Some((pvt, h))) => donnees_de(d, pvt, h),
            _ => false,
        }
    }

    /// Détecte le protocole à 9 600 bauds ; si le récepteur parle NMEA, envoie
    /// la séquence de passage en UBX à 115 200 bauds ; passe le port à
    /// 115 200 bauds, active les messages de navigation, puis vide la
    /// réception. En cas de succès, ce qui a été émis est la séquence
    /// d'activation, précédée ou non de celle de passage en UBX, chaque trame
    /// pouvant être tronquée par le port.
    fn initialiser(&mut self) -> (r: Result<()>)
        ensures
            prolonge(final(self).liaison().emis(), old(self).liaison().emis()),
            final(self).vue() == old(self).vue(),
            r is Ok ==> ({
                let e = final(self).liaison().emis().skip(old(self).liaison().emis().len() as int);
                ||| emission_tronquee(trames_activation(), e)
                ||| emission_tronquee(trames_bascule() + trames_activation(), e)
            }),
    {
        proof {
            lemme_prolonge_refl(self.port.emis());
        }
        // Détection du protocole à la vitesse d'usine.
        match self.port.reconfigurer_baudrate(BAUDRATE_USINE) {
            Ok(()) => {},
            Err(e) => {
                return Err(ErreursAirHaum::ErreurIO(message_contexte("GPS init 9600: ", &e)));
            },
        }
        self.port.pause_ms(150);
        let mut buf_det = [0u8; 64];
        let mut octets: Vec<u8> = Vec::new();
        let mut essai: u32 = 0;
        while essai < 8
            invariant
                essai <= 8,
                buf_det@.len() == 64,
                self.port.emis() == old(self).port.emis(),
                self.parseur == old(self).parseur,
                self.derniere_donnee == old(self).derniere_donnee,
                self.hdop == old(self).hdop,
                self.source == old(self).source,
                octets.len() <= 8 * 64,
                octets.len() <= essai * 64,
            decreases 8 - essai,
        {
            match self.port.lire(&mut buf_det) {
                Ok(n) => {
                    let mut j: usize = 0;
                    while j < n
                        invariant
                            j <= n <= buf_det@.len(),
                            buf_det@.len() == 64,
                            octets.len() <= essai * 64 + j,
                        decreases n - j,
                    {
                        octets.push(buf_det[j]);
                        j = j + 1;
                    }
                },
                Err(_) => {},
            }
            self.port.pause_ms(20);
            essai = essai + 1;
            if octets.len() >= OCTETS_DETECTION {
                break;
            }
        }
        let protocole = detecter_protocole(octets.as_slice());
        // Passage en UBX à 115 200 bauds si le récepteur parle NMEA.
        let ghost e0 = self.port.emis();
        if let ProtocoleDetecte::Nmea = protocole {
            basculer_vers_ubx_115200(&mut self.port)?;
        }
        let ghost e1 = self.port.emis();
        self.port.pause_ms(100);
        match self.port.reconfigurer_baudrate(BAUDRATE_CIBLE) {
            Ok(()) => {},
            Err(e) => {
                return Err(ErreursAirHaum::ErreurIO(message_contexte("GPS init 115200: ", &e)));
            },
        }
        let active = activer_messages(&mut self.port);
        let ghost e2 = self.port.emis();
        proof {
            lemme_prolonge_refl(e0);
            if !(protocole is Nmea) {
                assert(e1 == e0);
            }
            lemme_prolonge_transitif(e0, e1, e2);
        }
        active?;
        // Vidage de la réception.
        self.port.pause_ms(100);
        let mut buf = [0u8; 64];
        let mut draines: usize = 0;
        while draines < OCTETS_DRAIN_INIT
            invariant
                buf@.len() == 64,
                draines <= OCTETS_DRAIN_INIT + 64,
                self.port.emis() == e2,
                self.parseur == old(self).parseur,
                self.derniere_donnee == old(self).derniere_donnee,
                self.hdop == old(self).hdop,
                self.source == old(self).source,
            decreases OCTETS_DRAIN_INIT + 64 - draines,
        {
            match self.port.lire(&mut buf) {
                Ok(n) => {
                    if n == 0 {
                        break;
                    }
                    draines = draines + n;
                },
                Err(_) => {
                    break;
                },
            }
        }
        proof {
            let b = e1.skip(e0.len() as int);
            let a = e2.skip(e1.len() as int);
            let e = e2.skip(e0.len() as int);
            assert(e1 =~= e0 + b);
            assert(e2 =~= e1 + a);
            if protocole is Nmea {
                assert(e =~= b + a);
                lemme_emission_tronquee_concat(trames_bascule(), trames_activation(), b, a);
            } else {
                assert(e =~= a);
            }
        }
        Ok(())
    }

    fn mettre_a_jour(&mut self) -> (r: bool)
        ensures
            !old(self).liaison().lecture_acceptee() ==> !r && final(self).vue() == old(self).vue()
                && final(self).liaison().entrant() == old(self).liaison().entrant(),
            old(self).liaison().lecture_acceptee() && old(self).liaison().lecture_complete() ==> {
                let lu = old(self).liaison().entrant().take(
                    vstd::math::min(64, old(self).liaison().entrant().len() as int));
                &&& final(self).liaison().entrant() == old(self).liaison().entrant().skip(lu.len() as int)
                &&& (final(self).vue(), r) == gps_suite(old(self).vue(), lu)
            },
            exists|lu: Seq<u8>| lu.len() <= 64
                && #[trigger] (lu + final(self).liaison().entrant()) == old(self).liaison().entrant()
                && (final(self).vue(), r) == gps_suite(old(self).vue(), lu),
            final(self).liaison().emis() == old(self).liaison().emis(),
    {
        let mut buf = [0u8; 64];
        let n = match self.port.lire(&mut buf) {
            Ok(n) => n,
            Err(_) => {
                let ghost vide = Seq::<u8>::empty();
                assert(vide + self.liaison().entrant() =~= old(self).liaison().entrant());
                assert((self.vue(), false) == gps_suite(old(self).vue(), vide));
                assert(vide.len() <= 64);
                return false;
            },
        };
        let ghost lu = buf@.subrange(0, n as int);
        let ghost e0 = old(self).vue();
        assert(lu + self.port.entrant() =~= old(self).port.entrant()) by {
            assert(old(self).port.entrant() =~= old(self).port.entrant().subrange(0, n as int) + old(self).port.entrant().skip(n as int));
        }
        let ghost port1 = self.port;
        let mut nouvelle = false;
        let mut i: usize = 0;
        while i < n
            invariant
                0 <= i <= n <= buf@.len(),
                lu == buf@.subrange(0, n as int),
                self.bien_forme(),
                self.port == port1,
                (self.vue(), nouvelle) == gps_suite(e0, lu.take(i as int)),
                nouvelle ==> self.derniere_donnee is Some,
            decreases n - i,
        {
            let octet = buf[i];
            assert(lu.take(i + 1).drop_last() == lu.take(i as int));
            assert(lu.take(i + 1).last() == octet);
            let complet = self.parseur.alimenter(octet);
            if complet {
                match self.parseur.last_entete() {
                    Some(h) => {
                        if h.classe == 0x01 && h.id == 0x07 {
                            match self.parseur.last_nav_pvt() {
                                Some(pvt) => {
                                    let d = pvt_vers_donnees(pvt, self.hdop, Horodatage::maintenant());
                                    self.derniere_donnee = Some(d);
                                    proof {
                                        self.source@ = Some((pvt, self.hdop));
                                    }
                                    nouvelle = true;
                                },
                                None => {},
                            }
                        } else if h.classe == 0x01 && h.id == 0x04 {
                            match self.parseur.last_nav_dop() {
                                Some(dop) => {
                                    self.hdop = Some(dop.h_dop);
                                },
                                None => {},
                            }
                        }
                    },
                    None => {},
                }
            }
            i = i + 1;
        }
        assert(lu.take(n as int) == lu);
        assert(lu.len() <= 64);
        assert((self.vue(), nouvelle) == gps_suite(old(self).vue(), lu));
        assert(lu + self.liaison().entrant() == old(self).liaison().entrant());
        nouvelle
    }

    fn derniere_donnee(&self) -> (r: Option<DonneesGps>) {
        self.derniere_donnee
    }

    fn est_operationnel(&self) -> (r: bool) {
        match self.derniere_donnee {
            Some(d) => d.type_fix.est_valide(),
            None => false,
        }
    }
}


proof fn lemme_gps_sans_trame(e: VueGps, s: Seq<u8>)
    requires
        trames_reconnues(e.parseur, s) == 0,
    ensures
        gps_suite(e, s) == (VueGps { parseur: alimenter_suite(e.parseur, s), ..e }, false),
    decreases s.len(),
{
    if s.len() > 0 {
        lemme_gps_sans_trame(e, s.drop_last());
    }
}

/// Position publiée après une trame NAV-PVT : une trame NAV-PVT bien formée
/// d'au moins 44 octets de payload, reçue par un driver dont l'automate
/// attend une synchronisation, produit une nouvelle position ; toute
/// position tirée de cette trame a la latitude (octets 28..32), la
/// longitude (24..28), l'altitude (36..40) et le nombre de satellites
/// (octet 23) du payload, pour précision verticale vAcc (octets 44..48) et
/// pour précision horizontale le dernier HDOP × 1000 s'il est
/// connu, sinon hAcc (octets 40..44) en mm.
pub proof fn loi_position_gps(e: VueGps, payload: Seq<u8>, d: DonneesGps)
    requires
        vue_valide(e.parseur),
        e.parseur.etat == EtatParseur::AttenteSync1 || e.parseur.etat == EtatParseur::AttenteSync2,
        44 <= payload.len() <= 512,
    ensures
        ({
            let (e2, nouvelle) = gps_suite(e, trame_ubx(0x01, 0x07, payload));
            &&& nouvelle
            &&& e2.source matches Some((pvt, h)) && h == e.hdop
            &&& (e2.source matches Some((pvt, h)) && donnees_de(d, pvt, h)) ==> {
                &&& d.latitude as u32 as int == octets_le32(payload, 28)
                &&& d.longitude as u32 as int == octets_le32(payload, 24)
                &&& d.altitude_msl as u32 as int == octets_le32(payload, 36)
                &&& d.nombre_satellites == payload[23]
                &&& d.precision_h as int == (match e.hdop {
                    Some(x) => 10 * x as int,
                    None => octets_le32(payload, 40),
                })
                &&& payload.len() >= 48 ==> d.precision_v as int == octets_le32(payload, 44)
            }
        }),
{
    let v = e.parseur;
    let n = payload.len();
    let ck = fletcher(corps_ubx(0x01, 0x07, payload));
    let t = trame_ubx(0x01, 0x07, payload);
    loi_trame_ubx(v, 0x01, 0x07, payload, ck.0, ck.1);
    loi_nav_pvt(v, payload);
    assert(t.len() > 0);
    let debut = t.drop_last();
    assert(trames_reconnues(v, t) == trames_reconnues(v, debut) + 1);
    lemme_gps_sans_trame(e, debut);
    let p1 = alimenter_suite(v, debut);
    assert(etape(p1, t.last()).0 == alimenter_suite(v, t));
}

} // verus!

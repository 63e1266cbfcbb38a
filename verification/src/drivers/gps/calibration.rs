//! Encodage hexadécimal de la base d'orbites de l'assistance GPS persistante.
use vstd::prelude::*;
use crate::systeme::texte::{caracteres, pousser};

verus! {

/// Chiffre hexadécimal minuscule de valeur `d` (`d < 16`).
pub open spec fn chiffre_hex(d: int) -> char {
    if d < 10 {
        (d + 48) as char
    } else {
        (d + 87) as char
    }
}

/// Écriture hexadécimale minuscule, deux chiffres par octet (`{:02x}`).
pub open spec fn hex_de(octets: Seq<u8>) -> Seq<char>
    decreases octets.len(),
{
    if octets.len() == 0 {
        Seq::empty()
    } else {
        hex_de(octets.drop_last()) + seq![chiffre_hex(octets.last() as int / 16), chiffre_hex(octets.last() as int % 16)]
    }
}

/// Valeur d'un chiffre hexadécimal (majuscule ou minuscule).
pub open spec fn valeur_hex(c: char) -> Option<int> {
    if '0' <= c && c <= '9' {
        Some(c as int - 48)
    } else if 'a' <= c && c <= 'f' {
        Some(c as int - 87)
    } else if 'A' <= c && c <= 'F' {
        Some(c as int - 55)
    } else {
        None
    }
}

/// Octet écrit par deux caractères, comme l'accepte `u8::from_str_radix(_, 16)` :
/// deux chiffres hexadécimaux, ou `+` suivi d'un chiffre.
pub open spec fn octet_de_paire(a: char, b: char) -> Option<u8> {
    if a == '+' {
        match valeur_hex(b) {
            Some(y) => Some(y as u8),
            None => None,
        }
    } else {
        match (valeur_hex(a), valeur_hex(b)) {
            (Some(x), Some(y)) => Some((16 * x + y) as u8),
            _ => None,
        }
    }
}

/// Octets écrits par les paires successives de `s` (longueur paire).
pub open spec fn octets_de_paires(s: Seq<char>) -> Option<Seq<u8>>
    decreases s.len(),
{
    if s.len() < 2 {
        Some(Seq::empty())
    } else {
        match (octets_de_paires(s.take(s.len() - 2)), octet_de_paire(s[s.len() - 2], s[s.len() - 1])) {
            (Some(o), Some(x)) => Some(o.push(x)),
            _ => None,
        }
    }
}

/// Octets décrits par le texte hexadécimal `s` : `None` si sa longueur est
/// impaire ou si une paire n'est pas un octet.
pub open spec fn octets_de_hex(s: Seq<char>) -> Option<Seq<u8>> {
    if s.len() % 2 != 0 {
        None
    } else {
        octets_de_paires(s)
    }
}

fn chiffre_hex_exec(d: u8) -> (c: char)
    requires
        d < 16,
    ensures
        c == chiffre_hex(d as int),
{
    if d < 10 {
        (d + 48) as char
    } else {
        (d + 87) as char
    }
}

/// Texte hexadécimal minuscule des octets, deux chiffres par octet.
pub fn vers_hex(donnees: &[u8]) -> (s: String)
    ensures
        s@ == hex_de(donnees@),
{
    let mut s = String::new();
    let mut i: usize = 0;
    while i < donnees.len()
        invariant
            i <= donnees.len(),
            s@ == hex_de(donnees@.take(i as int)),
        decreases donnees.len() - i,
    {
        let o = donnees[i];
        pousser(&mut s, chiffre_hex_exec(o / 16));
        pousser(&mut s, chiffre_hex_exec(o % 16));
        assert(donnees@.take(i + 1).drop_last() == donnees@.take(i as int));
        i = i + 1;
    }
    assert(donnees@.take(donnees.len() as int) == donnees@);
    s
}

fn valeur_hex_exec(c: char) -> (r: Option<u8>)
    ensures
        match valeur_hex(c) {
            Some(v) => r == Some(v as u8) && 0 <= v < 16,
            None => r is None,
        },
{
    if '0' <= c && c <= '9' {
        Some((c as u32 - 48) as u8)
    } else if 'a' <= c && c <= 'f' {
        Some((c as u32 - 87) as u8)
    } else if 'A' <= c && c <= 'F' {
        Some((c as u32 - 55) as u8)
    } else {
        None
    }
}

fn octet_de_paire_exec(a: char, b: char) -> (r: Option<u8>)
    ensures
        r == octet_de_paire(a, b),
{
    if a == '+' {
        valeur_hex_exec(b)
    } else {
        match (valeur_hex_exec(a), valeur_hex_exec(b)) {
            (Some(x), Some(y)) => Some(16 * x + y),
            _ => None,
        }
    }
}

/// Octets décrits par un texte hexadécimal ; `None` si la longueur est impaire
/// ou si une paire n'est pas un octet.
pub fn depuis_hex(texte: &str) -> (r: Option<Vec<u8>>)
    ensures
        match octets_de_hex(texte@) {
            Some(o) => r matches Some(v) && v@ == o,
            None => r is None,
        },
{
    let v = caracteres(texte);
    if v.len() % 2 != 0 {
        return None;
    }
    let mut octets: Vec<u8> = Vec::new();
    let mut i: usize = 0;
    while i < v.len()
        invariant
            v@ == texte@,
            v.len() % 2 == 0,
            i % 2 == 0,
            i <= v.len(),
            octets_de_paires(v@.take(i as int)) == Some(octets@),
        decreases v.len() - i,
    {
        let ghost avant = v@.take(i as int);
        let ghost suite = v@.take(i + 2);
        assert(suite.take(suite.len() - 2) == avant);
        assert(suite[suite.len() - 2] == v@[i as int]);
        assert(suite[suite.len() - 1] == v@[i + 1]);
        match octet_de_paire_exec(v[i], v[i + 1]) {
            Some(x) => {
                octets.push(x);
            },
            None => {
                proof {
                    lemme_paires_echec(v@, i + 2);
                }
                return None;
            },
        }
        i = i + 2;
    }
    assert(v@.take(v.len() as int) == v@);
    Some(octets)
}

proof fn lemme_paires_echec(s: Seq<char>, k: int)
    requires
        0 <= k <= s.len(),
        k % 2 == 0,
        s.len() % 2 == 0,
        octets_de_paires(s.take(k)) is None,
    ensures
        octets_de_paires(s) is None,
    decreases s.len() - k,
{
    if k < s.len() {
        let suite = s.take(k + 2);
        assert(suite.take(suite.len() - 2) == s.take(k));
        lemme_paires_echec(s, k + 2);
    } else {
        assert(s.take(k) == s);
    }
}

proof fn lemme_paire_hex(x: u8)
    ensures
        octet_de_paire(chiffre_hex(x as int / 16), chiffre_hex(x as int % 16)) == Some(x),
{
}

/// Relire l'écriture hexadécimale d'une suite d'octets redonne ces octets.
pub proof fn loi_hex_aller_retour(octets: Seq<u8>)
    ensures
        octets_de_hex(hex_de(octets)) == Some(octets),
        hex_de(octets).len() == 2 * octets.len(),
    decreases octets.len(),
{
    if octets.len() > 0 {
        let o = octets.drop_last();
        loi_hex_aller_retour(o);
        let s = hex_de(octets);
        assert(s.take(s.len() - 2) == hex_de(o));
        lemme_paire_hex(octets.last());
        assert(o.push(octets.last()) == octets);
    }
}

} // verus!

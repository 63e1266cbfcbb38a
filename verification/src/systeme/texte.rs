//! Outils de texte : découpage en lignes, espaces, entiers décimaux.
//!
//! Le texte est manipulé comme une suite de caractères (`Vec<char>`) et des
//! intervalles d'indices dans cette suite.
use vstd::prelude::*;
use crate::types::{ErreursAirHaum, Result};

verus! {

/// Caractère d'espacement au sens Unicode (propriété `White_Space`), ceux que
/// `str::trim` retire.
pub open spec fn est_blanc(c: char) -> bool {
    ||| c == '\t' || c == '\n' || c == '\u{0B}' || c == '\u{0C}' || c == '\r' || c == ' '
    ||| c == '\u{85}' || c == '\u{A0}' || c == '\u{1680}'
    ||| ('\u{2000}' <= c && c <= '\u{200A}')
    ||| c == '\u{2028}' || c == '\u{2029}' || c == '\u{202F}' || c == '\u{205F}' || c == '\u{3000}'
}

/// Caractère d'espacement au sens Unicode.
pub fn caractere_blanc(c: char) -> (r: bool)
    ensures
        r == est_blanc(c),
{
    c == '\t' || c == '\n' || c == '\u{0B}' || c == '\u{0C}' || c == '\r' || c == ' ' || c == '\u{85}'
        || c == '\u{A0}' || c == '\u{1680}' || ('\u{2000}' <= c && c <= '\u{200A}') || c == '\u{2028}'
        || c == '\u{2029}' || c == '\u{202F}' || c == '\u{205F}' || c == '\u{3000}'
}

/// Nombre d'espaces en tête de `s`.
pub open spec fn blancs_en_tete(s: Seq<char>) -> nat
    decreases s.len(),
{
    if s.len() > 0 && est_blanc(s[0]) {
        1 + blancs_en_tete(s.drop_first())
    } else {
        0
    }
}

/// Nombre d'espaces en fin de `s`.
pub open spec fn blancs_en_fin(s: Seq<char>) -> nat
    decreases s.len(),
{
    if s.len() > 0 && est_blanc(s.last()) {
        1 + blancs_en_fin(s.drop_last())
    } else {
        0
    }
}

/// `s` sans ses espaces de tête ni de fin (ce que rend `str::trim`).
pub open spec fn rogner(s: Seq<char>) -> Seq<char> {
    let t = s.skip(blancs_en_tete(s) as int);
    t.take(t.len() - blancs_en_fin(t))
}

proof fn lemme_blancs_en_tete(s: Seq<char>)
    ensures
        blancs_en_tete(s) <= s.len(),
        forall|i: int| 0 <= i < blancs_en_tete(s) ==> est_blanc(#[trigger] s[i]),
        blancs_en_tete(s) < s.len() ==> !est_blanc(s[blancs_en_tete(s) as int]),
    decreases s.len(),
{
    if s.len() > 0 && est_blanc(s[0]) {
        lemme_blancs_en_tete(s.drop_first());
        assert forall|i: int| 0 <= i < blancs_en_tete(s) implies est_blanc(#[trigger] s[i]) by {
            if i > 0 {
                assert(s[i] == s.drop_first()[i - 1]);
            }
        }
    }
}

proof fn lemme_blancs_en_fin(s: Seq<char>)
    ensures
        blancs_en_fin(s) <= s.len(),
        forall|i: int| s.len() - blancs_en_fin(s) <= i < s.len() ==> est_blanc(#[trigger] s[i]),
        blancs_en_fin(s) < s.len() ==> !est_blanc(s[s.len() - blancs_en_fin(s) - 1]),
    decreases s.len(),
{
    if s.len() > 0 && est_blanc(s.last()) {
        lemme_blancs_en_fin(s.drop_last());
        assert forall|i: int| s.len() - blancs_en_fin(s) <= i < s.len() implies est_blanc(#[trigger] s[i]) by {
            if i < s.len() - 1 {
                assert(s[i] == s.drop_last()[i]);
            }
        }
    }
}

/// Le nombre d'espaces de tête est caractérisé par sa propriété.
proof fn lemme_tete_caracterisee(s: Seq<char>, n: nat)
    requires
        n <= s.len(),
        forall|i: int| 0 <= i < n ==> est_blanc(#[trigger] s[i]),
        n < s.len() ==> !est_blanc(s[n as int]),
    ensures
        blancs_en_tete(s) == n,
    decreases n,
{
    if n > 0 {
        assert(est_blanc(s[0]));
        assert forall|i: int| 0 <= i < n - 1 implies est_blanc(#[trigger] s.drop_first()[i]) by {
            assert(s.drop_first()[i] == s[i + 1]);
        }
        if n - 1 < s.drop_first().len() {
            assert(s.drop_first()[n - 1] == s[n as int]);
        }
        lemme_tete_caracterisee(s.drop_first(), (n - 1) as nat);
    } else {
        if s.len() > 0 {
            assert(!est_blanc(s[0]));
        }
    }
}

/// Le nombre d'espaces de fin est caractérisé par sa propriété.
proof fn lemme_fin_caracterisee(s: Seq<char>, n: nat)
    requires
        n <= s.len(),
        forall|i: int| s.len() - n <= i < s.len() ==> est_blanc(#[trigger] s[i]),
        n < s.len() ==> !est_blanc(s[s.len() - n - 1]),
    ensures
        blancs_en_fin(s) == n,
    decreases n,
{
    if n > 0 {
        assert(est_blanc(s.last()));
        let d = s.drop_last();
        assert forall|i: int| d.len() - (n - 1) <= i < d.len() implies est_blanc(#[trigger] d[i]) by {
            assert(d[i] == s[i]);
        }
        if n - 1 < d.len() {
            assert(d[d.len() - (n - 1) - 1] == s[s.len() - n - 1]);
        }
        lemme_fin_caracterisee(d, (n - 1) as nat);
    } else {
        if s.len() > 0 {
            assert(!est_blanc(s.last()));
        }
    }
}

/// Suite des caractères de `s`.
pub fn caracteres(s: &str) -> (v: Vec<char>)
    ensures
        v@ == s@,
{
    let n = s.unicode_len();
    let mut v: Vec<char> = Vec::new();
    let mut i: usize = 0;
    while i < n
        invariant
            n == s@.len(),
            i <= n,
            v@ == s@.take(i as int),
        decreases n - i,
    {
        let c = s.get_char(i);
        v.push(c);
        i = i + 1;
        assert(v@ == s@.take(i as int));
    }
    assert(s@.take(n as int) == s@);
    v
}

/// Bornes de `v[debut..fin]` sans ses espaces de tête ni de fin.
pub fn bornes_rognees(v: &Vec<char>, debut: usize, fin: usize) -> (r: (usize, usize))
    requires
        debut <= fin <= v.len(),
    ensures
        debut <= r.0 <= r.1 <= fin,
        v@.subrange(r.0 as int, r.1 as int) == rogner(v@.subrange(debut as int, fin as int)),
{
    let ghost s = v@.subrange(debut as int, fin as int);
    let mut a = debut;
    while a < fin && caractere_blanc(v[a])
        invariant
            debut <= a <= fin <= v.len(),
            s == v@.subrange(debut as int, fin as int),
            forall|i: int| debut <= i < a ==> est_blanc(#[trigger] v@[i]),
        decreases fin - a,
    {
        a = a + 1;
    }
    let mut b = fin;
    while b > a && caractere_blanc(v[b - 1])
        invariant
            debut <= a <= b <= fin <= v.len(),
            forall|i: int| b <= i < fin ==> est_blanc(#[trigger] v@[i]),
        decreases b - a,
    {
        b = b - 1;
    }
    proof {
        let na = (a - debut) as nat;
        assert forall|i: int| 0 <= i < na implies est_blanc(#[trigger] s[i]) by {
            assert(s[i] == v@[debut + i]);
        }
        if na < s.len() {
            assert(s[na as int] == v@[a as int]);
        }
        lemme_tete_caracterisee(s, na);
        let t = s.skip(na as int);
        assert(t == v@.subrange(a as int, fin as int));
        let nb = (fin - b) as nat;
        assert forall|i: int| t.len() - nb <= i < t.len() implies est_blanc(#[trigger] t[i]) by {
            assert(t[i] == v@[a + i]);
        }
        if nb < t.len() {
            assert(t[t.len() - nb - 1] == v@[b - 1]);
        }
        lemme_fin_caracterisee(t, nb);
        assert(t.take(t.len() - nb) == v@.subrange(a as int, b as int));
    }
    (a, b)
}

/// Appelle `String::push` : ajoute `c` à la fin de `s`.
#[verifier::external_body]
pub(crate) fn pousser(s: &mut String, c: char)
    ensures
        final(s)@ == old(s)@.push(c),
{
    s.push(c)
}

/// Texte formé des caractères `v[debut..fin]`.
pub fn texte_de(v: &Vec<char>, debut: usize, fin: usize) -> (s: String)
    requires
        debut <= fin <= v.len(),
    ensures
        s@ == v@.subrange(debut as int, fin as int),
{
    let mut s = String::new();
    let mut i = debut;
    while i < fin
        invariant
            debut <= i <= fin <= v.len(),
            s@ == v@.subrange(debut as int, i as int),
        decreases fin - i,
    {
        pousser(&mut s, v[i]);
        i = i + 1;
        assert(s@ == v@.subrange(debut as int, i as int));
    }
    s
}

/// Indice de la première occurrence de `c` dans `s`, s'il y en a une.
pub open spec fn premier_index(s: Seq<char>, c: char) -> Option<int>
    decreases s.len(),
{
    if s.len() == 0 {
        None
    } else if s[0] == c {
        Some(0)
    } else {
        match premier_index(s.drop_first(), c) {
            Some(i) => Some(i + 1),
            None => None,
        }
    }
}

/// Indice décalé de `k`, s'il y en a un.
pub open spec fn decaler(o: Option<int>, k: int) -> Option<int> {
    match o {
        Some(j) => Some(j + k),
        None => None,
    }
}

proof fn lemme_premier_index(s: Seq<char>, c: char, k: int)
    requires
        0 <= k <= s.len(),
        forall|i: int| 0 <= i < k ==> s[i] != c,
    ensures
        premier_index(s, c) == (if k < s.len() && s[k] == c {
            Some(k)
        } else {
            decaler(premier_index(s.skip(k), c), k)
        }),
    decreases k,
{
    if k > 0 {
        assert forall|i: int| 0 <= i < k - 1 implies s.drop_first()[i] != c by {
            assert(s.drop_first()[i] == s[i + 1]);
        }
        lemme_premier_index(s.drop_first(), c, k - 1);
        assert(s.drop_first().skip(k - 1) == s.skip(k));
        if k < s.len() {
            assert(s.drop_first()[k - 1] == s[k]);
        }
        if k - 1 < s.drop_first().len() && s.drop_first()[k - 1] == c {
        } else {
            match premier_index(s.skip(k), c) {
                Some(j) => {},
                None => {},
            }
        }
    } else {
        assert(s.skip(0) == s);
        if s.len() > 0 && s[0] == c {
        } else {
            match premier_index(s, c) {
                Some(j) => {},
                None => {},
            }
        }
    }
}

proof fn lemme_premier_index_borne(s: Seq<char>, c: char)
    ensures
        premier_index(s, c) matches Some(j) ==> 0 <= j < s.len() && s[j] == c,
    decreases s.len(),
{
    if s.len() > 0 && s[0] != c {
        lemme_premier_index_borne(s.drop_first(), c);
    }
}

/// Première occurrence de `c` dans `v[debut..fin]`, en indice absolu.
pub fn chercher(v: &Vec<char>, debut: usize, fin: usize, c: char) -> (r: Option<usize>)
    requires
        debut <= fin <= v.len(),
    ensures
        match premier_index(v@.subrange(debut as int, fin as int), c) {
            Some(j) => r == Some((j + debut) as usize) && 0 <= j < fin - debut,
            None => r is None,
        },
        r matches Some(i) ==> debut <= i < fin,
{
    let ghost s = v@.subrange(debut as int, fin as int);
    proof {
        lemme_premier_index_borne(s, c);
    }
    let mut i = debut;
    while i < fin
        invariant
            debut <= i <= fin <= v.len(),
            s == v@.subrange(debut as int, fin as int),
            forall|j: int| debut <= j < i ==> v@[j] != c,
        decreases fin - i,
    {
        if v[i] == c {
            proof {
                assert forall|j: int| 0 <= j < i - debut implies s[j] != c by {
                    assert(s[j] == v@[debut + j]);
                }
                assert(s[i - debut] == v@[i as int]);
                lemme_premier_index(s, c, i - debut);
            }
            return Some(i);
        }
        i = i + 1;
    }
    proof {
        assert forall|j: int| 0 <= j < s.len() implies s[j] != c by {
            assert(s[j] == v@[debut + j]);
        }
        lemme_premier_index(s, c, s.len() as int);
        assert(s.skip(s.len() as int).len() == 0);
    }
    None
}

/// Saisie d'un opérateur, espaces de tête et de fin retirés.
#[derive(Debug, Clone, Copy, PartialEq, Eq)]
pub enum Saisie {
    /// Ligne vide.
    Vide,
    /// Un seul caractère.
    Touche(char),
    /// Toute autre saisie.
    Autre,
}

/// Saisie que représente la ligne `s`.
pub open spec fn saisie_de(s: Seq<char>) -> Saisie {
    let t = rogner(s);
    if t.len() == 0 {
        Saisie::Vide
    } else if t.len() == 1 {
        Saisie::Touche(t[0])
    } else {
        Saisie::Autre
    }
}

/// Lit une ligne saisie par l'opérateur.
pub fn lire_saisie(ligne: &str) -> (r: Saisie)
    ensures
        r == saisie_de(ligne@),
{
    let v = caracteres(ligne);
    let (a, b) = bornes_rognees(&v, 0, v.len());
    proof {
        assert(v@.subrange(0, v@.len() as int) == ligne@);
    }
    if a == b {
        Saisie::Vide
    } else if b - a == 1 {
        assert(v@.subrange(a as int, b as int)[0] == v@[a as int]);
        Saisie::Touche(v[a])
    } else {
        Saisie::Autre
    }
}

/// Vrai si `v[debut..fin]` est exactement le mot `mot`.
pub fn egal_mot(v: &Vec<char>, debut: usize, fin: usize, mot: &str) -> (r: bool)
    requires
        debut <= fin <= v.len(),
    ensures
        r == (v@.subrange(debut as int, fin as int) == mot@),
{
    let n = mot.unicode_len();
    if fin - debut != n {
        return false;
    }
    let mut i: usize = 0;
    while i < n
        invariant
            n == mot@.len(),
            fin - debut == n,
            debut <= fin <= v.len(),
            i <= n,
            forall|j: int| 0 <= j < i ==> v@[debut + j] == mot@[j],
        decreases n - i,
    {
        if v[debut + i] != mot.get_char(i) {
            assert(v@.subrange(debut as int, fin as int)[i as int] != mot@[i as int]);
            return false;
        }
        i = i + 1;
    }
    assert(v@.subrange(debut as int, fin as int) =~= mot@);
    true
}

/// Caractère du chiffre décimal `d`.
pub open spec fn chiffre(d: int) -> char {
    if d == 0 { '0' }
    else if d == 1 { '1' }
    else if d == 2 { '2' }
    else if d == 3 { '3' }
    else if d == 4 { '4' }
    else if d == 5 { '5' }
    else if d == 6 { '6' }
    else if d == 7 { '7' }
    else if d == 8 { '8' }
    else { '9' }
}

/// Chiffre décimal ASCII.
pub open spec fn est_chiffre(c: char) -> bool {
    '0' <= c && c <= '9'
}

/// Valeur d'un chiffre décimal ASCII.
pub open spec fn valeur_chiffre(c: char) -> int {
    (c as u32) - ('0' as u32)
}

/// Écriture décimale de `n`, sans zéro de tête.
pub open spec fn chiffres(n: nat) -> Seq<char>
    decreases n,
{
    if n < 10 {
        seq![chiffre(n as int)]
    } else {
        chiffres(n / 10).push(chiffre((n % 10) as int))
    }
}

/// Valeur d'une suite de chiffres décimaux.
pub open spec fn valeur_decimale(s: Seq<char>) -> int
    decreases s.len(),
{
    if s.len() == 0 {
        0
    } else {
        valeur_decimale(s.drop_last()) * 10 + valeur_chiffre(s.last())
    }
}

/// Tous les caractères de `s` sont des chiffres décimaux.
pub open spec fn que_des_chiffres(s: Seq<char>) -> bool {
    forall|i: int| 0 <= i < s.len() ==> est_chiffre(#[trigger] s[i])
}

/// Entier non signé 64 bits écrit dans `s`, comme l'accepte `str::parse::<u64>` :
/// un `+` facultatif puis au moins un chiffre, valeur représentable.
pub open spec fn analyse_u64(s: Seq<char>) -> Option<u64> {
    let t = if s.len() > 0 && s[0] == '+' { s.drop_first() } else { s };
    if t.len() > 0 && que_des_chiffres(t) && valeur_decimale(t) <= u64::MAX {
        Some(valeur_decimale(t) as u64)
    } else {
        None
    }
}

/// Écrit `n` en décimal à la fin de `sortie`.
pub fn ecrire_decimal(n: u64, sortie: &mut String)
    ensures
        final(sortie)@ == old(sortie)@ + chiffres(n as nat),
    decreases n,
{
    if n >= 10 {
        ecrire_decimal(n / 10, sortie);
    }
    let d = n % 10;
    let c = if d == 0 { '0' }
        else if d == 1 { '1' }
        else if d == 2 { '2' }
        else if d == 3 { '3' }
        else if d == 4 { '4' }
        else if d == 5 { '5' }
        else if d == 6 { '6' }
        else if d == 7 { '7' }
        else if d == 8 { '8' }
        else { '9' };
    pousser(sortie, c);
}

/// Valeur en centièmes écrite avec deux décimales (`-21.05` pour -2105).
pub open spec fn texte_centiemes(c: int) -> Seq<char> {
    let a = if c < 0 { -c } else { c };
    (if c < 0 { seq!['-'] } else { Seq::empty() }) + chiffres((a / 100) as nat)
        + seq!['.', chiffre((a % 100) / 10), chiffre(a % 10)]
}

/// Écrit la valeur en centièmes `c` avec deux décimales à la fin de `sortie`.
pub fn ecrire_centiemes(c: i32, sortie: &mut String)
    ensures
        final(sortie)@ == old(sortie)@ + texte_centiemes(c as int),
{
    let a: u64 = if c < 0 { (-(c as i64)) as u64 } else { c as u64 };
    if c < 0 {
        pousser(sortie, '-');
    }
    ecrire_decimal(a / 100, sortie);
    pousser(sortie, '.');
    ecrire_decimal((a % 100) / 10, sortie);
    ecrire_decimal(a % 10, sortie);
    assert(final(sortie)@ =~= old(sortie)@ + texte_centiemes(c as int));
}

/// Chiffre hexadécimal majuscule de `d` (0 à 15).
pub open spec fn chiffre_hex_maj(d: int) -> char {
    if d < 10 {
        ('0' as int + d) as char
    } else {
        ('A' as int + d - 10) as char
    }
}

/// Octet écrit sur deux chiffres hexadécimaux majuscules (`{:02X}`).
pub open spec fn hex2_maj(o: u8) -> Seq<char> {
    seq![chiffre_hex_maj(o as int / 16), chiffre_hex_maj(o as int % 16)]
}

fn car_hex_maj(d: u8) -> (c: char)
    requires
        d < 16,
    ensures
        c == chiffre_hex_maj(d as int),
{
    if d < 10 {
        (48u8 + d) as char
    } else {
        (55u8 + d) as char
    }
}

/// Écrit l'octet `o` sur deux chiffres hexadécimaux majuscules à la fin de `s`.
pub fn pousser_hex2(s: &mut String, o: u8)
    ensures
        final(s)@ == old(s)@ + hex2_maj(o),
{
    pousser(s, car_hex_maj(o / 16));
    pousser(s, car_hex_maj(o % 16));
    assert(final(s)@ =~= old(s)@ + hex2_maj(o));
}

/// Entier écrit dans `v[debut..fin]` au sens de [`analyse_u64`].
pub fn lire_u64(v: &Vec<char>, debut: usize, fin: usize) -> (r: Option<u64>)
    requires
        debut <= fin <= v.len(),
    ensures
        r == analyse_u64(v@.subrange(debut as int, fin as int)),
{
    let ghost s = v@.subrange(debut as int, fin as int);
    let mut a = debut;
    if a < fin && v[a] == '+' {
        a = a + 1;
    }
    let ghost t = v@.subrange(a as int, fin as int);
    assert(t == (if s.len() > 0 && s[0] == '+' { s.drop_first() } else { s }));
    if a == fin {
        return None;
    }
    let mut valeur: u64 = 0;
    let mut deborde = false;
    let mut i = a;
    while i < fin
        invariant
            debut <= a <= i <= fin <= v.len(),
            a < fin,
            t == v@.subrange(a as int, fin as int),
            s == v@.subrange(debut as int, fin as int),
            t == (if s.len() > 0 && s[0] == '+' { s.drop_first() } else { s }),
            que_des_chiffres(v@.subrange(a as int, i as int)),
            deborde ==> valeur_decimale(v@.subrange(a as int, i as int)) > u64::MAX,
            !deborde ==> valeur == valeur_decimale(v@.subrange(a as int, i as int)),
            valeur_decimale(v@.subrange(a as int, i as int)) >= 0,
        decreases fin - i,
    {
        let c = v[i];
        let ghost p = v@.subrange(a as int, i as int);
        let ghost q = v@.subrange(a as int, i + 1);
        assert(q.drop_last() == p);
        if !('0' <= c && c <= '9') {
            assert(t[i - a] == c);
            return None;
        }
        let d = (c as u32 - '0' as u32) as u64;
        assert(valeur_decimale(q) == valeur_decimale(p) * 10 + d);
        if !deborde {
            if valeur > (u64::MAX - d) / 10 {
                deborde = true;
            } else {
                valeur = valeur * 10 + d;
            }
        }
        i = i + 1;
        assert(que_des_chiffres(v@.subrange(a as int, i as int))) by {
            assert forall|j: int| 0 <= j < q.len() implies est_chiffre(#[trigger] q[j]) by {
                if j < p.len() {
                    assert(q[j] == p[j]);
                }
            }
        }
    }
    if deborde {
        None
    } else {
        Some(valeur)
    }
}

proof fn lemme_chiffre(d: int)
    requires
        0 <= d < 10,
    ensures
        est_chiffre(chiffre(d)),
        valeur_chiffre(chiffre(d)) == d,
{
    assert('0' as u32 == 48);
    assert('9' as u32 == 57);
}

proof fn lemme_chiffres(n: nat)
    ensures
        chiffres(n).len() > 0,
        que_des_chiffres(chiffres(n)),
        valeur_decimale(chiffres(n)) == n,
    decreases n,
{
    lemme_chiffre((n % 10) as int);
    if n >= 10 {
        lemme_chiffres(n / 10);
        let s = chiffres(n);
        assert(s.drop_last() == chiffres(n / 10));
        assert forall|i: int| 0 <= i < s.len() implies est_chiffre(#[trigger] s[i]) by {
            if i < s.len() - 1 {
                assert(s[i] == chiffres(n / 10)[i]);
            }
        }
        assert(valeur_decimale(s) == valeur_decimale(chiffres(n / 10)) * 10 + (n % 10));
    } else {
        let s = chiffres(n);
        assert(s.drop_last() =~= Seq::<char>::empty());
        assert(valeur_decimale(s.drop_last()) == 0);
    }
}

/// Relire l'écriture décimale d'un entier redonne cet entier.
pub proof fn loi_decimal_relu(n: u64)
    ensures
        analyse_u64(chiffres(n as nat)) == Some(n),
        rogner(chiffres(n as nat)) == chiffres(n as nat),
{
    lemme_chiffres(n as nat);
    let s = chiffres(n as nat);
    assert(est_chiffre(s[0]));
    assert forall|i: int| 0 <= i < 0 implies est_blanc(#[trigger] s[i]) by {}
    assert(est_chiffre(s[0]));
    lemme_tete_caracterisee(s, 0);
    assert(s.skip(0) == s);
    assert(est_chiffre(s[s.len() - 1]));
    lemme_fin_caracterisee(s, 0);
    assert(s.take(s.len() as int) == s);
}

/// Lit un entier non signé entouré d'espaces éventuels.
///
/// Erreur `CalibrationEchouee("Valeur u64 invalide: '<valeur rognée>'")` si le
/// texte rogné n'est pas un entier `u64`.
pub fn parse_u64(val: &str) -> (r: Result<u64>)
    ensures
        match analyse_u64(rogner(val@)) {
            Some(n) => r matches Ok(m) && m == n,
            None => r matches Err(ErreursAirHaum::CalibrationEchouee(msg))
                && msg@ == "Valeur u64 invalide: '"@ + rogner(val@) + "'"@,
        },
{
    let v = caracteres(val);
    let (a, b) = bornes_rognees(&v, 0, v.len());
    assert(v@.subrange(0, v@.len() as int) == v@);
    match lire_u64(&v, a, b) {
        Some(n) => Ok(n),
        None => {
            let t = texte_de(&v, a, b);
            let msg = String::from_str("Valeur u64 invalide: '").concat(t.as_str()).concat("'");
            Err(ErreursAirHaum::CalibrationEchouee(msg))
        },
    }
}

/// Entier non signé entouré d'espaces éventuels, au sens de [`analyse_u64`].
pub fn entier_u64(val: &str) -> (r: Option<u64>)
    ensures
        r == analyse_u64(rogner(val@)),
{
    let v = caracteres(val);
    let (a, b) = bornes_rognees(&v, 0, v.len());
    assert(v@.subrange(0, v@.len() as int) == v@);
    lire_u64(&v, a, b)
}

/// Valeur d'un champ obligatoire ; erreur `CalibrationEchouee("Champ '<nom>' manquant")` s'il est absent.
pub fn champ_requis<T>(opt: Option<T>, nom: &str) -> (r: Result<T>)
    ensures
        match opt {
            Some(x) => r matches Ok(y) && y == x,
            None => r matches Err(ErreursAirHaum::CalibrationEchouee(msg))
                && msg@ == "Champ '"@ + nom@ + "' manquant"@,
        },
{
    match opt {
        Some(x) => Ok(x),
        None => Err(ErreursAirHaum::CalibrationEchouee(
            String::from_str("Champ '").concat(nom).concat("' manquant"),
        )),
    }
}

/// Découpage de `s` en lignes terminées par `\n` et reste de la ligne en cours.
pub open spec fn decoupe(s: Seq<char>) -> (Seq<Seq<char>>, Seq<char>)
    decreases s.len(),
{
    if s.len() == 0 {
        (Seq::empty(), Seq::empty())
    } else {
        let (ls, cur) = decoupe(s.drop_last());
        if s.last() == '\n' {
            (ls.push(cur), Seq::empty())
        } else {
            (ls, cur.push(s.last()))
        }
    }
}

/// Lignes de `s` comme les rend `str::lines` (séparateur `\n`, dernière ligne
/// sans terminaison incluse si elle n'est pas vide ; un `\r` final reste dans
/// la ligne, ce que le rognage efface ensuite).
pub open spec fn lignes(s: Seq<char>) -> Seq<Seq<char>> {
    let (ls, cur) = decoupe(s);
    if cur.len() > 0 {
        ls.push(cur)
    } else {
        ls
    }
}

/// Prolonger un texte par un fragment sans saut de ligne prolonge la ligne en cours.
pub proof fn lemme_decoupe_sans_saut(a: Seq<char>, b: Seq<char>)
    requires
        forall|i: int| 0 <= i < b.len() ==> b[i] != '\n',
    ensures
        decoupe(a + b) == (decoupe(a).0, decoupe(a).1 + b),
    decreases b.len(),
{
    if b.len() == 0 {
        assert(a + b == a);
        assert(decoupe(a).1 + b == decoupe(a).1);
    } else {
        let b2 = b.drop_last();
        lemme_decoupe_sans_saut(a, b2);
        assert((a + b).drop_last() == a + b2);
        assert((a + b).last() == b.last());
        assert(decoupe(a).1 + b2 + seq![b.last()] == decoupe(a).1 + b);
    }
}

/// Un saut de ligne clôt la ligne en cours.
pub proof fn lemme_decoupe_saut(a: Seq<char>)
    ensures
        decoupe(a.push('\n')) == (decoupe(a).0.push(decoupe(a).1), Seq::<char>::empty()),
{
    assert(a.push('\n').drop_last() == a);
}

/// Indices de début et de fin des lignes de `v`, dans l'ordre.
pub fn bornes_lignes(v: &Vec<char>) -> (r: Vec<(usize, usize)>)
    ensures
        r.len() == lignes(v@).len(),
        forall|k: int| 0 <= k < r.len() ==> (#[trigger] r[k]).0 <= r[k].1 <= v.len(),
        forall|k: int| 0 <= k < r.len() ==> v@.subrange(r[k].0 as int, r[k].1 as int) == #[trigger] lignes(v@)[k],
{
    let mut r: Vec<(usize, usize)> = Vec::new();
    let mut debut: usize = 0;
    let mut i: usize = 0;
    let n = v.len();
    while i < n
        invariant
            n == v.len(),
            debut <= i <= n,
            forall|k: int| 0 <= k < r.len() ==> (#[trigger] r[k]).0 <= r[k].1 <= v.len(),
            decoupe(v@.take(i as int)).0.len() == r.len(),
            forall|k: int| 0 <= k < r.len() ==> v@.subrange(r[k].0 as int, r[k].1 as int)
                == #[trigger] decoupe(v@.take(i as int)).0[k],
            decoupe(v@.take(i as int)).1 == v@.subrange(debut as int, i as int),
        decreases n - i,
    {
        let ghost avant = v@.take(i as int);
        let ghost r0 = r@;
        assert(v@.take(i + 1).drop_last() == avant);
        if v[i] == '\n' {
            r.push((debut, i));
            debut = i + 1;
            proof {
                assert forall|k: int| 0 <= k < r.len() implies v@.subrange(r[k].0 as int, r[k].1 as int)
                    == #[trigger] decoupe(v@.take(i + 1)).0[k] by {
                    if k < r0.len() {
                        assert(r[k] == r0[k]);
                    }
                }
                assert(v@.subrange(debut as int, i + 1) =~= Seq::<char>::empty());
            }
        } else {
            assert(v@.subrange(debut as int, i + 1) == v@.subrange(debut as int, i as int).push(v@[i as int]));
        }
        i = i + 1;
    }
    assert(v@.take(n as int) == v@);
    if debut < n {
        r.push((debut, n));
    }
    r
}

/// Paire `clé = valeur` d'une ligne de configuration : ligne rognée non vide,
/// ne commençant pas par `#`, coupée au premier `=` ; la clé est rognée, la
/// valeur est rendue telle qu'elle suit le `=`.
pub open spec fn paire_cle_valeur(ligne: Seq<char>) -> Option<(Seq<char>, Seq<char>)> {
    let t = rogner(ligne);
    if t.len() == 0 || t[0] == '#' {
        None
    } else {
        match premier_index(t, '=') {
            Some(i) => Some((rogner(t.take(i)), t.skip(i + 1))),
            None => None,
        }
    }
}

/// Bornes de la clé (rognée) et de la valeur de la ligne `v[debut..fin]`,
/// au sens de [`paire_cle_valeur`].
pub fn analyser_ligne(v: &Vec<char>, debut: usize, fin: usize) -> (r: Option<((usize, usize), (usize, usize))>)
    requires
        debut <= fin <= v.len(),
    ensures
        match paire_cle_valeur(v@.subrange(debut as int, fin as int)) {
            None => r is None,
            Some((cle, valeur)) => r matches Some((k, w)) && k.0 <= k.1 <= v.len() && w.0 <= w.1 <= v.len()
                && v@.subrange(k.0 as int, k.1 as int) == cle
                && v@.subrange(w.0 as int, w.1 as int) == valeur,
        },
{
    let (a, b) = bornes_rognees(v, debut, fin);
    if a == b || v[a] == '#' {
        return None;
    }
    let ghost t = v@.subrange(a as int, b as int);
    assert(t == rogner(v@.subrange(debut as int, fin as int)));
    assert(t[0] == v@[a as int]);
    match chercher(v, a, b, '=') {
        None => {
            assert(premier_index(t, '=') is None);
            None
        },
        Some(e) => {
            let ghost j = e - a;
            assert(premier_index(t, '=') == Some(j));
            let (ka, kb) = bornes_rognees(v, a, e);
            assert(t.take(j) == v@.subrange(a as int, e as int));
            assert(t.skip(j + 1) == v@.subrange(e + 1, b as int));
            Some(((ka, kb), (e + 1, b)))
        },
    }
}

/// Rogner un texte fait d'espaces, d'un cœur aux extrémités non blanches,
/// puis d'espaces, rend ce cœur.
pub proof fn lemme_rogner(s: Seq<char>, a: int, b: int)
    requires
        0 <= a < b <= s.len(),
        forall|i: int| 0 <= i < a ==> est_blanc(#[trigger] s[i]),
        forall|i: int| b <= i < s.len() ==> est_blanc(#[trigger] s[i]),
        !est_blanc(s[a]),
        !est_blanc(s[b - 1]),
    ensures
        rogner(s) == s.subrange(a, b),
{
    lemme_tete_caracterisee(s, a as nat);
    let t = s.skip(a);
    assert forall|i: int| t.len() - (s.len() - b) <= i < t.len() implies est_blanc(#[trigger] t[i]) by {
        assert(t[i] == s[a + i]);
    }
    assert(t[t.len() - (s.len() - b) - 1] == s[b - 1]);
    lemme_fin_caracterisee(t, (s.len() - b) as nat);
    assert(t.take(t.len() - (s.len() - b)) == s.subrange(a, b));
}

/// La première occurrence de `c` dans `a + b`, quand `a` n'en contient pas,
/// est celle de `b` décalée de la longueur de `a`.
pub proof fn lemme_premier_index_concat(a: Seq<char>, b: Seq<char>, c: char)
    requires
        forall|i: int| 0 <= i < a.len() ==> a[i] != c,
    ensures
        premier_index(a + b, c) == decaler(premier_index(b, c), a.len() as int),
{
    let s = a + b;
    assert forall|i: int| 0 <= i < a.len() implies s[i] != c by {
        assert(s[i] == a[i]);
    }
    lemme_premier_index(s, c, a.len() as int);
    assert(s.skip(a.len() as int) == b);
    if a.len() < s.len() && s[a.len() as int] == c {
        assert(b[0] == c);
        assert(premier_index(b, c) == Some(0int));
    }
}

/// Une ligne de commentaire (`#` en tête, fin non blanche) ne porte aucune paire.
pub proof fn lemme_ligne_commentaire(c: Seq<char>)
    requires
        c.len() > 0,
        c[0] == '#',
        !est_blanc(c.last()),
    ensures
        paire_cle_valeur(c) is None,
        forall|i: int| 0 <= i < c.len() ==> c[i] != '\n' <== forall|i: int| 0 <= i < c.len() ==> !est_blanc(#[trigger] c[i]),
{
    assert forall|i: int| 0 <= i < 0 implies est_blanc(#[trigger] c[i]) by {}
    assert forall|i: int| c.len() <= i < c.len() implies est_blanc(#[trigger] c[i]) by {}
    lemme_rogner(c, 0, c.len() as int);
    assert(c.subrange(0, c.len() as int) == c);
}

/// Lettre minuscule ASCII ou souligné.
pub open spec fn car_identifiant(c: char) -> bool {
    ('a' <= c && c <= 'z') || c == '_'
}

/// Une ligne `clé = entier` se lit comme la paire (clé, ` entier`) et la
/// valeur rognée se relit comme l'entier.
pub proof fn lemme_ligne_entier(cle: Seq<char>, n: u64)
    requires
        cle.len() > 0,
        forall|i: int| 0 <= i < cle.len() ==> car_identifiant(#[trigger] cle[i]),
    ensures
        paire_cle_valeur(cle + " = "@ + chiffres(n as nat)) == Some((cle, " "@ + chiffres(n as nat))),
        analyse_u64(rogner(" "@ + chiffres(n as nat))) == Some(n),
        forall|i: int| 0 <= i < (cle + " = "@ + chiffres(n as nat)).len() ==> (cle + " = "@ + chiffres(n as nat))[i] != '\n',
{
    reveal_strlit(" = ");
    reveal_strlit(" ");
    let d = chiffres(n as nat);
    lemme_chiffres(n as nat);
    loi_decimal_relu(n);
    let l = cle + " = "@ + d;
    assert forall|i: int| 0 <= i < l.len() implies l[i] != '\n' by {
        if i < cle.len() {
            assert(car_identifiant(cle[i]));
        } else if i >= cle.len() + 3 {
            assert(l[i] == d[i - cle.len() - 3]);
            assert(est_chiffre(d[i - cle.len() - 3]));
        }
    }
    // La ligne est déjà rognée.
    assert(car_identifiant(cle[0]));
    assert(l[0] == cle[0]);
    assert(l.last() == d.last());
    assert(est_chiffre(d[d.len() - 1]));
    assert forall|i: int| 0 <= i < 0 implies est_blanc(#[trigger] l[i]) by {}
    assert forall|i: int| l.len() <= i < l.len() implies est_blanc(#[trigger] l[i]) by {}
    lemme_rogner(l, 0, l.len() as int);
    assert(l.subrange(0, l.len() as int) == l);
    // Premier `=` juste après la clé et l'espace.
    assert forall|i: int| 0 <= i < cle.len() implies cle[i] != '=' by {
        assert(car_identifiant(cle[i]));
    }
    let reste = " = "@ + d;
    assert(l == cle + reste);
    lemme_premier_index_concat(cle, reste, '=');
    assert(reste[0] == ' ');
    assert(reste.drop_first()[0] == '=');
    assert(premier_index(reste.drop_first(), '=') == Some(0int));
    assert(premier_index(reste, '=') == Some(1int));
    let i: int = cle.len() as int + 1;
    // La clé rognée.
    let avant = l.take(i);
    assert(avant == cle.push(' '));
    assert(car_identifiant(cle[cle.len() - 1]));
    assert forall|j: int| 0 <= j < 0 implies est_blanc(#[trigger] avant[j]) by {}
    assert forall|j: int| cle.len() <= j < avant.len() implies est_blanc(#[trigger] avant[j]) by {
        assert(avant[j] == ' ');
    }
    lemme_rogner(avant, 0, cle.len() as int);
    assert(avant.subrange(0, cle.len() as int) == cle);
    // La valeur et sa version rognée.
    let valeur = l.skip(i + 1);
    assert(valeur == " "@ + d);
    assert(valeur[0] == ' ');
    assert(valeur.last() == d.last());
    assert forall|j: int| 0 <= j < 1 implies est_blanc(#[trigger] valeur[j]) by {}
    assert forall|j: int| valeur.len() <= j < valeur.len() implies est_blanc(#[trigger] valeur[j]) by {}
    assert(valeur[1] == d[0]);
    assert(est_chiffre(d[0]));
    lemme_rogner(valeur, 1, valeur.len() as int);
    assert(valeur.subrange(1, valeur.len() as int) == d);
}

/// Paires `clé = valeur` des lignes `ls`, dans l'ordre (lignes vides,
/// commentaires et lignes sans `=` écartés).
pub open spec fn paires_de_lignes(ls: Seq<Seq<char>>) -> Seq<(Seq<char>, Seq<char>)>
    decreases ls.len(),
{
    if ls.len() == 0 {
        Seq::empty()
    } else {
        let p = paires_de_lignes(ls.drop_last());
        match paire_cle_valeur(ls.last()) {
            Some(kv) => p.push(kv),
            None => p,
        }
    }
}

/// Paires `clé = valeur` d'un texte de configuration, dans l'ordre des
/// lignes : clé rognée, valeur telle qu'elle suit le premier `=`.
pub fn paires_toml(contenu: &str) -> (r: Vec<(String, String)>)
    ensures
        r.len() == paires_de_lignes(lignes(contenu@)).len(),
        forall|i: int| 0 <= i < r.len() ==> ((#[trigger] r[i]).0@, r[i].1@) == paires_de_lignes(lignes(contenu@))[i],
{
    let v = caracteres(contenu);
    let lb = bornes_lignes(&v);
    let ghost ls = lignes(v@);
    let mut r: Vec<(String, String)> = Vec::new();
    let mut k: usize = 0;
    while k < lb.len()
        invariant
            v@ == contenu@,
            ls == lignes(v@),
            lb.len() == ls.len(),
            forall|j: int| 0 <= j < lb.len() ==> (#[trigger] lb[j]).0 <= lb[j].1 <= v.len(),
            forall|j: int| 0 <= j < lb.len() ==> v@.subrange(lb[j].0 as int, lb[j].1 as int) == #[trigger] ls[j],
            k <= lb.len(),
            r.len() == paires_de_lignes(ls.take(k as int)).len(),
            forall|i: int| 0 <= i < r.len() ==> ((#[trigger] r[i]).0@, r[i].1@) == paires_de_lignes(ls.take(k as int))[i],
        decreases lb.len() - k,
    {
        let (d, f) = lb[k];
        assert(ls.take(k + 1).drop_last() == ls.take(k as int));
        assert(ls.take(k + 1).last() == ls[k as int]);
        let ghost r0 = r@;
        match analyser_ligne(&v, d, f) {
            None => {},
            Some((cle, valeur)) => {
                let (ka, kb) = cle;
                let (wa, wb) = valeur;
                r.push((texte_de(&v, ka, kb), texte_de(&v, wa, wb)));
                assert forall|i: int| 0 <= i < r.len() implies ((#[trigger] r[i]).0@, r[i].1@)
                    == paires_de_lignes(ls.take(k + 1))[i] by {
                    if i < r0.len() {
                        assert(r[i] == r0[i]);
                    }
                }
            },
        }
        k = k + 1;
    }
    assert(ls.take(lb.len() as int) == ls);
    r
}

} // verus!

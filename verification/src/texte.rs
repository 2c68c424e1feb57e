//! Outils de texte partagés par les règles : comparaison exacte, classes de
//! caractères ASCII, rognage des blancs, troncature à N caractères.

use vstd::prelude::*;
use vstd::string::StrSliceExecFns;

verus! {

/// Chiffre décimal ASCII (`0`–`9`).
pub open spec fn est_chiffre(c: char) -> bool {
    '0' <= c && c <= '9'
}

/// Lettre ASCII, minuscule ou majuscule.
pub open spec fn est_lettre_ascii(c: char) -> bool {
    ('a' <= c && c <= 'z') || ('A' <= c && c <= 'Z')
}

/// Lettre ou chiffre ASCII.
pub open spec fn est_alnum_ascii(c: char) -> bool {
    est_lettre_ascii(c) || est_chiffre(c)
}

/// Tous les caractères de `s` sont des chiffres ASCII.
pub open spec fn que_des_chiffres(s: Seq<char>) -> bool {
    forall|i: int| 0 <= i < s.len() ==> #[trigger] est_chiffre(s[i])
}

/// `c` apparaît dans `s`.
pub open spec fn contient(s: Seq<char>, c: char) -> bool {
    exists|i: int| 0 <= i < s.len() && s[i] == c
}

/// Les `n` premiers caractères de `s` (tout `s` s'il est plus court).
pub open spec fn debut(s: Seq<char>, n: nat) -> Seq<char> {
    if n <= s.len() {
        s.take(n as int)
    } else {
        s
    }
}

/// Nombre d'octets de `c` une fois encodé en UTF-8.
pub open spec fn largeur_utf8(c: char) -> nat {
    if (c as u32) < 0x80 {
        1
    } else if (c as u32) < 0x800 {
        2
    } else if (c as u32) < 0x10000 {
        3
    } else {
        4
    }
}

/// Nombre d'octets de `s` une fois encodé en UTF-8 (ce que renvoie `str::len`).
pub open spec fn octets_utf8(s: Seq<char>) -> nat
    decreases s.len(),
{
    if s.len() == 0 {
        0
    } else {
        octets_utf8(s.drop_last()) + largeur_utf8(s.last())
    }
}

/// Un texte fait de chiffres ASCII compte un octet par caractère.
pub proof fn octets_des_chiffres(s: Seq<char>)
    requires
        que_des_chiffres(s),
    ensures
        octets_utf8(s) == s.len(),
    decreases s.len(),
{
    if s.len() > 0 {
        assert(est_chiffre(s[s.len() - 1]));
        octets_des_chiffres(s.drop_last());
    }
}

/// Un blanc Unicode (propriété `White_Space`) : tabulation, saut de ligne,
/// tabulation verticale, saut de page, retour chariot, espace, NEL, espace
/// insécable, espace ogam, les espaces U+2000 à U+200A, séparateurs de ligne
/// et de paragraphe, espace fine insécable, espace moyenne mathématique,
/// espace idéographique.
pub open spec fn est_blanc(c: char) -> bool {
    let n = c as u32;
    ||| 0x09 <= n <= 0x0D
    ||| n == 0x20
    ||| n == 0x85
    ||| n == 0xA0
    ||| n == 0x1680
    ||| 0x2000 <= n <= 0x200A
    ||| n == 0x2028
    ||| n == 0x2029
    ||| n == 0x202F
    ||| n == 0x205F
    ||| n == 0x3000
}

/// `s` privé de ses blancs de tête.
pub open spec fn sans_blancs_de_tete(s: Seq<char>) -> Seq<char>
    decreases s.len(),
{
    if s.len() > 0 && est_blanc(s[0]) {
        sans_blancs_de_tete(s.drop_first())
    } else {
        s
    }
}

/// `s` privé de ses blancs de queue.
pub open spec fn sans_blancs_de_queue(s: Seq<char>) -> Seq<char>
    decreases s.len(),
{
    if s.len() > 0 && est_blanc(s.last()) {
        sans_blancs_de_queue(s.drop_last())
    } else {
        s
    }
}

/// Ce que le rognage des blancs Unicode (début et fin) laisse de `s`.
pub open spec fn rogne(s: Seq<char>) -> Seq<char> {
    sans_blancs_de_queue(sans_blancs_de_tete(s))
}

/// Le texte facultatif d'un formulaire : rogné, ignoré s'il est vide,
/// tronqué à `max` caractères.
pub open spec fn texte_facultatif(t: Option<Seq<char>>, max: nat) -> Option<Seq<char>> {
    match t {
        Some(s) => if rogne(s).len() == 0 {
            None
        } else {
            Some(debut(rogne(s), max))
        },
        None => None,
    }
}

/// Un texte facultatif nettoyé : rogné, écarté s'il ne reste rien.
pub open spec fn nettoye(t: Option<Seq<char>>) -> Option<Seq<char>> {
    match t {
        Some(s) => if rogne(s).len() == 0 {
            None
        } else {
            Some(rogne(s))
        },
        None => None,
    }
}

/// La vue d'un texte facultatif possédé.
pub open spec fn vue_possedee(t: Option<String>) -> Option<Seq<char>> {
    match t {
        Some(s) => Some(s@),
        None => None,
    }
}

/// La vue d'un texte facultatif.
pub open spec fn vue_facultative(t: Option<&str>) -> Option<Seq<char>> {
    match t {
        Some(s) => Some(s@),
        None => None,
    }
}

/// Le caractère est-il un blanc Unicode ?
pub fn est_blanc_exec(c: char) -> (r: bool)
    ensures
        r == est_blanc(c),
{
    let n = c as u32;
    (0x09 <= n && n <= 0x0D) || n == 0x20 || n == 0x85 || n == 0xA0 || n == 0x1680
        || (0x2000 <= n && n <= 0x200A) || n == 0x2028 || n == 0x2029 || n == 0x202F || n == 0x205F
        || n == 0x3000
}

/// La tranche de `s` privée de ses blancs Unicode de tête et de queue
/// (ce que fait `str::trim`).
pub fn rogner(s: &str) -> (r: &str)
    ensures
        r@ == rogne(s@),
{
    let v = caracteres(s);
    let n = v.len();
    let mut debut: usize = 0;
    assert(s@.subrange(0, n as int) =~= s@);
    while debut < n && est_blanc_exec(v[debut])
        invariant
            v@ == s@,
            n == v@.len(),
            debut <= n,
            sans_blancs_de_tete(s@) == sans_blancs_de_tete(s@.subrange(debut as int, n as int)),
        decreases n - debut,
    {
        let ghost reste = s@.subrange(debut as int, n as int);
        assert(reste.drop_first() =~= s@.subrange(debut + 1, n as int));
        debut = debut + 1;
    }
    let ghost milieu = s@.subrange(debut as int, n as int);
    assert(sans_blancs_de_tete(milieu) == milieu);
    let mut fin: usize = n;
    while fin > debut && est_blanc_exec(v[fin - 1])
        invariant
            v@ == s@,
            n == v@.len(),
            debut <= fin <= n,
            milieu == s@.subrange(debut as int, n as int),
            sans_blancs_de_queue(milieu) == sans_blancs_de_queue(s@.subrange(debut as int, fin as int)),
        decreases fin - debut,
    {
        let ghost partie = s@.subrange(debut as int, fin as int);
        assert(partie.drop_last() =~= s@.subrange(debut as int, fin - 1));
        assert(partie.last() == v@[fin - 1]);
        fin = fin - 1;
    }
    let ghost garde = s@.subrange(debut as int, fin as int);
    assert(sans_blancs_de_queue(garde) == garde) by {
        if garde.len() > 0 {
            assert(garde.last() == v@[fin - 1]);
        }
    }
    s.substring_char(debut, fin)
}

/// `String::push` de la bibliothèque standard : ajoute un caractère en fin
/// de chaîne.
pub assume_specification[ String::push ](s: &mut String, ch: char)
    ensures
        final(s)@ == old(s)@.push(ch),
;

pub fn est_chiffre_exec(c: char) -> (r: bool)
    ensures
        r == est_chiffre(c),
{
    '0' <= c && c <= '9'
}

pub fn est_alnum_exec(c: char) -> (r: bool)
    ensures
        r == est_alnum_ascii(c),
{
    ('a' <= c && c <= 'z') || ('A' <= c && c <= 'Z') || ('0' <= c && c <= '9')
}

/// Les caractères de `s`, dans l'ordre.
pub fn caracteres(s: &str) -> (v: Vec<char>)
    ensures
        v@ == s@,
{
    let n = s.unicode_len();
    let mut v: Vec<char> = Vec::new();
    let mut i: usize = 0;
    while i < n
        invariant
            n == s@.len(),
            i <= n,
            v@ == s@.take(i as int),
        decreases n - i,
    {
        let c = s.get_char(i);
        v.push(c);
        i = i + 1;
        assert(v@ =~= s@.take(i as int));
    }
    assert(v@ =~= s@);
    v
}

/// Nombre d'octets UTF-8 de `v`, ou toute valeur au-delà de `plafond` dès
/// que le compte le dépasse.
pub fn octets_plafonnes(v: &Vec<char>, plafond: usize) -> (r: usize)
    requires
        plafond < usize::MAX - 4,
    ensures
        r <= plafond <==> octets_utf8(v@) <= plafond,
        r <= plafond ==> r == octets_utf8(v@),
{
    let mut total: usize = 0;
    let mut i: usize = 0;
    while i < v.len()
        invariant
            plafond < usize::MAX - 4,
            i <= v@.len(),
            total <= plafond,
            total == octets_utf8(v@.take(i as int)),
        decreases v.len() - i,
    {
        let c = v[i];
        let code = c as u32;
        let largeur: usize = if code < 0x80 {
            1
        } else if code < 0x800 {
            2
        } else if code < 0x10000 {
            3
        } else {
            4
        };
        assert(v@.take(i + 1).drop_last() =~= v@.take(i as int));
        total = total + largeur;
        i = i + 1;
        if total > plafond {
            proof {
                octets_croissants(v@, i as int);
            }
            return total;
        }
    }
    assert(v@.take(i as int) =~= v@);
    total
}

/// Le nombre d'octets d'un préfixe ne dépasse pas celui du texte entier.
pub proof fn octets_croissants(s: Seq<char>, i: int)
    requires
        0 <= i <= s.len(),
    ensures
        octets_utf8(s.take(i)) <= octets_utf8(s),
    decreases s.len() - i,
{
    if i < s.len() {
        octets_croissants(s, i + 1);
        assert(s.take(i + 1).drop_last() =~= s.take(i));
    } else {
        assert(s.take(i) =~= s);
    }
}

/// Égalité exacte de deux textes (caractère par caractère).
pub fn meme_texte(a: &str, b: &str) -> (r: bool)
    ensures
        r == (a@ == b@),
{
    let va = caracteres(a);
    let vb = caracteres(b);
    if va.len() != vb.len() {
        return false;
    }
    let mut i: usize = 0;
    while i < va.len()
        invariant
            va@ == a@,
            vb@ == b@,
            va@.len() == vb@.len(),
            i <= va@.len(),
            forall|j: int| 0 <= j < i ==> va@[j] == vb@[j],
        decreases va.len() - i,
    {
        if va[i] != vb[i] {
            return false;
        }
        i = i + 1;
    }
    assert(a@ =~= b@);
    true
}

/// `c` apparaît-il dans `v` ?
pub fn contient_exec(v: &Vec<char>, c: char) -> (r: bool)
    ensures
        r == contient(v@, c),
{
    let mut i: usize = 0;
    while i < v.len()
        invariant
            i <= v@.len(),
            forall|j: int| 0 <= j < i ==> v@[j] != c,
        decreases v.len() - i,
    {
        if v[i] == c {
            return true;
        }
        i = i + 1;
    }
    false
}

/// Tous les caractères de `s` sont-ils des chiffres ASCII ?
pub fn que_des_chiffres_exec(s: &str) -> (r: bool)
    ensures
        r == que_des_chiffres(s@),
{
    let v = caracteres(s);
    let mut i: usize = 0;
    while i < v.len()
        invariant
            v@ == s@,
            i <= v@.len(),
            forall|j: int| 0 <= j < i ==> est_chiffre(#[trigger] v@[j]),
        decreases v.len() - i,
    {
        if !est_chiffre_exec(v[i]) {
            return false;
        }
        i = i + 1;
    }
    true
}

/// Une chaîne faite des caractères de `v`.
pub fn chaine_de(v: &Vec<char>) -> (r: String)
    ensures
        r@ == v@,
{
    let mut r = String::new();
    let mut i: usize = 0;
    while i < v.len()
        invariant
            i <= v@.len(),
            r@ == v@.take(i as int),
        decreases v.len() - i,
    {
        r.push(v[i]);
        i = i + 1;
        assert(r@ =~= v@.take(i as int));
    }
    assert(r@ =~= v@);
    r
}

/// Les `n` premiers caractères de `s`, comme `s.chars().take(n).collect()`.
pub fn debut_exec(s: &str, n: usize) -> (r: String)
    ensures
        r@ == debut(s@, n as nat),
{
    let v = caracteres(s);
    let mut r = String::new();
    let mut i: usize = 0;
    while i < v.len() && i < n
        invariant
            v@ == s@,
            i <= v@.len(),
            i <= n,
            r@ == v@.take(i as int),
        decreases v.len() - i,
    {
        r.push(v[i]);
        i = i + 1;
        assert(r@ =~= v@.take(i as int));
    }
    assert(r@ =~= debut(s@, n as nat));
    r
}

/// La concaténation de deux textes.
pub fn concatener(a: &str, b: &str) -> (r: String)
    ensures
        r@ == a@ + b@,
{
    let mut r = a.to_owned();
    let v = caracteres(b);
    let ghost debut = r@;
    let mut i: usize = 0;
    while i < v.len()
        invariant
            debut == a@,
            v@ == b@,
            i <= v@.len(),
            r@ == debut + v@.take(i as int),
        decreases v.len() - i,
    {
        r.push(v[i]);
        i = i + 1;
        assert(r@ =~= debut + v@.take(i as int));
    }
    assert(v@.take(i as int) =~= v@);
    r
}

/// Texte facultatif d'un formulaire : rogné, écarté s'il est vide, puis
/// tronqué à `max` caractères.
pub fn texte_facultatif_exec(t: Option<&str>, max: usize) -> (r: Option<String>)
    ensures
        r.is_some() == texte_facultatif(vue_facultative(t), max as nat).is_some(),
        r matches Some(x) ==> texte_facultatif(vue_facultative(t), max as nat) == Some(x@),
{
    match t {
        None => None,
        Some(s) => {
            let rogne = rogner(s);
            if rogne.unicode_len() == 0 {
                None
            } else {
                Some(debut_exec(rogne, max))
            }
        },
    }
}

/// Nettoie un texte facultatif : rogné, écarté s'il ne reste rien.
pub fn nettoyer(t: Option<&str>) -> (r: Option<String>)
    ensures
        vue_possedee(r) == nettoye(vue_facultative(t)),
{
    match t {
        None => None,
        Some(s) => {
            let rogne = rogner(s);
            if rogne.unicode_len() == 0 {
                None
            } else {
                Some(rogne.to_owned())
            }
        },
    }
}

} // verus!

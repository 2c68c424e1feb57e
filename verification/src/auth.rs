//! Règles d'inscription et de connexion.

use vstd::prelude::*;
use crate::texte::{caracteres, contient, contient_exec, est_alnum_ascii, octets_des_chiffres, octets_plafonnes, octets_utf8, est_alnum_exec, que_des_chiffres, que_des_chiffres_exec, rogne, rogner};

verus! {

/// Erreurs de validation des champs d'inscription.
#[derive(Debug, Clone, Copy, PartialEq, Eq)]
pub enum ValidationError {
    EmailInvalide,
    MotDePasseTropCourt,
    PseudoInvalide,
    CodePostalInvalide,
}

pub const MOT_DE_PASSE_LONGUEUR_MIN: usize = 8;
pub const VERROU_SEUIL_ECHECS: i16 = 5;
pub const VERROU_DUREE_MINUTES: i64 = 15;

/// `k` est la position de la première occurrence de `c` dans `s`.
pub open spec fn premier_indice(s: Seq<char>, c: char, k: int) -> bool {
    0 <= k < s.len() && s[k] == c && forall|j: int| 0 <= j < k ==> s[j] != c
}

/// Caractère admis dans un nom de domaine : lettre ou chiffre ASCII, point, tiret.
pub open spec fn caractere_de_domaine(c: char) -> bool {
    est_alnum_ascii(c) || c == '.' || c == '-'
}

/// Un domaine contient un point, sans point en tête ni en queue, et
/// n'utilise que des caractères de domaine.
pub open spec fn domaine_valide(d: Seq<char>) -> bool {
    &&& contient(d, '.')
    &&& d[0] != '.'
    &&& d[d.len() - 1] != '.'
    &&& forall|i: int| 0 <= i < d.len() ==> #[trigger] caractere_de_domaine(d[i])
}

/// Un e-mail (déjà rogné) est conforme : une partie locale non vide avant
/// le premier `@`, un domaine valide après, aucune espace, et au plus 254
/// octets en UTF-8.
pub open spec fn email_conforme(t: Seq<char>) -> bool {
    &&& exists|k: int| #[trigger] premier_indice(t, '@', k) && k > 0 && domaine_valide(t.subrange(k + 1, t.len() as int))
    &&& !contient(t, ' ')
    &&& octets_utf8(t) <= 254
}

/// Pseudo : 3 à 30 caractères, lettres, chiffres, tirets ou underscore.
pub open spec fn caractere_de_pseudo(c: char) -> bool {
    est_alnum_ascii(c) || c == '-' || c == '_'
}

pub open spec fn pseudo_conforme(p: Seq<char>) -> bool {
    &&& 3 <= p.len() <= 30
    &&& forall|i: int| 0 <= i < p.len() ==> #[trigger] caractere_de_pseudo(p[i])
}

/// Code postal français : exactement 5 octets, tous des chiffres.
pub open spec fn code_postal_conforme(c: Seq<char>) -> bool {
    octets_utf8(c) == 5 && que_des_chiffres(c)
}

/// Validation minimale d'e-mail : quelque chose @ quelque chose . quelque chose,
/// après rognage des blancs.
pub fn valider_email(email: &str) -> (r: Result<(), ValidationError>)
    ensures
        r is Ok <==> email_conforme(rogne(email@)),
        r matches Err(e) ==> e == ValidationError::EmailInvalide,
{
    let email = rogner(email);
    let v = caracteres(email);
    let n = v.len();
    // Position du premier `@`.
    let mut k: usize = 0;
    while k < n && v[k] != '@'
        invariant
            v@ == email@,
            n == v@.len(),
            k <= n,
            forall|j: int| 0 <= j < k ==> v@[j] != '@',
        decreases n - k,
    {
        k = k + 1;
    }
    if k == n {
        assert forall|i: int| !premier_indice(email@, '@', i) by {
            if premier_indice(email@, '@', i) {
                assert(v@[i] == '@');
            }
        }
        return Err(ValidationError::EmailInvalide);
    }
    assert(premier_indice(email@, '@', k as int));
    let ghost dom = email@.subrange(k + 1, n as int);
    // Le domaine : de k + 1 à la fin.
    let mut a_un_point = false;
    let mut tous_admis = true;
    let mut i: usize = k + 1;
    while i < n
        invariant
            v@ == email@,
            n == v@.len(),
            k < n,
            k + 1 <= i <= n,
            dom == email@.subrange(k + 1, n as int),
            a_un_point == (exists|j: int| k + 1 <= j < i && v@[j] == '.'),
            tous_admis ==> (forall|j: int| k + 1 <= j < i ==> #[trigger] caractere_de_domaine(v@[j])),
            !tous_admis ==> (exists|j: int| k + 1 <= j < i && !caractere_de_domaine(#[trigger] v@[j])),
        decreases n - i,
    {
        let c = v[i];
        if c == '.' {
            a_un_point = true;
        }
        if !(est_alnum_exec(c) || c == '.' || c == '-') {
            tous_admis = false;
            assert(!caractere_de_domaine(v@[i as int]));
        }
        i = i + 1;
    }
    let domaine_ok = a_un_point && v[k + 1] != '.' && v[n - 1] != '.' && tous_admis;
    proof {
        if a_un_point {
            let j = choose|j: int| k + 1 <= j < n && v@[j] == '.';
            assert(dom[j - (k + 1)] == '.');
            assert(contient(dom, '.'));
        }
        if contient(dom, '.') {
            let j = choose|j: int| 0 <= j < dom.len() && dom[j] == '.';
            assert(v@[j + k + 1] == '.');
        }
        if tous_admis {
            assert forall|j: int| 0 <= j < dom.len() implies #[trigger] caractere_de_domaine(dom[j]) by {
                assert(dom[j] == v@[j + k + 1]);
            }
        }
        if !tous_admis {
            let j = choose|j: int| k + 1 <= j < n && !caractere_de_domaine(#[trigger] v@[j]);
            assert(dom[j - (k + 1)] == v@[j]);
        }
        if a_un_point {
            assert(dom[0] == v@[k + 1]);
            assert(dom[dom.len() - 1] == v@[n - 1]);
        }
        assert(domaine_ok == domaine_valide(dom));
    }
    let espace = contient_exec(&v, ' ');
    let octets = octets_plafonnes(&v, 254);
    if k == 0 || !domaine_ok || espace || octets > 254 {
        proof {
            assert forall|i: int| premier_indice(email@, '@', i) implies i == k by {
                if i < k {
                    assert(v@[i] != '@');
                } else if i > k {
                    assert(email@[k as int] == '@');
                }
            }
        }
        return Err(ValidationError::EmailInvalide);
    }
    assert(premier_indice(email@, '@', k as int) && k > 0 && domaine_valide(dom));
    Ok(())
}

pub fn valider_mot_de_passe(mot_de_passe: &str) -> (r: Result<(), ValidationError>)
    ensures
        r is Ok <==> mot_de_passe@.len() >= MOT_DE_PASSE_LONGUEUR_MIN,
        r matches Err(e) ==> e == ValidationError::MotDePasseTropCourt,
{
    if mot_de_passe.unicode_len() < MOT_DE_PASSE_LONGUEUR_MIN {
        return Err(ValidationError::MotDePasseTropCourt);
    }
    Ok(())
}

/// Pseudo : 3–30 caractères, lettres, chiffres, tirets ou underscore.
pub fn valider_pseudo(pseudo: &str) -> (r: Result<(), ValidationError>)
    ensures
        r is Ok <==> pseudo_conforme(pseudo@),
        r matches Err(e) ==> e == ValidationError::PseudoInvalide,
{
    let v = caracteres(pseudo);
    let longueur = v.len();
    if longueur < 3 || longueur > 30 {
        return Err(ValidationError::PseudoInvalide);
    }
    let mut i: usize = 0;
    while i < longueur
        invariant
            v@ == pseudo@,
            longueur == v@.len(),
            i <= longueur,
            forall|j: int| 0 <= j < i ==> #[trigger] caractere_de_pseudo(v@[j]),
        decreases longueur - i,
    {
        let c = v[i];
        if !(est_alnum_exec(c) || c == '-' || c == '_') {
            assert(!caractere_de_pseudo(pseudo@[i as int]));
            return Err(ValidationError::PseudoInvalide);
        }
        i = i + 1;
    }
    Ok(())
}

/// Code postal français : exactement 5 chiffres.
pub fn valider_code_postal(code_postal: &str) -> (r: Result<(), ValidationError>)
    ensures
        r is Ok <==> code_postal_conforme(code_postal@),
        r matches Err(e) ==> e == ValidationError::CodePostalInvalide,
{
    if !que_des_chiffres_exec(code_postal) {
        return Err(ValidationError::CodePostalInvalide);
    }
    proof {
        octets_des_chiffres(code_postal@);
    }
    if code_postal.unicode_len() != 5 {
        return Err(ValidationError::CodePostalInvalide);
    }
    Ok(())
}

/// Règle de verrouillage : au N-ième échec consécutif, le compte est verrouillé.
pub fn doit_verrouiller(echecs_consecutifs: i16) -> (r: bool)
    ensures
        r == (echecs_consecutifs >= VERROU_SEUIL_ECHECS),
{
    echecs_consecutifs >= VERROU_SEUIL_ECHECS
}

/// Une fois le seuil atteint, chaque échec supplémentaire verrouille encore.
pub proof fn verrou_persistant(a: i16, b: i16)
    requires
        a <= b,
        a >= VERROU_SEUIL_ECHECS,
    ensures
        b >= VERROU_SEUIL_ECHECS,
{
}

} // verus!

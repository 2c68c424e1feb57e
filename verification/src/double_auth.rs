//! Double authentification des administrateurs : état de l'enrôlement,
//! codes de secours à usage unique (tirage et empreinte), refus renvoyés.

use vstd::prelude::*;
use vstd::string::StringSliceAdditionalSpecFns;
use vstd::utf8::encode_utf8;
use crate::erreurs::{est_erreur, ApiError, GenreErreur};
use crate::jetons::{condensat_sha256, hex, sha256_hex};
use crate::texte::{rogne, rogner};

verus! {

/// Les caractères d'un code de secours : majuscules et chiffres, sans les
/// caractères qui se confondent (I, L, O, U, 0, 1).
pub const ALPHABET: [char; 30] = [
    'A', 'B', 'C', 'D', 'E', 'F', 'G', 'H', 'J', 'K', 'M', 'N', 'P', 'Q', 'R',
    'S', 'T', 'V', 'W', 'X', 'Y', 'Z', '2', '3', '4', '5', '6', '7', '8', '9',
];

/// Nombre de codes de secours remis à l'activation.
pub const CODES_DE_SECOURS: usize = 10;

/// `rand::Rng::gen_range` sur le générateur du fil d'exécution
/// (`rand::thread_rng`) : un entier tiré dans `0..borne`. La bibliothèque
/// panique sur un intervalle vide, d'où `borne > 0`.
#[verifier::external_body]
pub(crate) fn tirage(borne: usize) -> (r: usize)
    requires
        borne > 0,
    ensures
        r < borne,
{
    rand::Rng::gen_range(&mut rand::thread_rng(), 0..borne)
}

pub open spec fn dans_alphabet(c: char) -> bool {
    exists|i: int| 0 <= i < 30 && ALPHABET@[i] == c
}

/// Forme d'un code de secours : quatre caractères de l'alphabet, un tiret,
/// quatre caractères de l'alphabet.
pub open spec fn forme_code_secours(code: Seq<char>) -> bool {
    &&& code.len() == 9
    &&& code[4] == '-'
    &&& forall|i: int| 0 <= i < 9 && i != 4 ==> dans_alphabet(#[trigger] code[i])
}

/// Le code de secours des huit tirages `t` (rangs dans l'alphabet) : les
/// quatre premiers caractères, un tiret, les quatre suivants.
pub open spec fn code_des_tirages(t: Seq<usize>) -> Seq<char> {
    Seq::new(9, |i: int| if i < 4 { ALPHABET@[t[i] as int] } else if i == 4 { '-' } else { ALPHABET@[t[i - 1] as int] })
}

/// Le code de secours qui correspond à huit tirages dans l'alphabet.
pub fn code_de_secours_depuis(t: &Vec<usize>) -> (code: String)
    requires
        t@.len() == 8,
        forall|i: int| 0 <= i < 8 ==> #[trigger] t@[i] < 30,
    ensures
        code@ == code_des_tirages(t@),
        forme_code_secours(code@),
{
    let mut code = String::new();
    let mut k: usize = 0;
    while k < 8
        invariant
            k <= 8,
            t@.len() == 8,
            forall|i: int| 0 <= i < 8 ==> #[trigger] t@[i] < 30,
            code@.len() == if k <= 4 { k as int } else { k + 1 },
            forall|i: int| 0 <= i < code@.len() ==> #[trigger] code@[i] == code_des_tirages(t@)[i],
        decreases 8 - k,
    {
        if k == 4 {
            code.push('-');
        }
        let ghost avant = code@;
        code.push(ALPHABET[t[k]]);
        assert forall|i: int| 0 <= i < code@.len() implies #[trigger] code@[i] == code_des_tirages(t@)[i] by {
            if i < avant.len() {
                assert(code@[i] == avant[i]);
            }
        }
        k = k + 1;
    }
    assert(code@ =~= code_des_tirages(t@));
    assert forall|i: int| 0 <= i < 9 && i != 4 implies dans_alphabet(#[trigger] code@[i]) by {
        let j: int = if i < 4 { i } else { i - 1 };
        assert(ALPHABET@[t@[j] as int] == code@[i]);
    }
    code
}

/// Un code de secours lisible, XXXX-XXXX, tiré au hasard dans l'alphabet.
pub fn code_de_secours() -> (code: String)
    ensures
        forme_code_secours(code@),
{
    let mut t: Vec<usize> = Vec::new();
    while t.len() < 8
        invariant
            t@.len() <= 8,
            forall|i: int| 0 <= i < t@.len() ==> #[trigger] t@[i] < 30,
        decreases 8 - t@.len(),
    {
        let j = tirage(30);
        t.push(j);
    }
    code_de_secours_depuis(&t)
}

/// Les dix codes de secours remis à l'activation.
pub fn codes_de_secours() -> (codes: Vec<String>)
    ensures
        codes@.len() == CODES_DE_SECOURS,
        forall|i: int| 0 <= i < codes@.len() ==> forme_code_secours(#[trigger] codes@[i]@),
{
    let mut codes: Vec<String> = Vec::new();
    let mut k: usize = 0;
    while k < CODES_DE_SECOURS
        invariant
            k <= CODES_DE_SECOURS,
            codes@.len() == k,
            forall|i: int| 0 <= i < codes@.len() ==> forme_code_secours(#[trigger] codes@[i]@),
        decreases CODES_DE_SECOURS - k,
    {
        codes.push(code_de_secours());
        k = k + 1;
    }
    codes
}

/// L'empreinte stockée d'un code de secours : SHA-256 hexadécimal.
pub open spec fn empreinte(code: Seq<char>) -> Seq<char> {
    hex(condensat_sha256(encode_utf8(code)))
}

/// Les empreintes des codes, dans le même ordre : seules elles sont gardées.
pub fn empreintes(codes: &Vec<String>) -> (r: Vec<String>)
    ensures
        r@.len() == codes@.len(),
        forall|i: int| 0 <= i < r@.len() ==> #[trigger] r@[i]@ == empreinte(codes@[i]@),
{
    let mut r: Vec<String> = Vec::new();
    let mut k: usize = 0;
    while k < codes.len()
        invariant
            k <= codes@.len(),
            r@.len() == k,
            forall|i: int| 0 <= i < r@.len() ==> #[trigger] r@[i]@ == empreinte(codes@[i]@),
        decreases codes.len() - k,
    {
        r.push(sha256_hex(codes[k].as_str()));
        k = k + 1;
    }
    r
}

/// `str::to_uppercase` de la bibliothèque standard : le texte en
/// majuscules selon les tables Unicode.
pub uninterp spec fn majuscules(s: Seq<char>) -> Seq<char>;

/// `str::to_uppercase` : la correspondance en majuscules de chaque
/// caractère ; le contrat ne dit que le nom du résultat.
#[verifier::external_body]
fn en_majuscules(s: &str) -> (r: String)
    ensures
        r@ == majuscules(s@),
{
    s.to_uppercase()
}

/// L'empreinte cherchée pour un code saisi : rogné, mis en majuscules,
/// condensé.
pub fn empreinte_saisie(code: &str) -> (r: String)
    ensures
        r@ == empreinte(majuscules(rogne(code@))),
{
    let m = en_majuscules(rogner(code));
    sha256_hex(m.as_str())
}

/// L'état de la double authentification d'un compte : activée, et
/// enrôlement commencé mais pas encore confirmé.
pub fn etat_totp(secret_present: bool, activee: bool) -> (r: (bool, bool))
    ensures
        r == (activee, secret_present && !activee),
{
    (activee, secret_present && !activee)
}

/// Un code n'est exigé que d'un compte dont la double authentification
/// est activée (secret présent et enrôlement confirmé).
pub fn verification_exigee(secret_present: bool, activee: bool) -> (r: bool)
    ensures
        r == (secret_present && activee),
{
    secret_present && activee
}

/// La récupération d'un compte (remise à zéro de sa double
/// authentification) : le compte maître, ou la clé de service.
pub open spec fn peut_reinitialiser(acteur: Option<u128>, est_maitre: bool) -> bool {
    acteur is None || est_maitre
}

pub open spec fn erreur_maitre_requis(e: ApiError) -> bool {
    est_erreur(e, GenreErreur::Interdit, "compte_maitre_requis"@, "La récupération 2FA est réservée au compte maître."@)
}

pub fn verifier_reinitialisation(acteur: Option<u128>, est_maitre: bool) -> (r: Result<(), ApiError>)
    ensures
        r is Ok <==> peut_reinitialiser(acteur, est_maitre),
        r matches Err(e) ==> erreur_maitre_requis(e),
{
    if acteur.is_some() && !est_maitre {
        Err(ApiError::forbidden("compte_maitre_requis", "La récupération 2FA est réservée au compte maître."))
    } else {
        Ok(())
    }
}

pub fn totp_non_demarre() -> (e: ApiError)
    ensures
        est_erreur(e, GenreErreur::RequeteInvalide, "totp_non_demarre"@, "Commence par générer ton QR code."@),
{
    ApiError::bad_request("totp_non_demarre", "Commence par générer ton QR code.")
}

/// Le refus d'un code faux à l'activation, qui rappelle de vérifier l'heure.
pub fn code_incorrect_activation() -> (e: ApiError)
    ensures
        est_erreur(
            e,
            GenreErreur::RequeteInvalide,
            "code_incorrect"@,
            "Ce code ne correspond pas. Vérifie l'heure de ton téléphone et réessaie."@,
        ),
{
    ApiError::bad_request("code_incorrect", "Ce code ne correspond pas. Vérifie l'heure de ton téléphone et réessaie.")
}

/// Le refus d'un code faux à la vérification ou à la désactivation.
pub fn code_incorrect() -> (e: ApiError)
    ensures
        est_erreur(e, GenreErreur::RequeteInvalide, "code_incorrect"@, "Ce code ne correspond pas."@),
{
    ApiError::bad_request("code_incorrect", "Ce code ne correspond pas.")
}

} // verus!

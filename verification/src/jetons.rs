//! Jetons opaques (rafraîchissement de session, vérification d'e-mail) :
//! 32 octets aléatoires transmis en base64url, stockés condensés (SHA-256
//! en hexadécimal minuscule). Et l'empreinte d'un identifiant de membre pour
//! la télémétrie, qui ne voit jamais d'identifiant en clair.

use vstd::prelude::*;
use vstd::string::StringSliceAdditionalSpecFns;
use vstd::utf8::encode_utf8;
use base64::Engine;
use rand::RngCore;
use sha2::Digest;
use crate::texte::concatener;
use crate::session::uuid_lu;

verus! {

/// SHA-256 (`sha2::Sha256::digest`) des octets donnés.
pub uninterp spec fn condensat_sha256(octets: Seq<u8>) -> Seq<u8>;

/// Le caractère de la valeur `n` (0–63) dans l'alphabet base64 sûr pour
/// les URL (RFC 4648, §5) : `A`–`Z`, `a`–`z`, `0`–`9`, `-`, `_`.
pub open spec fn car_base64url(n: int) -> char {
    if n < 26 {
        ((65 + n) as u32) as char
    } else if n < 52 {
        ((97 + n - 26) as u32) as char
    } else if n < 62 {
        ((48 + n - 52) as u32) as char
    } else if n == 62 {
        '-'
    } else {
        '_'
    }
}

/// Base64 à l'alphabet sûr pour les URL, sans remplissage (RFC 4648) :
/// chaque groupe de trois octets donne quatre caractères de six bits, poids
/// fort d'abord ; un reste d'un ou deux octets donne deux ou trois
/// caractères, complétés de bits nuls.
pub open spec fn base64url(o: Seq<u8>) -> Seq<char>
    decreases o.len(),
{
    if o.len() == 0 {
        Seq::empty()
    } else {
        let a = o[0] as int;
        let b = if o.len() > 1 { o[1] as int } else { 0 };
        let c = if o.len() > 2 { o[2] as int } else { 0 };
        let groupe = seq![
            car_base64url(a / 4),
            car_base64url((a % 4) * 16 + b / 16),
            car_base64url((b % 16) * 4 + c / 64),
            car_base64url(c % 64),
        ];
        if o.len() < 3 {
            groupe.take(o.len() + 1int)
        } else {
            groupe + base64url(o.skip(3))
        }
    }
}

/// `sha2::Sha256::digest` : le condensat de 32 octets (256 bits) des octets
/// donnés.
#[verifier::external_body]
fn sha256(octets: &[u8]) -> (r: Vec<u8>)
    ensures
        r@ == condensat_sha256(octets@),
        r@.len() == 32,
{
    sha2::Sha256::digest(octets).to_vec()
}

/// `Engine::encode` du moteur `URL_SAFE_NO_PAD` de `base64`. Le calcul de
/// la taille de sortie panique au-delà d'un quart de `usize::MAX` octets.
#[verifier::external_body]
fn encoder_base64url(octets: &[u8]) -> (r: String)
    requires
        octets@.len() <= usize::MAX / 4,
    ensures
        r@ == base64url(octets@),
{
    base64::engine::general_purpose::URL_SAFE_NO_PAD.encode(octets)
}

/// `rand::rngs::OsRng::fill_bytes` : 32 octets tirés du générateur du
/// système. Rien n'est dit de leur valeur.
#[verifier::external_body]
fn octets_aleatoires() -> (r: Vec<u8>)
    ensures
        r@.len() == 32,
{
    let mut octets = [0u8; 32];
    rand::rngs::OsRng.fill_bytes(&mut octets);
    octets.to_vec()
}

/// Le chiffre hexadécimal minuscule de `n` (0–15).
pub open spec fn chiffre_hex(n: int) -> char {
    if n < 10 {
        ((48 + n) as u32) as char
    } else {
        ((87 + n) as u32) as char
    }
}

/// L'écriture hexadécimale minuscule d'une suite d'octets : deux chiffres
/// par octet, poids fort d'abord.
pub open spec fn hex(octets: Seq<u8>) -> Seq<char> {
    Seq::new(2 * octets.len(), |i: int| chiffre_hex(if i % 2 == 0 { octets[i / 2] / 16 } else { octets[i / 2] % 16 } as int))
}

fn chiffre_hex_exec(n: u8) -> (c: char)
    requires
        n < 16,
    ensures
        c == chiffre_hex(n as int),
{
    if n < 10 {
        ((48u8 + n) as char)
    } else {
        ((87u8 + n) as char)
    }
}

/// Écrit les octets en hexadécimal minuscule (`{:02x}` par octet).
pub fn en_hex(octets: &[u8]) -> (r: String)
    requires
        octets@.len() <= usize::MAX / 2,
    ensures
        r@ == hex(octets@),
{
    let mut r = String::new();
    let mut i: usize = 0;
    while i < octets.len()
        invariant
            i <= octets@.len(),
            octets@.len() <= usize::MAX / 2,
            r@ == hex(octets@.take(i as int)),
        decreases octets.len() - i,
    {
        let b = octets[i];
        let haut = chiffre_hex_exec(b / 16);
        let bas = chiffre_hex_exec(b % 16);
        r.push(haut);
        r.push(bas);
        proof {
            let avant = octets@.take(i as int);
            let apres = octets@.take(i + 1);
            assert forall|k: int| 0 <= k < 2 * apres.len() implies #[trigger] hex(apres)[k] == r@[k] by {
                if k < 2 * i {
                    assert(apres[k / 2] == avant[k / 2]);
                    assert(hex(avant)[k] == r@[k]);
                }
            }
            assert(r@ =~= hex(apres));
        }
        i = i + 1;
    }
    assert(octets@.take(i as int) =~= octets@);
    r
}

/// Le condensat SHA-256 d'un texte (ses octets UTF-8), en hexadécimal
/// minuscule : 64 caractères.
pub fn sha256_hex(entree: &str) -> (r: String)
    ensures
        r@ == hex(condensat_sha256(entree.spec_bytes())),
        r@.len() == 64,
{
    let condensat = sha256(entree.as_bytes());
    en_hex(condensat.as_slice())
}

/// Un jeton opaque : la valeur envoyée au client, jamais stockée, et son
/// condensat, seul gardé en base.
pub struct OpaqueToken {
    pub raw: String,
    pub hash: String,
}

/// Le jeton des octets donnés : leur encodage base64url, et le condensat
/// SHA-256 hexadécimal de cet encodage.
pub fn jeton_depuis(octets: &[u8]) -> (t: OpaqueToken)
    requires
        octets@.len() <= usize::MAX / 4,
    ensures
        t.raw@ == base64url(octets@),
        t.hash@ == hex(condensat_sha256(encode_utf8(t.raw@))),
{
    let raw = encoder_base64url(octets);
    let hash = sha256_hex(raw.as_str());
    OpaqueToken { raw, hash }
}

/// Un nouveau jeton : 32 octets aléatoires encodés en base64url, et le
/// condensat SHA-256 hexadécimal de cet encodage.
pub fn generate() -> (t: OpaqueToken)
    ensures
        exists|octets: Seq<u8>| octets.len() == 32 && t.raw@ == base64url(octets),
        t.hash@ == hex(condensat_sha256(encode_utf8(t.raw@))),
{
    let octets = octets_aleatoires();
    jeton_depuis(octets.as_slice())
}

/// Les 16 octets d'un identifiant, poids fort d'abord (`u128::to_be_bytes`).
pub open spec fn octets_gros_boutiste(id: u128) -> Seq<u8> {
    Seq::new(16, |i: int| ((id >> (8 * (15 - i)) as u128) & 0xff) as u8)
}

/// L'écriture d'un UUID à traits d'union : 8-4-4-4-12 chiffres
/// hexadécimaux minuscules des 16 octets.
pub open spec fn forme_uuid(id: u128) -> Seq<char> {
    let o = octets_gros_boutiste(id);
    hex(o.subrange(0, 4)) + seq!['-'] + hex(o.subrange(4, 6)) + seq!['-'] + hex(o.subrange(6, 8)) + seq!['-']
        + hex(o.subrange(8, 10)) + seq!['-'] + hex(o.subrange(10, 16))
}

/// `uuid::Uuid::from_u128(id).to_string()` : la forme à traits d'union de
/// l'UUID dont les octets sont ceux de `id` poids fort d'abord, comme le
/// montrent `from_u128` et l'exemple de sa documentation. `Uuid::parse_str`
/// relit cette forme et redonne l'identifiant.
#[verifier::external_body]
pub(crate) fn texte_uuid(id: u128) -> (r: String)
    ensures
        r@ == forme_uuid(id),
        uuid_lu(r@) == Some(id),
{
    uuid::Uuid::from_u128(id).to_string()
}

/// L'empreinte d'un membre pour la télémétrie : SHA-256 hexadécimal du sel
/// suivi de son identifiant écrit en UUID.
pub fn hash_user_id(sel: &str, user_id: u128) -> (r: String)
    ensures
        r@ == hex(condensat_sha256(encode_utf8(sel@ + forme_uuid(user_id)))),
{
    let id = texte_uuid(user_id);
    let texte = concatener(sel, id.as_str());
    sha256_hex(texte.as_str())
}

} // verus!

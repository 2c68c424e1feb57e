//! Mots de passe (Argon2id, paramètres OWASP : 19 Mio, 2 passes, 1 voie)
//! et double authentification (TOTP SHA-1 à 6 chiffres, pas de 30 s,
//! tolérance d'un pas, QR code d'enrôlement).

use vstd::prelude::*;
use vstd::string::StringSliceAdditionalSpecFns;
use argon2::{PasswordHasher, PasswordVerifier};
use crate::erreurs::{est_erreur, ApiError, GenreErreur};
use crate::texte::{contient, meme_texte, que_des_chiffres, rogne, rogner};

verus! {

// ————— Argon2 —————

/// Coût mémoire, en Kio.
pub const ARGON2_MEMOIRE_KIO: u32 = 19_456;
/// Nombre de passes.
pub const ARGON2_PASSES: u32 = 2;
/// Nombre de voies.
pub const ARGON2_VOIES: u32 = 1;
/// Le mot de passe vérifié quand l'e-mail est inconnu, pour que la durée
/// de la réponse ne trahisse pas l'absence du compte.
pub const MOT_DE_PASSE_FACTICE: &'static str = "mot-de-passe-factice";
/// La plus longue entrée qu'Argon2 accepte, en octets.
pub const MOT_DE_PASSE_OCTETS_MAX: u64 = 0xFFFF_FFFF;

/// `Argon2::verify_password` sur le hachage au format PHC : `None` si le
/// hachage ne se lit pas, sinon le mot de passe correspond-il.
pub uninterp spec fn argon2_accepte(hachage: Seq<char>, mot_de_passe: Seq<char>) -> Option<bool>;

/// `argon2::PasswordHash::new` puis la liste de ses paramètres : chaque nom,
/// avec sa valeur lue comme décimal (`Value::decimal`) quand elle en est un ;
/// `None` si le texte n'est pas un hachage PHC.
pub uninterp spec fn parametres_phc(hachage: Seq<char>) -> Option<Seq<(Seq<char>, Option<u32>)>>;

/// Le coût de parallélisme à partir duquel `Params::new` déborde en
/// calculant `p_cost * 8` sur 32 bits (2^29) : la vérification panique.
pub const P_COST_DEBORDANT: u32 = 0x2000_0000;

/// Aucun paramètre `p` décimal du hachage n'atteint `P_COST_DEBORDANT`.
pub open spec fn p_dans_les_bornes(ps: Seq<(Seq<char>, Option<u32>)>) -> bool {
    forall|i: int|
        0 <= i < ps.len() && (#[trigger] ps[i]).0 == "p"@ && ps[i].1 is Some ==> ps[i].1.unwrap() < P_COST_DEBORDANT
}

/// Un hachage que la vérification lit sans paniquer.
pub open spec fn hachage_verifiable(hachage: Seq<char>) -> bool {
    match parametres_phc(hachage) {
        Some(ps) => p_dans_les_bornes(ps),
        None => true,
    }
}

pub open spec fn vue_liste(v: Seq<(String, Option<u32>)>) -> Seq<(Seq<char>, Option<u32>)> {
    v.map_values(|x: (String, Option<u32>)| (x.0@, x.1))
}

pub open spec fn vue_parametres(r: Option<Vec<(String, Option<u32>)>>) -> Option<Seq<(Seq<char>, Option<u32>)>> {
    match r {
        Some(v) => Some(vue_liste(v@)),
        None => None,
    }
}

/// `argon2::PasswordHash::new`, puis les paramètres du hachage dans l'ordre
/// du texte, chacun converti en (nom, `Value::decimal` s'il réussit).
#[verifier::external_body]
fn lire_parametres_phc(hachage: &str) -> (r: Option<Vec<(String, Option<u32>)>>)
    ensures
        vue_parametres(r) == parametres_phc(hachage@),
{
    let lu = argon2::PasswordHash::new(hachage).ok()?;
    Some(lu.params.iter().map(|(nom, valeur)| (nom.as_str().to_string(), valeur.decimal().ok())).collect())
}

/// Des paramètres qu'`argon2::Params::new` accepte sans erreur ni
/// dépassement.
pub open spec fn parametres_argon2(m: u32, t: u32, p: u32) -> bool {
    8 <= m && 1 <= t && 1 <= p <= 0xFF_FFFF && p * 8 <= m
}

/// `argon2::PasswordHasher::hash_password` avec un sel tiré du générateur du
/// système (`SaltString::generate(&mut OsRng)`), l'algorithme Argon2id,
/// version 0x13 et les coûts donnés : le hachage au format PHC. Le sel est
/// aléatoire : rien n'est dit du texte produit, sinon que la vérification
/// l'accepte pour ce mot de passe — `verify_password` relit le sel, la
/// version et les coûts du hachage et recalcule la même sortie (même
/// algorithme, sans clé secrète de part et d'autre). Avec des coûts valides
/// et un sel généré (16 octets), le hachage n'échoue que sur un mot de
/// passe de plus de `0xFFFF_FFFF` octets (`Argon2::verify_inputs`).
#[verifier::external_body]
fn hacher_argon2id(mot_de_passe: &str, m: u32, t: u32, p: u32) -> (r: Option<String>)
    requires
        parametres_argon2(m, t, p),
    ensures
        r matches Some(h) ==> argon2_accepte(h@, mot_de_passe@) == Some(true),
        r matches Some(h) ==> parametres_phc(h@) == Some(seq![("m"@, Some(m)), ("t"@, Some(t)), ("p"@, Some(p))]),
        mot_de_passe.spec_bytes().len() <= MOT_DE_PASSE_OCTETS_MAX ==> r is Some,
{
    let params = argon2::Params::new(m, t, p, None).ok()?;
    let sel = argon2::password_hash::SaltString::generate(&mut argon2::password_hash::rand_core::OsRng);
    argon2::Argon2::new(argon2::Algorithm::Argon2id, argon2::Version::V0x13, params)
        .hash_password(mot_de_passe.as_bytes(), &sel)
        .ok()
        .map(|h| h.to_string())
}

/// `argon2::PasswordHash::new` puis `PasswordVerifier::verify_password` de
/// l'Argon2 par défaut : les paramètres sont lus dans le hachage. Un `p`
/// d'au moins 2^29 fait déborder `Params::new` (panique) : il est exclu. Les
/// coûts en mémoire et en passes lus dans le hachage ne sont pas bornés ici.
#[verifier::external_body]
fn verifier_argon2(hachage: &str, mot_de_passe: &str) -> (r: Option<bool>)
    requires
        hachage_verifiable(hachage@),
    ensures
        r == argon2_accepte(hachage@, mot_de_passe@),
{
    let lu = argon2::PasswordHash::new(hachage).ok()?;
    Some(argon2::Argon2::default().verify_password(mot_de_passe.as_bytes(), &lu).is_ok())
}

pub open spec fn erreur_interne(e: ApiError, message: Seq<char>) -> bool {
    est_erreur(e, GenreErreur::Interne, "erreur_interne"@, message)
}

/// Le hachage à enregistrer pour un nouveau mot de passe : la vérification
/// du même mot de passe l'accepte, et le relit sans risque. Tout mot de
/// passe d'au plus `0xFFFF_FFFF` octets se hache.
pub fn hash_password(mot_de_passe: &str) -> (r: Result<String, ApiError>)
    ensures
        mot_de_passe.spec_bytes().len() <= MOT_DE_PASSE_OCTETS_MAX ==> r is Ok,
        r matches Ok(h) ==> argon2_accepte(h@, mot_de_passe@) == Some(true),
        r matches Ok(h) ==> hachage_verifiable(h@),
        r matches Err(e) ==> erreur_interne(e, "hachage du mot de passe impossible"@),
{
    match hacher_argon2id(mot_de_passe, ARGON2_MEMOIRE_KIO, ARGON2_PASSES, ARGON2_VOIES) {
        Some(h) => {
            proof {
                reveal_strlit("m");
                reveal_strlit("t");
                reveal_strlit("p");
                let ps = seq![("m"@, Some(ARGON2_MEMOIRE_KIO)), ("t"@, Some(ARGON2_PASSES)), ("p"@, Some(ARGON2_VOIES))];
                assert("m"@ != "p"@) by {
                    assert("m"@[0] != "p"@[0]);
                }
                assert("t"@ != "p"@) by {
                    assert("t"@[0] != "p"@[0]);
                }
                assert(p_dans_les_bornes(ps));
            }
            Ok(h)
        },
        None => Err(ApiError::internal("hachage du mot de passe impossible")),
    }
}

/// Le mot de passe correspond-il au hachage enregistré ? Un hachage
/// illisible est une erreur interne. Un hachage dont le paramètre `p`
/// ferait paniquer la vérification est exclu (voir
/// `verifier_hachage_enregistre`).
pub fn verify_password(hachage: &str, mot_de_passe: &str) -> (r: Result<bool, ApiError>)
    requires
        hachage_verifiable(hachage@),
    ensures
        verification_conforme(hachage@, mot_de_passe@, r),
{
    match verifier_argon2(hachage, mot_de_passe) {
        Some(b) => Ok(b),
        None => Err(ApiError::internal("hachage PHC illisible")),
    }
}

/// Le résultat d'une vérification : la réponse d'Argon2, ou l'erreur
/// interne d'un hachage illisible.
pub open spec fn verification_conforme(hachage: Seq<char>, mot_de_passe: Seq<char>, r: Result<bool, ApiError>) -> bool {
    match argon2_accepte(hachage, mot_de_passe) {
        Some(b) => r == Ok::<bool, ApiError>(b),
        None => r matches Err(e) && erreur_interne(e, "hachage PHC illisible"@),
    }
}

/// Le hachage est-il de ceux que la vérification lit sans paniquer ?
fn verifiable(hachage: &str) -> (r: bool)
    ensures
        r == hachage_verifiable(hachage@),
{
    let ps = match lire_parametres_phc(hachage) {
        None => {
            return true;
        },
        Some(ps) => ps,
    };
    let ghost vue = vue_liste(ps@);
    let mut i: usize = 0;
    while i < ps.len()
        invariant
            vue == vue_liste(ps@),
            parametres_phc(hachage@) == Some(vue),
            i <= ps@.len(),
            forall|j: int| 0 <= j < i && (#[trigger] vue[j]).0 == "p"@ && vue[j].1 is Some ==> vue[j].1.unwrap() < P_COST_DEBORDANT,
        decreases ps.len() - i,
    {
        assert(vue[i as int] == (ps@[i as int].0@, ps@[i as int].1));
        if meme_texte(ps[i].0.as_str(), "p") {
            if let Some(v) = ps[i].1 {
                if v >= P_COST_DEBORDANT {
                    assert(vue[i as int].0 == "p"@ && vue[i as int].1 == Some(v));
                    assert(!p_dans_les_bornes(vue));
                    return false;
                }
            }
        }
        i = i + 1;
    }
    true
}

/// La vérification d'un hachage enregistré, quel qu'il soit : `None` pour
/// un hachage dont le paramètre `p` ferait paniquer Argon2, sinon le
/// résultat de `verify_password`.
pub fn verifier_hachage_enregistre(hachage: &str, mot_de_passe: &str) -> (r: Option<Result<bool, ApiError>>)
    ensures
        !hachage_verifiable(hachage@) ==> r is None,
        hachage_verifiable(hachage@) ==> (r matches Some(v) && verification_conforme(hachage@, mot_de_passe@, v)),
{
    if verifiable(hachage) {
        Some(verify_password(hachage, mot_de_passe))
    } else {
        None
    }
}

/// Le hachage du mot de passe factice, calculé une fois et gardé par
/// l'appelant.
pub fn hachage_factice() -> (r: Result<String, ApiError>)
    ensures
        r is Ok,
        r matches Ok(h) ==> argon2_accepte(h@, MOT_DE_PASSE_FACTICE@) == Some(true),
        r matches Ok(h) ==> hachage_verifiable(h@),
{
    proof {
        reveal_strlit("mot-de-passe-factice");
        broadcast use vstd::string::is_ascii_spec_bytes;
        assert(vstd::string::is_ascii(MOT_DE_PASSE_FACTICE));
        assert(MOT_DE_PASSE_FACTICE.spec_bytes().len() == 20);
    }
    hash_password(MOT_DE_PASSE_FACTICE)
}

/// Vérification factice, de même durée qu'une vraie, quand l'e-mail est
/// inconnu : le résultat est ignoré, seule une erreur de lecture du
/// hachage remonte (un hachage que la vérification ne lirait pas sans
/// paniquer compte comme illisible).
pub fn verify_dummy(hachage_factice: &str, mot_de_passe: &str) -> (r: Result<(), ApiError>)
    ensures
        r is Ok <==> (hachage_verifiable(hachage_factice@) && argon2_accepte(hachage_factice@, mot_de_passe@) is Some),
        r matches Err(e) ==> erreur_interne(e, "hachage PHC illisible"@),
{
    if !verifiable(hachage_factice) {
        return Err(ApiError::internal("hachage PHC illisible"));
    }
    match verify_password(hachage_factice, mot_de_passe) {
        Ok(_) => Ok(()),
        Err(e) => Err(e),
    }
}

// ————— TOTP —————

#[verifier::external_type_specification]
#[verifier::external_body]
pub struct ExTotp(totp_rs::TOTP);

/// Algorithme de signature d'un TOTP.
#[derive(Debug, Clone, Copy, PartialEq, Eq)]
pub enum AlgorithmeTotp {
    Sha1,
    Sha256,
    Sha512,
}

pub open spec fn numero_algorithme(a: AlgorithmeTotp) -> u8 {
    match a {
        AlgorithmeTotp::Sha1 => 1,
        AlgorithmeTotp::Sha256 => 2,
        AlgorithmeTotp::Sha512 => 3,
    }
}

/// `totp_rs::Secret::Encoded(..).to_bytes()` : le décodage base32 (RFC 4648,
/// sans remplissage) ; `None` si le texte n'en est pas un.
pub uninterp spec fn base32_decode(s: Seq<char>) -> Option<Seq<u8>>;

/// `TOTP::get_url` : l'adresse `otpauth://` d'enrôlement de ces paramètres.
pub uninterp spec fn url_otpauth(
    algorithme: u8,
    chiffres: usize,
    pas: u64,
    secret: Seq<u8>,
    emetteur: Option<Seq<char>>,
    compte: Seq<char>,
) -> Seq<char>;

/// `qrcode::QrCode::new` puis le rendu SVG d'au moins `cote` pixels de côté ;
/// `None` si les données ne tiennent pas dans un QR code.
pub uninterp spec fn qr_svg(donnees: Seq<u8>, cote: u32) -> Option<Seq<char>>;

pub open spec fn vue_octets(v: Option<Vec<u8>>) -> Option<Seq<u8>> {
    match v {
        Some(o) => Some(o@),
        None => None,
    }
}

pub open spec fn vue_texte(t: Option<String>) -> Option<Seq<char>> {
    match t {
        Some(s) => Some(s@),
        None => None,
    }
}

/// Un TOTP configuré, avec les paramètres dont il a été construit. Seule
/// `creer_totp` en fabrique.
pub struct Totp {
    algorithme: AlgorithmeTotp,
    chiffres: usize,
    tolerance: u8,
    pas: u64,
    secret: Vec<u8>,
    emetteur: Option<String>,
    compte: String,
    generateur: totp_rs::TOTP,
}

impl Totp {
    pub closed spec fn algorithme(&self) -> AlgorithmeTotp {
        self.algorithme
    }

    pub closed spec fn chiffres(&self) -> usize {
        self.chiffres
    }

    pub closed spec fn tolerance(&self) -> u8 {
        self.tolerance
    }

    pub closed spec fn pas(&self) -> u64 {
        self.pas
    }

    pub closed spec fn secret(&self) -> Seq<u8> {
        self.secret@
    }

    pub closed spec fn emetteur(&self) -> Option<Seq<char>> {
        vue_texte(self.emetteur)
    }

    pub closed spec fn compte(&self) -> Seq<char> {
        self.compte@
    }
}

/// Ce que `TOTP::new` accepte : 6 à 8 chiffres, un secret d'au moins 128
/// bits, ni émetteur ni compte contenant `:`.
pub open spec fn totp_acceptable(chiffres: usize, secret: Seq<u8>, emetteur: Option<Seq<char>>, compte: Seq<char>) -> bool {
    &&& 6 <= chiffres <= 8
    &&& secret.len() >= 16
    &&& !(emetteur matches Some(e) && contient(e, ':'))
    &&& !contient(compte, ':')
}

/// `totp_rs::Secret::Encoded(s).to_bytes()`.
#[verifier::external_body]
fn decoder_base32(s: &str) -> (r: Option<Vec<u8>>)
    ensures
        vue_octets(r) == base32_decode(s@),
{
    totp_rs::Secret::Encoded(s.to_string()).to_bytes().ok()
}

/// `totp_rs::TOTP::new` : échoue exactement hors des bornes que sa
/// documentation et son code vérifient (chiffres, longueur du secret, `:`).
#[verifier::external_body]
fn creer_totp(
    algorithme: AlgorithmeTotp,
    chiffres: usize,
    tolerance: u8,
    pas: u64,
    secret: Vec<u8>,
    emetteur: Option<String>,
    compte: String,
) -> (r: Option<Totp>)
    ensures
        r.is_some() == totp_acceptable(chiffres, secret@, vue_texte(emetteur), compte@),
        r matches Some(t) ==> {
            &&& t.algorithme() == algorithme
            &&& t.chiffres() == chiffres
            &&& t.tolerance() == tolerance
            &&& t.pas() == pas
            &&& t.secret() == secret@
            &&& t.emetteur() == vue_texte(emetteur)
            &&& t.compte() == compte@
        },
{
    let algo = match algorithme {
        AlgorithmeTotp::Sha1 => totp_rs::Algorithm::SHA1,
        AlgorithmeTotp::Sha256 => totp_rs::Algorithm::SHA256,
        AlgorithmeTotp::Sha512 => totp_rs::Algorithm::SHA512,
    };
    let generateur = totp_rs::TOTP::new(algo, chiffres, tolerance, pas, secret.clone(), emetteur.clone(), compte.clone()).ok()?;
    Some(Totp { algorithme, chiffres, tolerance, pas, secret, emetteur, compte, generateur })
}

/// `TOTP::check(code, instant)` : le code vaut-il à l'instant donné (en
/// secondes depuis l'époque), à la tolérance près, pour un TOTP de ces
/// paramètres ?
pub uninterp spec fn totp_accepte(
    algorithme: u8,
    chiffres: usize,
    tolerance: u8,
    pas: u64,
    secret: Seq<u8>,
    code: Seq<char>,
    instant: u64,
) -> bool;

/// Les instants que `TOTP::check` calcule sans déborder : il retranche la
/// tolérance au numéro de pas de l'instant, puis remonte jusqu'à la
/// tolérance après ; et `10^chiffres` doit tenir sur 32 bits.
pub open spec fn instant_verifiable(t: &Totp, instant: u64) -> bool {
    &&& 1 <= t.pas()
    &&& t.chiffres() <= 9
    &&& t.tolerance() <= instant / t.pas()
    &&& instant + t.tolerance() * t.pas() <= u64::MAX
}

/// `TOTP::check` : compare le code, octet par octet, aux codes générés pour
/// les pas voisins de l'instant ; ces codes s'écrivent sur autant de
/// chiffres décimaux que le TOTP en compte (zéros de tête compris), donc un
/// code accepté a cette forme.
#[verifier::external_body]
fn verifier_code_a(t: &Totp, code: &str, instant: u64) -> (r: bool)
    requires
        instant_verifiable(t, instant),
    ensures
        r == totp_accepte(numero_algorithme(t.algorithme()), t.chiffres(), t.tolerance(), t.pas(), t.secret(), code@, instant),
        r ==> code@.len() == t.chiffres() && que_des_chiffres(code@),
{
    t.generateur.check(code, instant)
}

/// L'heure du système en secondes depuis l'époque Unix
/// (`SystemTime::now().duration_since(UNIX_EPOCH)`), `None` si l'horloge est
/// avant l'époque. Rien n'est dit de sa valeur.
#[verifier::external_body]
pub(crate) fn heure_systeme() -> (r: Option<u64>) {
    std::time::SystemTime::now().duration_since(std::time::UNIX_EPOCH).ok().map(|d| d.as_secs())
}

/// `TOTP::get_url`.
#[verifier::external_body]
fn adresse_totp(t: &Totp) -> (r: String)
    ensures
        r@ == url_otpauth(numero_algorithme(t.algorithme()), t.chiffres(), t.pas(), t.secret(), t.emetteur(), t.compte()),
{
    t.generateur.get_url()
}

/// `totp_rs::Secret::generate_secret().to_encoded()` : 20 octets tirés au
/// hasard, écrits en base32 sans remplissage (32 caractères) ; le décodage
/// base32 du texte rend ces 20 octets. Leur valeur n'est pas dite.
#[verifier::external_body]
fn nouveau_secret() -> (r: String)
    ensures
        r@.len() == 32,
        base32_decode(r@) is Some,
        base32_decode(r@).unwrap().len() == 20,
{
    totp_rs::Secret::generate_secret().to_encoded().to_string()
}

/// `qrcode::QrCode::new` puis `render::<svg::Color>().min_dimensions(..).build()`.
#[verifier::external_body]
fn rendre_qr_svg(donnees: &[u8], cote: u32) -> (r: Option<String>)
    requires
        cote <= COTE_QR_MAX,
    ensures
        vue_texte(r) == qr_svg(donnees@, cote),
{
    let qr = qrcode::QrCode::new(donnees).ok()?;
    Some(qr.render::<qrcode::render::svg::Color>().min_dimensions(cote, cote).build())
}

/// L'émetteur affiché dans l'application d'authentification.
pub const EMETTEUR_TOTP: &'static str = "Lebontroc";
/// Taille minimale du QR code d'enrôlement, en pixels.
pub const COTE_QR: u32 = 192;
/// Le plus grand côté demandé au rendu : `min_dimensions` calcule
/// `cote + modules - 1` sur 32 bits, qui déborderait près de `u32::MAX`.
pub const COTE_QR_MAX: u32 = 0x1000_0000;

/// Le TOTP d'un compte : SHA-1, 6 chiffres, tolérance d'un pas de 30 s,
/// émetteur Lebontroc, libellé le pseudo. Un secret illisible ou des
/// paramètres refusés sont des erreurs internes.
pub fn totp_instance(secret_base32: &str, compte: &str) -> (r: Result<Totp, ApiError>)
    ensures
        base32_decode(secret_base32@) is None ==> (r matches Err(e) && erreur_interne(e, "secret TOTP illisible"@)),
        base32_decode(secret_base32@) matches Some(s) ==> if totp_acceptable(6, s, Some(EMETTEUR_TOTP@), compte@) {
            r matches Ok(t) && t.algorithme() == AlgorithmeTotp::Sha1 && t.chiffres() == 6 && t.tolerance() == 1
                && t.pas() == 30 && t.secret() == s && t.emetteur() == Some(EMETTEUR_TOTP@) && t.compte() == compte@
        } else {
            r matches Err(e) && erreur_interne(e, "paramètres TOTP refusés"@)
        },
{
    let secret = match decoder_base32(secret_base32) {
        Some(s) => s,
        None => {
            return Err(ApiError::internal("secret TOTP illisible"));
        },
    };
    match creer_totp(AlgorithmeTotp::Sha1, 6, 1, 30, secret, Some(EMETTEUR_TOTP.to_owned()), compte.to_owned()) {
        Some(t) => Ok(t),
        None => Err(ApiError::internal("paramètres TOTP refusés")),
    }
}

/// Le code saisi, rogné, vaut-il maintenant ? Le résultat dépend de
/// l'heure : s'il est vrai, le code est accepté à un instant (celui de
/// l'horloge), et compte donc exactement les chiffres du TOTP. Une horloge
/// illisible, ou trop proche de l'époque pour la tolérance, vaut un refus.
pub fn code_valide(t: &Totp, code: &str) -> (r: bool)
    requires
        1 <= t.pas() <= 86_400,
        t.chiffres() <= 9,
    ensures
        r ==> exists|instant: u64| code_accepte_a(t, code@, instant),
        r ==> rogne(code@).len() == t.chiffres() && que_des_chiffres(rogne(code@)),
{
    match heure_systeme() {
        None => false,
        Some(instant) => {
            let tolerance = t.tolerance as u64;
            let pas = t.pas;
            assert(tolerance * pas <= 255 * 86_400) by (nonlinear_arith)
                requires
                    tolerance <= 255,
                    pas <= 86_400,
            ;
            if tolerance <= instant / pas && instant <= u64::MAX - tolerance * pas {
                code_valide_a(t, code, instant)
            } else {
                false
            }
        },
    }
}

/// Le code saisi, rogné, est accepté par ce TOTP à cet instant.
pub open spec fn code_accepte_a(t: &Totp, code: Seq<char>, instant: u64) -> bool {
    totp_accepte(numero_algorithme(t.algorithme()), t.chiffres(), t.tolerance(), t.pas(), t.secret(), rogne(code), instant)
}

/// Le code saisi, rogné, vaut-il à l'instant donné (secondes depuis
/// l'époque) ?
pub fn code_valide_a(t: &Totp, code: &str, instant: u64) -> (r: bool)
    requires
        instant_verifiable(t, instant),
    ensures
        r == code_accepte_a(t, code@, instant),
        r ==> rogne(code@).len() == t.chiffres() && que_des_chiffres(rogne(code@)),
{
    verifier_code_a(t, rogner(code), instant)
}

/// Ce que renvoie le démarrage de l'enrôlement : le secret en base32,
/// l'adresse `otpauth://` et son QR code en SVG.
pub struct DemarrageTotp {
    pub secret: String,
    pub otpauth_url: String,
    pub qr_svg: String,
}

/// L'adresse et le QR code correspondent au secret et au compte.
pub open spec fn enrolement(d: DemarrageTotp, compte: Seq<char>) -> bool {
    match base32_decode(d.secret@) {
        Some(s) => {
            let url = url_otpauth(1, 6, 30, s, Some(EMETTEUR_TOTP@), compte);
            &&& d.otpauth_url@ == url
            &&& qr_svg(vstd::utf8::encode_utf8(url), COTE_QR) == Some(d.qr_svg@)
        },
        None => false,
    }
}

/// L'enrôlement d'un secret base32 donné pour `compte` : réussit exactement
/// quand le secret se lit, que les paramètres du TOTP sont acceptés et que
/// l'adresse tient dans un QR code.
pub fn enrolement_pour(secret: String, compte: &str) -> (r: Result<DemarrageTotp, ApiError>)
    ensures
        match base32_decode(secret@) {
            None => r matches Err(e) && erreur_interne(e, "secret TOTP illisible"@),
            Some(s) => if !totp_acceptable(6, s, Some(EMETTEUR_TOTP@), compte@) {
                r matches Err(e) && erreur_interne(e, "paramètres TOTP refusés"@)
            } else {
                let url = url_otpauth(1, 6, 30, s, Some(EMETTEUR_TOTP@), compte@);
                match qr_svg(vstd::utf8::encode_utf8(url), COTE_QR) {
                    None => r matches Err(e) && erreur_interne(e, "QR code impossible"@),
                    Some(svg) => r matches Ok(d) && d.secret@ == secret@ && d.otpauth_url@ == url
                        && d.qr_svg@ == svg,
                }
            },
        },
{
    let t = totp_instance(secret.as_str(), compte)?;
    let url = adresse_totp(&t);
    match rendre_qr_svg(url.as_str().as_bytes(), COTE_QR) {
        Some(svg) => Ok(DemarrageTotp { secret, otpauth_url: url, qr_svg: svg }),
        None => Err(ApiError::internal("QR code impossible")),
    }
}

/// L'adresse d'enrôlement d'un secret de `compte`.
pub open spec fn url_enrolement(s: Seq<u8>, compte: Seq<char>) -> Seq<char> {
    url_otpauth(1, 6, 30, s, Some(EMETTEUR_TOTP@), compte)
}

/// Un nouveau secret pour `compte`, son adresse d'enrôlement et le QR code
/// de cette adresse (au moins 192 pixels de côté). Un compte dont le nom
/// contient `:` est refusé ; sinon l'enrôlement ne peut échouer que si
/// l'adresse du secret tiré ne tient pas dans un QR code.
pub fn demarrer_totp(compte: &str) -> (r: Result<DemarrageTotp, ApiError>)
    ensures
        contient(compte@, ':') ==> (r matches Err(e) && erreur_interne(e, "paramètres TOTP refusés"@)),
        !contient(compte@, ':') ==> (r matches Err(e) ==> (erreur_interne(e, "QR code impossible"@)
            && exists|s: Seq<u8>| s.len() == 20
                && qr_svg(vstd::utf8::encode_utf8(url_enrolement(s, compte@)), COTE_QR) is None)),
        r matches Ok(d) ==> (d.secret@.len() == 32 && enrolement(d, compte@)),
{
    let secret = nouveau_secret();
    proof {
        reveal_strlit("Lebontroc");
        assert(!contient(EMETTEUR_TOTP@, ':'));
    }
    enrolement_pour(secret, compte)
}

} // verus!

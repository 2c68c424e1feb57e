//! Sessions et comptes : cookies d'authentification, verrouillage après
//! échecs, rotation des jetons de rafraîchissement (et détection du rejeu),
//! vérification d'e-mail, événements de télémétrie venus du front.
//!
//! Instants : nanosecondes depuis l'époque Unix.

use vstd::prelude::*;
use crate::auth::{self, doit_verrouiller, VERROU_DUREE_MINUTES, VERROU_SEUIL_ECHECS};
use crate::erreurs::{est_erreur, map_validation, reponse_validation, ApiError, GenreErreur};
use crate::auth::{code_postal_conforme, email_conforme, pseudo_conforme, ValidationError, MOT_DE_PASSE_LONGUEUR_MIN};
use crate::jetons::{forme_uuid, texte_uuid};
use crate::texte::{concatener, debut, debut_exec, meme_texte, rogne, rogner};

verus! {

pub const NANOS_PAR_SECONDE: i128 = 1_000_000_000;
pub const NANOS_PAR_MINUTE: i128 = 60_000_000_000;

/// Durée de vie du jeton d'accès (JWT).
pub const ACCESS_TOKEN_MINUTES: i64 = 15;
/// Le cookie du jeton de rafraîchissement.
pub const REFRESH_COOKIE: &'static str = "lbt_refresh";
/// Durée de vie d'un jeton de rafraîchissement.
pub const REFRESH_DAYS: i64 = 30;
/// Durée de vie d'un lien de vérification d'e-mail.
pub const VERIFICATION_TTL_HOURS: i64 = 24;
/// Délai minimal entre deux renvois du lien de vérification.
pub const RESEND_COOLDOWN_SECONDS: i64 = 60;
/// Longueur gardée de l'agent utilisateur d'une session.
pub const AGENT_MAX: usize = 255;

// ————— Cookies —————

/// Le nom du cookie d'accès : préfixé `__Host-` quand il est `Secure`.
pub open spec fn nom_cookie_acces(secure: bool) -> Seq<char> {
    if secure { "__Host-lbt_access"@ } else { "lbt_access"@ }
}

pub fn access_cookie_name(secure: bool) -> (r: &'static str)
    ensures
        r@ == nom_cookie_acces(secure),
{
    if secure {
        "__Host-lbt_access"
    } else {
        "lbt_access"
    }
}

/// Un cookie d'authentification tel qu'il est posé : toujours `HttpOnly` et
/// `SameSite=Lax`, `Secure` selon la configuration.
pub struct ReglesCookie {
    pub nom: String,
    pub valeur: String,
    pub chemin: String,
    pub http_only: bool,
    pub same_site_lax: bool,
    pub secure: bool,
    pub max_age_secondes: i64,
}

pub open spec fn cookie_de_base(c: ReglesCookie, nom: Seq<char>, valeur: Seq<char>, secure: bool) -> bool {
    &&& c.nom@ == nom
    &&& c.valeur@ == valeur
    &&& c.http_only
    &&& c.same_site_lax
    &&& c.secure == secure
}

fn base_cookie(nom: &str, valeur: String, chemin: &str, secure: bool, max_age_secondes: i64) -> (c: ReglesCookie)
    ensures
        cookie_de_base(c, nom@, valeur@, secure),
        c.chemin@ == chemin@,
        c.max_age_secondes == max_age_secondes,
{
    ReglesCookie {
        nom: nom.to_owned(),
        valeur,
        chemin: chemin.to_owned(),
        http_only: true,
        same_site_lax: true,
        secure,
        max_age_secondes,
    }
}

/// Le cookie d'accès : chemin `/`, 15 minutes.
pub fn access_cookie(secure: bool, jeton: String) -> (c: ReglesCookie)
    ensures
        cookie_de_base(c, nom_cookie_acces(secure), jeton@, secure),
        c.chemin@ == "/"@,
        c.max_age_secondes == ACCESS_TOKEN_MINUTES * 60,
{
    base_cookie(access_cookie_name(secure), jeton, "/", secure, ACCESS_TOKEN_MINUTES * 60)
}

/// Le cookie de rafraîchissement : confiné au chemin `/api/auth`, 30 jours.
pub fn refresh_cookie(secure: bool, jeton: String) -> (c: ReglesCookie)
    ensures
        cookie_de_base(c, REFRESH_COOKIE@, jeton@, secure),
        c.chemin@ == "/api/auth"@,
        c.max_age_secondes == REFRESH_DAYS * 86_400,
{
    base_cookie(REFRESH_COOKIE, jeton, "/api/auth", secure, REFRESH_DAYS * 86_400)
}

/// Le cookie d'accès vidé et expiré (déconnexion).
pub fn expired_access_cookie(secure: bool) -> (c: ReglesCookie)
    ensures
        cookie_de_base(c, nom_cookie_acces(secure), Seq::empty(), secure),
        c.chemin@ == "/"@,
        c.max_age_secondes == 0,
{
    let mut c = access_cookie(secure, String::new());
    c.max_age_secondes = 0;
    c
}

/// Le cookie de rafraîchissement vidé et expiré (déconnexion).
pub fn expired_refresh_cookie(secure: bool) -> (c: ReglesCookie)
    ensures
        cookie_de_base(c, REFRESH_COOKIE@, Seq::empty(), secure),
        c.chemin@ == "/api/auth"@,
        c.max_age_secondes == 0,
{
    let mut c = refresh_cookie(secure, String::new());
    c.max_age_secondes = 0;
    c
}

/// L'agent utilisateur gardé avec une session : ses 255 premiers caractères.
pub fn agent_de_session(agent: &str) -> (r: String)
    ensures
        r@ == debut(agent@, AGENT_MAX as nat),
{
    debut_exec(agent, AGENT_MAX)
}

// ————— Inscription et profil —————

/// Le premier refus d'une inscription, dans l'ordre : e-mail, mot de
/// passe, pseudo, code postal.
pub open spec fn refus_inscription(email: Seq<char>, mot_de_passe: Seq<char>, pseudo: Seq<char>, code_postal: Seq<char>) -> Option<ValidationError> {
    if !email_conforme(rogne(email)) {
        Some(ValidationError::EmailInvalide)
    } else if mot_de_passe.len() < MOT_DE_PASSE_LONGUEUR_MIN {
        Some(ValidationError::MotDePasseTropCourt)
    } else if !pseudo_conforme(pseudo) {
        Some(ValidationError::PseudoInvalide)
    } else if !code_postal_conforme(code_postal) {
        Some(ValidationError::CodePostalInvalide)
    } else {
        None
    }
}

pub fn verifier_inscription(email: &str, mot_de_passe: &str, pseudo: &str, code_postal: &str) -> (r: Result<(), ApiError>)
    ensures
        r is Ok <==> refus_inscription(email@, mot_de_passe@, pseudo@, code_postal@) is None,
        r matches Err(e) ==> (refus_inscription(email@, mot_de_passe@, pseudo@, code_postal@) matches Some(v)
            && reponse_validation(v, e)),
{
    if let Err(e) = auth::valider_email(email) {
        return Err(map_validation(e));
    }
    if let Err(e) = auth::valider_mot_de_passe(mot_de_passe) {
        return Err(map_validation(e));
    }
    verifier_profil(pseudo, code_postal)
}

/// Le premier refus d'une mise à jour du profil : pseudo, puis code postal.
pub open spec fn refus_profil(pseudo: Seq<char>, code_postal: Seq<char>) -> Option<ValidationError> {
    if !pseudo_conforme(pseudo) {
        Some(ValidationError::PseudoInvalide)
    } else if !code_postal_conforme(code_postal) {
        Some(ValidationError::CodePostalInvalide)
    } else {
        None
    }
}

pub fn verifier_profil(pseudo: &str, code_postal: &str) -> (r: Result<(), ApiError>)
    ensures
        r is Ok <==> refus_profil(pseudo@, code_postal@) is None,
        r matches Err(e) ==> (refus_profil(pseudo@, code_postal@) matches Some(v) && reponse_validation(v, e)),
{
    if let Err(e) = auth::valider_pseudo(pseudo) {
        return Err(map_validation(e));
    }
    if let Err(e) = auth::valider_code_postal(code_postal) {
        return Err(map_validation(e));
    }
    Ok(())
}

/// `str::to_lowercase` de la bibliothèque standard : le texte en
/// minuscules selon les tables Unicode.
pub uninterp spec fn minuscules(s: Seq<char>) -> Seq<char>;

/// `str::to_lowercase` : la correspondance en minuscules de chaque
/// caractère ; le contrat ne dit que le nom du résultat.
#[verifier::external_body]
fn en_minuscules(s: &str) -> (r: String)
    ensures
        r@ == minuscules(s@),
{
    s.to_lowercase()
}

/// L'e-mail enregistré à l'inscription : rogné puis mis en minuscules.
pub fn email_normalise(email: &str) -> (r: String)
    ensures
        r@ == minuscules(rogne(email@)),
{
    en_minuscules(rogner(email))
}

// ————— Connexion —————

pub open spec fn erreur_identifiants(e: ApiError) -> bool {
    est_erreur(e, GenreErreur::NonAutorise, "non_authentifie"@, "E-mail ou mot de passe incorrect. Vérifie et réessaie."@)
}

/// Le refus d'une connexion : e-mail inconnu ou mauvais mot de passe, sans
/// dire lequel.
pub fn identifiants_invalides() -> (e: ApiError)
    ensures
        erreur_identifiants(e),
{
    ApiError::unauthorized("E-mail ou mot de passe incorrect. Vérifie et réessaie.")
}

pub open spec fn erreur_compte_verrouille(e: ApiError) -> bool {
    est_erreur(e, GenreErreur::TropDeRequetes, "compte_verrouille"@, "Trop de tentatives. Réessaie dans 15 minutes."@)
}

pub fn compte_verrouille() -> (e: ApiError)
    ensures
        erreur_compte_verrouille(e),
{
    ApiError::too_many("compte_verrouille", "Trop de tentatives. Réessaie dans 15 minutes.")
}

/// Le compte est verrouillé tant que l'échéance du verrou est à venir.
pub open spec fn verrouille(verrou: Option<i128>, maintenant: i128) -> bool {
    verrou matches Some(t) && t > maintenant
}

pub fn verrou_actif(verrou: Option<i128>, maintenant: i128) -> (r: bool)
    ensures
        r == verrouille(verrou, maintenant),
{
    match verrou {
        Some(t) => t > maintenant,
        None => false,
    }
}

pub open spec fn duree_verrou() -> int {
    VERROU_DUREE_MINUTES * NANOS_PAR_MINUTE
}

/// Après un mauvais mot de passe : le nouveau compte d'échecs atteint-il
/// le seuil ? alors le compte est verrouillé 15 minutes à partir de
/// maintenant.
pub fn verrou_apres_echec(echecs_avant: i16, maintenant: i128) -> (r: Option<i128>)
    requires
        echecs_avant < i16::MAX,
        maintenant + duree_verrou() <= i128::MAX,
    ensures
        r == (if echecs_avant + 1 >= VERROU_SEUIL_ECHECS {
            Some((maintenant + duree_verrou()) as i128)
        } else {
            None
        }),
{
    if doit_verrouiller(echecs_avant + 1) {
        Some(maintenant + (VERROU_DUREE_MINUTES as i128) * NANOS_PAR_MINUTE)
    } else {
        None
    }
}

/// Une session ouverte à un instant donné : l'échéance de son jeton de
/// rafraîchissement.
pub fn echeance_rafraichissement(maintenant: i128) -> (r: i128)
    requires
        maintenant + REFRESH_DAYS * 86_400 * NANOS_PAR_SECONDE <= i128::MAX,
    ensures
        r == maintenant + REFRESH_DAYS * 86_400 * NANOS_PAR_SECONDE,
{
    maintenant + (REFRESH_DAYS as i128) * 86_400 * NANOS_PAR_SECONDE
}

// ————— Rafraîchissement —————

/// Ce qu'on fait d'un jeton de rafraîchissement présenté.
#[derive(Debug, Clone, Copy, PartialEq, Eq)]
pub enum IssueRafraichissement {
    /// Jeton déjà consommé qui revient : toutes les sessions du compte
    /// sont révoquées, la demande refusée.
    Rejeu,
    /// Session révoquée ou jeton expiré : refus.
    Expiree,
    /// Jeton valide : il est consommé et un nouveau le remplace.
    Rotation,
}

pub open spec fn issue_attendue(deja_utilise: bool, session_revoquee: bool, expire_a: i128, maintenant: i128) -> IssueRafraichissement {
    if deja_utilise {
        IssueRafraichissement::Rejeu
    } else if session_revoquee || expire_a < maintenant {
        IssueRafraichissement::Expiree
    } else {
        IssueRafraichissement::Rotation
    }
}

pub fn issue_rafraichissement(deja_utilise: bool, session_revoquee: bool, expire_a: i128, maintenant: i128) -> (r: IssueRafraichissement)
    ensures
        r == issue_attendue(deja_utilise, session_revoquee, expire_a, maintenant),
{
    if deja_utilise {
        IssueRafraichissement::Rejeu
    } else if session_revoquee || expire_a < maintenant {
        IssueRafraichissement::Expiree
    } else {
        IssueRafraichissement::Rotation
    }
}

/// Un jeton déjà consommé ne redonne jamais de session, quel que soit
/// l'état de la session ou de l'échéance : il déclenche la révocation.
pub proof fn rejeu_toujours_refuse(session_revoquee: bool, expire_a: i128, maintenant: i128)
    ensures
        issue_attendue(true, session_revoquee, expire_a, maintenant) == IssueRafraichissement::Rejeu,
{
}

/// Seul un jeton jamais utilisé, de session vivante et non expiré, est
/// échangé contre un nouveau.
pub proof fn rotation_seulement_si_valide(deja_utilise: bool, session_revoquee: bool, expire_a: i128, maintenant: i128)
    requires
        issue_attendue(deja_utilise, session_revoquee, expire_a, maintenant) == IssueRafraichissement::Rotation,
    ensures
        !deja_utilise,
        !session_revoquee,
        expire_a >= maintenant,
{
}

pub open spec fn erreur_session_expiree(e: ApiError) -> bool {
    est_erreur(e, GenreErreur::NonAutorise, "non_authentifie"@, "Ta session a expiré. Reconnecte-toi."@)
}

pub fn session_expiree() -> (e: ApiError)
    ensures
        erreur_session_expiree(e),
{
    ApiError::unauthorized("Ta session a expiré. Reconnecte-toi.")
}

pub open spec fn erreur_connexion_requise(e: ApiError) -> bool {
    est_erreur(e, GenreErreur::NonAutorise, "non_authentifie"@, "Connecte-toi pour continuer."@)
}

pub fn connexion_requise() -> (e: ApiError)
    ensures
        erreur_connexion_requise(e),
{
    ApiError::unauthorized("Connecte-toi pour continuer.")
}

pub fn session_introuvable() -> (e: ApiError)
    ensures
        est_erreur(e, GenreErreur::Introuvable, "introuvable"@, "Cette session n'existe pas (ou plus)."@),
{
    ApiError::not_found("Cette session n'existe pas (ou plus).")
}

// ————— Vérification d'e-mail —————

/// Ce que donne un lien de vérification.
#[derive(Debug, Clone, Copy, PartialEq, Eq)]
pub enum IssueVerification {
    /// Lien absent, inconnu, ou déjà consommé sur un compte non vérifié.
    Invalide,
    /// Lien déjà consommé sur un compte vérifié (double clic) : succès.
    DejaVerifie,
    /// Lien périmé.
    Expire,
    /// Lien valide : il est consommé et l'e-mail marqué vérifié.
    AValider,
}

/// `jeton` : `None` sans jeton ou jeton inconnu ; sinon (déjà utilisé,
/// compte déjà vérifié, échéance).
pub open spec fn verification_attendue(jeton: Option<(bool, bool, i128)>, maintenant: i128) -> IssueVerification {
    match jeton {
        None => IssueVerification::Invalide,
        Some((utilise, compte_verifie, expire_a)) => if utilise {
            if compte_verifie { IssueVerification::DejaVerifie } else { IssueVerification::Invalide }
        } else if expire_a < maintenant {
            IssueVerification::Expire
        } else {
            IssueVerification::AValider
        },
    }
}

pub fn issue_verification(jeton: Option<(bool, bool, i128)>, maintenant: i128) -> (r: IssueVerification)
    ensures
        r == verification_attendue(jeton, maintenant),
{
    match jeton {
        None => IssueVerification::Invalide,
        Some((utilise, compte_verifie, expire_a)) => {
            if utilise {
                if compte_verifie {
                    IssueVerification::DejaVerifie
                } else {
                    IssueVerification::Invalide
                }
            } else if expire_a < maintenant {
                IssueVerification::Expire
            } else {
                IssueVerification::AValider
            }
        },
    }
}

pub open spec fn statut_attendu(issue: IssueVerification) -> Seq<char> {
    match issue {
        IssueVerification::Invalide => "invalide"@,
        IssueVerification::DejaVerifie => "ok"@,
        IssueVerification::Expire => "expire"@,
        IssueVerification::AValider => "ok"@,
    }
}

/// L'adresse de la page de résultat : `{base}/verification?statut={statut}`.
pub fn redirection_verification(base: &str, issue: IssueVerification) -> (r: String)
    ensures
        r@ == base@ + "/verification?statut="@ + statut_attendu(issue),
{
    let statut = match issue {
        IssueVerification::Invalide => "invalide",
        IssueVerification::DejaVerifie => "ok",
        IssueVerification::Expire => "expire",
        IssueVerification::AValider => "ok",
    };
    let a = concatener(base, "/verification?statut=");
    concatener(a.as_str(), statut)
}

/// Le lien envoyé par e-mail : `{base}/api/auth/verify-email?token={jeton}`.
pub fn lien_verification(base: &str, jeton: &str) -> (r: String)
    ensures
        r@ == base@ + "/api/auth/verify-email?token="@ + jeton@,
{
    let a = concatener(base, "/api/auth/verify-email?token=");
    concatener(a.as_str(), jeton)
}

/// L'échéance d'un lien de vérification créé maintenant : 24 heures.
pub fn echeance_verification(maintenant: i128) -> (r: i128)
    requires
        maintenant + VERIFICATION_TTL_HOURS * 3600 * NANOS_PAR_SECONDE <= i128::MAX,
    ensures
        r == maintenant + VERIFICATION_TTL_HOURS * 3600 * NANOS_PAR_SECONDE,
{
    maintenant + (VERIFICATION_TTL_HOURS as i128) * 3600 * NANOS_PAR_SECONDE
}

pub open spec fn erreur_renvoi_trop_rapide(e: ApiError) -> bool {
    est_erreur(
        e,
        GenreErreur::TropDeRequetes,
        "renvoi_trop_rapide"@,
        "On vient d'en envoyer un ! Regarde ta boîte, puis réessaie dans une minute."@,
    )
}

/// Un nouveau lien n'est envoyé qu'une minute après le précédent.
pub fn verifier_delai_renvoi(dernier_envoi: Option<i128>, maintenant: i128) -> (r: Result<(), ApiError>)
    requires
        dernier_envoi matches Some(t) ==> i128::MIN <= maintenant - t <= i128::MAX,
    ensures
        r is Ok <==> !(dernier_envoi matches Some(t) && maintenant - t < RESEND_COOLDOWN_SECONDS * NANOS_PAR_SECONDE),
        r matches Err(e) ==> erreur_renvoi_trop_rapide(e),
{
    match dernier_envoi {
        Some(t) => {
            if maintenant - t < (RESEND_COOLDOWN_SECONDS as i128) * NANOS_PAR_SECONDE {
                Err(ApiError::too_many(
                    "renvoi_trop_rapide",
                    "On vient d'en envoyer un ! Regarde ta boîte, puis réessaie dans une minute.",
                ))
            } else {
                Ok(())
            }
        },
        None => Ok(()),
    }
}

// ————— Télémétrie du front —————

/// Les seuls événements que le front peut tracer.
pub open spec fn evenement_du_front(nom: Seq<char>) -> bool {
    nom == "signup_started"@ || nom == "item_publish_started"@ || nom == "item_publish_abandoned"@
}

pub open spec fn erreur_evenement_inconnu(e: ApiError) -> bool {
    est_erreur(e, GenreErreur::RequeteInvalide, "evenement_inconnu"@, "Événement non autorisé."@)
}

pub fn verifier_evenement(nom: &str) -> (r: Result<(), ApiError>)
    ensures
        r is Ok <==> evenement_du_front(nom@),
        r matches Err(e) ==> erreur_evenement_inconnu(e),
{
    if meme_texte(nom, "signup_started") || meme_texte(nom, "item_publish_started") || meme_texte(nom, "item_publish_abandoned") {
        Ok(())
    } else {
        Err(ApiError::bad_request("evenement_inconnu", "Événement non autorisé."))
    }
}

// ————— Jeton d'accès —————

/// Les revendications du jeton d'accès : le membre, la session, l'émission
/// et l'échéance (secondes depuis l'époque).
pub struct ClaimsAcces {
    pub sub: String,
    pub sid: String,
    pub iat: i64,
    pub exp: i64,
}

/// Les revendications d'un jeton émis maintenant : identifiants écrits en
/// UUID, échéance 15 minutes plus tard.
pub fn claims_acces(user_id: u128, session_id: u128, maintenant: i64) -> (c: ClaimsAcces)
    requires
        maintenant + ACCESS_TOKEN_MINUTES * 60 <= i64::MAX,
    ensures
        c.sub@ == forme_uuid(user_id),
        c.sid@ == forme_uuid(session_id),
        uuid_lu(c.sub@) == Some(user_id),
        uuid_lu(c.sid@) == Some(session_id),
        c.iat == maintenant,
        c.exp == maintenant + ACCESS_TOKEN_MINUTES * 60,
{
    ClaimsAcces {
        sub: texte_uuid(user_id),
        sid: texte_uuid(session_id),
        iat: maintenant,
        exp: maintenant + ACCESS_TOKEN_MINUTES * 60,
    }
}

/// `uuid::Uuid::parse_str` : l'UUID lu dans le texte, s'il est dans un des
/// formats que la bibliothèque écrit.
pub uninterp spec fn uuid_lu(s: Seq<char>) -> Option<u128>;

/// `uuid::Uuid::parse_str(..).as_u128()`. La documentation promet que les
/// formats écrits par la bibliothèque se relisent, dont la forme à traits
/// d'union : relue, elle redonne l'identifiant.
#[verifier::external_body]
fn lire_uuid(s: &str) -> (r: Option<u128>)
    ensures
        r == uuid_lu(s@),
        forall|id: u128| s@ == forme_uuid(id) ==> r == Some(id),
{
    uuid::Uuid::parse_str(s).ok().map(|u| u.as_u128())
}

/// Le membre et la session d'un jeton d'accès dont la signature et
/// l'échéance ont été vérifiées ; rien si un identifiant ne se lit pas.
pub fn identite_du_jeton(sub: &str, sid: &str) -> (r: Option<(u128, u128)>)
    ensures
        r == (match (uuid_lu(sub@), uuid_lu(sid@)) {
            (Some(u), Some(s)) => Some((u, s)),
            _ => None,
        }),
        forall|u: u128, s: u128| sub@ == forme_uuid(u) && sid@ == forme_uuid(s) ==> r == Some((u, s)),
{
    match lire_uuid(sub) {
        Some(u) => match lire_uuid(sid) {
            Some(s) => Some((u, s)),
            None => None,
        },
        None => None,
    }
}

// ————— Signature et lecture du jeton d'accès (HS256) —————

/// `jsonwebtoken::encode` avec l'en-tête par défaut (HS256, `typ` JWT) et la
/// clé `EncodingKey::from_secret` du secret : le jeton signé des
/// revendications (`sub`, `sid`, `iat`, `exp`).
pub uninterp spec fn jeton_hs256(secret: Seq<char>, sub: Seq<char>, sid: Seq<char>, iat: int, exp: int) -> Seq<char>;

/// `jsonwebtoken::decode` d'un jeton avec la clé `DecodingKey::from_secret`
/// du secret et la validation par défaut (HS256, `exp` exigé), l'échéance
/// non comparée à l'horloge : les revendications `sub`, `sid` (textes),
/// `iat`, `exp` (entiers), si la signature est bonne et qu'elles y sont.
pub uninterp spec fn revendications_hs256(secret: Seq<char>, jeton: Seq<char>) -> Option<(Seq<char>, Seq<char>, int, int)>;

pub open spec fn vue_revendications(r: Option<(String, String, i64, i64)>) -> Option<(Seq<char>, Seq<char>, int, int)> {
    match r {
        Some((sub, sid, iat, exp)) => Some((sub@, sid@, iat as int, exp as int)),
        None => None,
    }
}

/// `jsonwebtoken::encode(&Header::default(), .., &EncodingKey::from_secret(..))`
/// sur un objet JSON des quatre revendications. Pour HS256 l'appel
/// n'échoue pas : la famille de la clé est celle de l'algorithme, un objet
/// JSON se sérialise toujours et la signature HMAC accepte toute clé. Le
/// jeton se relit avec le même secret : `decode` vérifie la signature
/// HMAC, trouve `exp` (entier positif ou nul) et n'a ni `aud` ni `iss` à
/// refuser. L'objet JSON range ses clés dans l'ordre alphabétique.
#[verifier::external_body]
fn signer_hs256(secret: &str, c: &ClaimsAcces) -> (r: Option<String>)
    ensures
        r is Some,
        r matches Some(j) ==> j@ == jeton_hs256(secret@, c.sub@, c.sid@, c.iat as int, c.exp as int),
        r matches Some(j) ==> (c.exp >= 0 ==> revendications_hs256(secret@, j@)
            == Some((c.sub@, c.sid@, c.iat as int, c.exp as int))),
{
    let mut objet = serde_json::Map::new();
    objet.insert("sub".to_string(), serde_json::Value::String(c.sub.clone()));
    objet.insert("sid".to_string(), serde_json::Value::String(c.sid.clone()));
    objet.insert("iat".to_string(), serde_json::Value::from(c.iat));
    objet.insert("exp".to_string(), serde_json::Value::from(c.exp));
    let cle = jsonwebtoken::EncodingKey::from_secret(secret.as_bytes());
    jsonwebtoken::encode(&jsonwebtoken::Header::default(), &serde_json::Value::Object(objet), &cle).ok()
}

/// `jsonwebtoken::decode::<serde_json::Value>` avec `DecodingKey::from_secret`
/// et la validation par défaut dont seule la comparaison de `exp` à
/// l'horloge est retirée (`validate_exp = false` ; `exp` reste exigé), puis
/// les revendications `sub`, `sid` (textes), `iat`, `exp` (entiers 64 bits)
/// lues dans l'objet ; `None` si l'une manque ou n'a pas ce type.
#[verifier::external_body]
fn lire_revendications(secret: &str, jeton: &str) -> (r: Option<(String, String, i64, i64)>)
    ensures
        vue_revendications(r) == revendications_hs256(secret@, jeton@),
{
    let mut validation = jsonwebtoken::Validation::default();
    validation.validate_exp = false;
    let cle = jsonwebtoken::DecodingKey::from_secret(secret.as_bytes());
    let lu = jsonwebtoken::decode::<serde_json::Value>(jeton, &cle, &validation).ok()?.claims;
    Some((
        lu.get("sub")?.as_str()?.to_string(),
        lu.get("sid")?.as_str()?.to_string(),
        lu.get("iat")?.as_i64()?,
        lu.get("exp")?.as_i64()?,
    ))
}

/// `chrono::Utc::now().timestamp()` : l'heure en secondes depuis l'époque.
/// Rien n'est dit de sa valeur.
#[verifier::external_body]
fn horodatage() -> (r: i64) {
    chrono::Utc::now().timestamp()
}

/// La marge accordée à l'échéance d'un jeton (celle de la validation par
/// défaut de `jsonwebtoken`), en secondes.
pub const MARGE_ECHEANCE_SECONDES: u64 = 60;

/// Le membre et la session d'un jeton aux revendications `rev`, lu à
/// l'instant `maintenant` : rien s'il est expiré (échéance plus de 60 s
/// passée) ou si un identifiant ne se lit pas.
pub open spec fn acces(rev: Option<(Seq<char>, Seq<char>, int, int)>, maintenant: u64) -> Option<(u128, u128)> {
    match rev {
        None => None,
        Some((sub, sid, _iat, exp)) => if exp < maintenant - MARGE_ECHEANCE_SECONDES {
            None
        } else {
            match (uuid_lu(sub), uuid_lu(sid)) {
                (Some(u), Some(s)) => Some((u, s)),
                _ => None,
            }
        },
    }
}

/// L'identité portée par des revendications vérifiées, à l'instant donné.
pub fn acces_valide(rev: Option<(String, String, i64, i64)>, maintenant: u64) -> (r: Option<(u128, u128)>)
    ensures
        r == acces(vue_revendications(rev), maintenant),
{
    match rev {
        None => None,
        Some((sub, sid, _iat, exp)) => {
            if (exp as i128) < (maintenant as i128) - (MARGE_ECHEANCE_SECONDES as i128) {
                None
            } else {
                identite_du_jeton(sub.as_str(), sid.as_str())
            }
        },
    }
}

/// `(membre, session)` si le jeton est signé avec ce secret et non expiré
/// à l'heure du système ; rien sinon (ni avant l'époque Unix).
pub fn decode_access(secret: &str, jeton: &str) -> (r: Option<(u128, u128)>)
    ensures
        revendications_hs256(secret@, jeton@) is None ==> r is None,
        r matches Some(x) ==> exists|t: u64| acces(revendications_hs256(secret@, jeton@), t) == Some(x),
{
    let rev = lire_revendications(secret, jeton);
    match crate::secrets::heure_systeme() {
        None => None,
        Some(maintenant) => acces_valide(rev, maintenant),
    }
}

/// Le jeton d'accès d'un membre et d'une session émis à l'instant
/// `maintenant` (secondes) : signé HS256, valable 15 minutes. Relu avec le
/// même secret à tout instant d'ici son échéance (marge comprise), il
/// redonne ce membre et cette session.
pub fn jeton_acces(secret: &str, user_id: u128, session_id: u128, maintenant: i64) -> (r: String)
    requires
        maintenant + ACCESS_TOKEN_MINUTES * 60 <= i64::MAX,
    ensures
        r@ == jeton_hs256(secret@, forme_uuid(user_id), forme_uuid(session_id), maintenant as int,
            maintenant + ACCESS_TOKEN_MINUTES * 60),
        maintenant >= 0 ==> forall|t: u64| t <= maintenant + ACCESS_TOKEN_MINUTES * 60 + MARGE_ECHEANCE_SECONDES
            ==> #[trigger] acces(revendications_hs256(secret@, r@), t) == Some((user_id, session_id)),
{
    let c = claims_acces(user_id, session_id, maintenant);
    match signer_hs256(secret, &c) {
        Some(j) => j,
        None => String::new(),
    }
}

/// Un jeton d'accès émis maintenant pour ce membre et cette session ; rien
/// si l'horloge est si loin que l'échéance ne tient plus sur 64 bits.
pub fn encode_access(secret: &str, user_id: u128, session_id: u128) -> (r: Option<String>)
    ensures
        r matches Some(j) ==> exists|maintenant: i64| j@ == #[trigger] jeton_hs256(secret@, forme_uuid(user_id),
            forme_uuid(session_id), maintenant as int, maintenant + ACCESS_TOKEN_MINUTES * 60),
{
    let maintenant = horodatage();
    if maintenant > i64::MAX - ACCESS_TOKEN_MINUTES * 60 {
        return None;
    }
    Some(jeton_acces(secret, user_id, session_id, maintenant))
}

// ————— Comptes et sessions lus en base —————

/// Le conflit d'unicité que la base signale à l'inscription ou à la mise à
/// jour du profil.
pub enum ConflitUnicite {
    EmailPris,
    PseudoPris,
    /// Une autre contrainte, avec le message de la base.
    Autre(String),
}

pub open spec fn reponse_unicite(violation: ConflitUnicite, e: ApiError) -> bool {
    match violation {
        ConflitUnicite::EmailPris => est_erreur(e, GenreErreur::Conflit, "email_pris"@,
            "Un compte existe déjà avec cet e-mail. Connecte-toi plutôt ?"@),
        ConflitUnicite::PseudoPris => est_erreur(e, GenreErreur::Conflit, "pseudo_pris"@,
            "Ce pseudo est déjà pris. Tente une variante ?"@),
        ConflitUnicite::Autre(m) => est_erreur(e, GenreErreur::Interne, "erreur_interne"@, m@),
    }
}

/// La réponse à un conflit d'unicité : e-mail ou pseudo déjà pris, sinon
/// une erreur interne.
pub fn map_unique(violation: ConflitUnicite) -> (e: ApiError)
    ensures
        reponse_unicite(violation, e),
{
    match violation {
        ConflitUnicite::EmailPris => ApiError::conflict(
            "email_pris",
            "Un compte existe déjà avec cet e-mail. Connecte-toi plutôt ?",
        ),
        ConflitUnicite::PseudoPris => ApiError::conflict("pseudo_pris", "Ce pseudo est déjà pris. Tente une variante ?"),
        ConflitUnicite::Autre(m) => ApiError::internal(m.as_str()),
    }
}

/// Un compte tel que la base le renvoie.
pub struct Utilisateur {
    pub id: u128,
    pub email: String,
    pub pseudo: String,
    pub postal_code: String,
    pub email_verified_at: Option<i128>,
    pub created_at: i128,
}

/// Le compte tel que le client le voit.
pub struct UserResponse {
    pub id: u128,
    pub email: String,
    pub pseudo: String,
    pub postal_code: String,
    pub email_verified: bool,
    pub created_at: i128,
}

impl From<Utilisateur> for UserResponse {
    fn from(user: Utilisateur) -> (r: UserResponse) {
        UserResponse {
            id: user.id,
            email: user.email,
            pseudo: user.pseudo,
            postal_code: user.postal_code,
            email_verified: user.email_verified_at.is_some(),
            created_at: user.created_at,
        }
    }
}

impl vstd::std_specs::convert::FromSpecImpl<Utilisateur> for UserResponse {
    open spec fn obeys_from_spec() -> bool {
        true
    }

    /// L'e-mail est vérifié dès qu'une date de vérification existe.
    open spec fn from_spec(user: Utilisateur) -> UserResponse {
        UserResponse {
            id: user.id,
            email: user.email,
            pseudo: user.pseudo,
            postal_code: user.postal_code,
            email_verified: user.email_verified_at is Some,
            created_at: user.created_at,
        }
    }
}

/// Une session telle que la base la renvoie.
pub struct SessionEnregistree {
    pub id: u128,
    pub user_agent: Option<String>,
    pub created_at: i128,
    pub last_used_at: i128,
}

/// Une session telle que le client la voit.
pub struct SessionResponse {
    pub id: u128,
    pub user_agent: Option<String>,
    pub created_at: i128,
    pub last_used_at: i128,
    /// `true` pour la session qui fait la requête.
    pub current: bool,
}

impl SessionResponse {
    /// La session vue du client : elle est courante quand c'est celle qui
    /// fait la requête.
    pub fn from_session(session: SessionEnregistree, current_session_id: u128) -> (r: SessionResponse)
        ensures
            r.id == session.id,
            r.user_agent == session.user_agent,
            r.created_at == session.created_at,
            r.last_used_at == session.last_used_at,
            r.current == (session.id == current_session_id),
    {
        SessionResponse {
            id: session.id,
            user_agent: session.user_agent,
            created_at: session.created_at,
            last_used_at: session.last_used_at,
            current: session.id == current_session_id,
        }
    }
}

} // verus!

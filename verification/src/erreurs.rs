//! Réponses d'erreur de l'API : genre HTTP, code stable et message affiché,
//! et traduction des erreurs métier en réponses.

use vstd::prelude::*;
use crate::admin::AdminError;
use crate::auth::ValidationError;
use crate::catalog::{self, CatalogError};
use crate::dispute::DisputeError;
use crate::review::ReviewError;
use crate::trade::{quotient_tronque, TradeError};

verus! {

/// Genre d'une erreur, qui fixe son statut HTTP.
#[derive(Debug, Clone, Copy, PartialEq, Eq)]
pub enum GenreErreur {
    /// 400
    RequeteInvalide,
    /// 401
    NonAutorise,
    /// 403
    Interdit,
    /// 404
    Introuvable,
    /// 409
    Conflit,
    /// 429
    TropDeRequetes,
    /// 500
    Interne,
}

/// Le statut HTTP d'un genre d'erreur.
pub open spec fn statut_de(genre: GenreErreur) -> u16 {
    match genre {
        GenreErreur::RequeteInvalide => 400,
        GenreErreur::NonAutorise => 401,
        GenreErreur::Interdit => 403,
        GenreErreur::Introuvable => 404,
        GenreErreur::Conflit => 409,
        GenreErreur::TropDeRequetes => 429,
        GenreErreur::Interne => 500,
    }
}

pub fn statut_http(genre: GenreErreur) -> (r: u16)
    ensures
        r == statut_de(genre),
{
    match genre {
        GenreErreur::RequeteInvalide => 400,
        GenreErreur::NonAutorise => 401,
        GenreErreur::Interdit => 403,
        GenreErreur::Introuvable => 404,
        GenreErreur::Conflit => 409,
        GenreErreur::TropDeRequetes => 429,
        GenreErreur::Interne => 500,
    }
}

/// Une erreur renvoyée au client : genre, code machine, message humain.
#[derive(Debug, Clone, PartialEq, Eq)]
pub struct ApiError {
    pub genre: GenreErreur,
    pub code: String,
    pub message: String,
}

/// L'erreur a ce genre, ce code et ce message.
pub open spec fn est_erreur(e: ApiError, genre: GenreErreur, code: Seq<char>, message: Seq<char>) -> bool {
    e.genre == genre && e.code@ == code && e.message@ == message
}

impl ApiError {
    pub fn nouvelle(genre: GenreErreur, code: &str, message: &str) -> (r: ApiError)
        ensures
            est_erreur(r, genre, code@, message@),
    {
        ApiError { genre, code: code.to_owned(), message: message.to_owned() }
    }

    /// Requête invalide (400).
    pub fn bad_request(code: &str, message: &str) -> (r: ApiError)
        ensures
            est_erreur(r, GenreErreur::RequeteInvalide, code@, message@),
    {
        ApiError::nouvelle(GenreErreur::RequeteInvalide, code, message)
    }

    /// Action interdite (403).
    pub fn forbidden(code: &str, message: &str) -> (r: ApiError)
        ensures
            est_erreur(r, GenreErreur::Interdit, code@, message@),
    {
        ApiError::nouvelle(GenreErreur::Interdit, code, message)
    }

    /// Authentification requise (401).
    pub fn unauthorized(message: &str) -> (r: ApiError)
        ensures
            est_erreur(r, GenreErreur::NonAutorise, "non_authentifie"@, message@),
    {
        ApiError::nouvelle(GenreErreur::NonAutorise, "non_authentifie", message)
    }

    /// Ressource absente (404).
    pub fn not_found(message: &str) -> (r: ApiError)
        ensures
            est_erreur(r, GenreErreur::Introuvable, "introuvable"@, message@),
    {
        ApiError::nouvelle(GenreErreur::Introuvable, "introuvable", message)
    }

    /// Trop de requêtes (429).
    pub fn too_many(code: &str, message: &str) -> (r: ApiError)
        ensures
            est_erreur(r, GenreErreur::TropDeRequetes, code@, message@),
    {
        ApiError::nouvelle(GenreErreur::TropDeRequetes, code, message)
    }

    /// Erreur interne (500) : le message est pour le journal.
    pub fn internal(message: &str) -> (r: ApiError)
        ensures
            est_erreur(r, GenreErreur::Interne, "erreur_interne"@, message@),
    {
        ApiError::nouvelle(GenreErreur::Interne, "erreur_interne", message)
    }

    /// Conflit d'état (409).
    pub fn conflict(code: &str, message: &str) -> (r: ApiError)
        ensures
            est_erreur(r, GenreErreur::Conflit, code@, message@),
    {
        ApiError::nouvelle(GenreErreur::Conflit, code, message)
    }
}

/// Le caractère du chiffre décimal `d` (0–9).
pub open spec fn car_chiffre(d: nat) -> char {
    ((48 + d) as u32) as char
}

/// Écriture décimale d'un entier positif ou nul, sans zéro de tête.
pub open spec fn decimal(n: nat) -> Seq<char>
    decreases n,
{
    if n < 10 {
        seq![car_chiffre(n)]
    } else {
        decimal(n / 10).push(car_chiffre(n % 10))
    }
}

/// Écriture décimale d'un entier signé (comme `format!("{}", n)`).
pub open spec fn decimal_signe(n: int) -> Seq<char> {
    if n < 0 {
        seq!['-'] + decimal((-n) as nat)
    } else {
        decimal(n as nat)
    }
}

fn ecrire_decimal(n: u64, s: &mut String)
    ensures
        final(s)@ == old(s)@ + decimal(n as nat),
    decreases n,
{
    if n >= 10 {
        ecrire_decimal(n / 10, s);
    }
    let d = (n % 10) as u8;
    let c = (48u8 + d) as char;
    assert(c == car_chiffre((n % 10) as nat));
    s.push(c);
    if n >= 10 {
        assert(old(s)@ + decimal(n as nat) =~= old(s)@ + decimal((n / 10) as nat) + seq![c]);
    } else {
        assert(old(s)@ + decimal(n as nat) =~= old(s)@.push(c));
    }
}

/// Écriture décimale d'un `i32`.
pub fn texte_entier(n: i32) -> (r: String)
    ensures
        r@ == decimal_signe(n as int),
{
    let mut s = String::new();
    if n < 0 {
        s.push('-');
        let m: u64 = if n == i32::MIN { 2_147_483_648u64 } else { (-n) as u64 };
        ecrire_decimal(m, &mut s);
    } else {
        ecrire_decimal(n as u64, &mut s);
    }
    s
}

/// Écriture décimale d'un `i64`.
pub fn texte_entier_64(n: i64) -> (r: String)
    ensures
        r@ == decimal_signe(n as int),
{
    let mut s = String::new();
    if n < 0 {
        s.push('-');
        let m: u64 = if n == i64::MIN { 9_223_372_036_854_775_808u64 } else { (-n) as u64 };
        ecrire_decimal(m, &mut s);
    } else {
        ecrire_decimal(n as u64, &mut s);
    }
    s
}

/// Écriture décimale d'un entier positif ou nul.
pub fn texte_naturel(n: u64) -> (r: String)
    ensures
        r@ == decimal(n as nat),
{
    let mut s = String::new();
    ecrire_decimal(n, &mut s);
    assert(s@ =~= decimal(n as nat));
    s
}

/// Traduction d'une erreur de composition de troc.
pub open spec fn reponse_troc(erreur: TradeError, r: ApiError) -> bool {
    match erreur {
        TradeError::ObjetsManquants => est_erreur(r, GenreErreur::RequeteInvalide, "objets_manquants"@,
            "Choisis au moins un objet de chaque côté."@),
        TradeError::TropDObjets => est_erreur(r, GenreErreur::RequeteInvalide, "trop_dobjets"@,
            "Dix objets par côté maximum."@),
        TradeError::SoulteTropHaute(plafond) => est_erreur(r, GenreErreur::RequeteInvalide, "soulte_trop_haute"@,
            "La soulte est plafonnée à "@ + decimal_signe(quotient_tronque(plafond as int, 100))
                + " € — 50 % de la valeur du meilleur objet."@),
        TradeError::SoulteIncoherente => est_erreur(r, GenreErreur::RequeteInvalide, "soulte_incoherente"@,
            "Indique un montant et qui l'ajoute — ou pas de soulte du tout."@),
        TradeError::TransitionInterdite => est_erreur(r, GenreErreur::RequeteInvalide, "transition_interdite"@,
            "Cette proposition n'est plus ouverte."@),
    }
}

pub fn map_trade_error(error: TradeError) -> (r: ApiError)
    ensures
        reponse_troc(error, r),
{
    match error {
        TradeError::ObjetsManquants => ApiError::bad_request(
            "objets_manquants",
            "Choisis au moins un objet de chaque côté.",
        ),
        TradeError::TropDObjets => ApiError::bad_request("trop_dobjets", "Dix objets par côté maximum."),
        TradeError::SoulteTropHaute(plafond) => {
            let mut message = "La soulte est plafonnée à ".to_owned();
            let montant = texte_entier(plafond / 100);
            let mut i: usize = 0;
            let chiffres = crate::texte::caracteres(montant.as_str());
            let ghost debut = message@;
            while i < chiffres.len()
                invariant
                    i <= chiffres@.len(),
                    message@ == debut + chiffres@.take(i as int),
                decreases chiffres.len() - i,
            {
                message.push(chiffres[i]);
                i = i + 1;
                assert(message@ =~= debut + chiffres@.take(i as int));
            }
            assert(chiffres@.take(i as int) =~= chiffres@);
            let fin = crate::texte::caracteres(" € — 50 % de la valeur du meilleur objet.");
            let ghost milieu = message@;
            let mut j: usize = 0;
            while j < fin.len()
                invariant
                    j <= fin@.len(),
                    message@ == milieu + fin@.take(j as int),
                decreases fin.len() - j,
            {
                message.push(fin[j]);
                j = j + 1;
                assert(message@ =~= milieu + fin@.take(j as int));
            }
            assert(fin@.take(j as int) =~= fin@);
            ApiError { genre: GenreErreur::RequeteInvalide, code: "soulte_trop_haute".to_owned(), message }
        },
        TradeError::SoulteIncoherente => ApiError::bad_request(
            "soulte_incoherente",
            "Indique un montant et qui l'ajoute — ou pas de soulte du tout.",
        ),
        TradeError::TransitionInterdite => ApiError::bad_request(
            "transition_interdite",
            "Cette proposition n'est plus ouverte.",
        ),
    }
}

/// Traduction d'une erreur de validation d'objet.
pub open spec fn reponse_catalogue(erreur: CatalogError, r: ApiError) -> bool {
    match erreur {
        CatalogError::TitreInvalide => est_erreur(r, GenreErreur::RequeteInvalide, "titre_invalide"@,
            "Le titre doit faire entre 3 et 80 caractères."@),
        CatalogError::DescriptionInvalide => est_erreur(r, GenreErreur::RequeteInvalide, "description_invalide"@,
            "Décris ton objet en 10 à 2 000 caractères."@),
        CatalogError::ValeurInvalide => est_erreur(r, GenreErreur::RequeteInvalide, "valeur_invalide"@,
            "Indique une valeur entre 1 et 2 000 € — une estimation honnête suffit."@),
        CatalogError::EtatInconnu => est_erreur(r, GenreErreur::RequeteInvalide, "etat_inconnu"@,
            "Choisis l'état de ton objet."@),
        CatalogError::RemiseInconnue => est_erreur(r, GenreErreur::RequeteInvalide, "remise_inconnue"@,
            "Choisis un mode de remise."@),
        CatalogError::PhotosInvalides => est_erreur(r, GenreErreur::RequeteInvalide, "photos_invalides"@,
            "Ajoute entre 1 et 8 photos."@),
        CatalogError::StatutInterdit => est_erreur(r, GenreErreur::RequeteInvalide, "statut_interdit"@,
            "Tu peux seulement masquer ou remettre en ligne ton objet."@),
    }
}

pub fn map_catalog_error(error: CatalogError) -> (r: ApiError)
    ensures
        reponse_catalogue(error, r),
{
    match error {
        CatalogError::TitreInvalide => ApiError::bad_request(
            "titre_invalide",
            "Le titre doit faire entre 3 et 80 caractères.",
        ),
        CatalogError::DescriptionInvalide => ApiError::bad_request(
            "description_invalide",
            "Décris ton objet en 10 à 2 000 caractères.",
        ),
        CatalogError::ValeurInvalide => ApiError::bad_request(
            "valeur_invalide",
            "Indique une valeur entre 1 et 2 000 € — une estimation honnête suffit.",
        ),
        CatalogError::EtatInconnu => ApiError::bad_request("etat_inconnu", "Choisis l'état de ton objet."),
        CatalogError::RemiseInconnue => ApiError::bad_request("remise_inconnue", "Choisis un mode de remise."),
        CatalogError::PhotosInvalides => ApiError::bad_request("photos_invalides", "Ajoute entre 1 et 8 photos."),
        CatalogError::StatutInterdit => ApiError::bad_request(
            "statut_interdit",
            "Tu peux seulement masquer ou remettre en ligne ton objet.",
        ),
    }
}

/// Traduction d'une erreur de validation d'inscription.
pub open spec fn reponse_validation(erreur: ValidationError, r: ApiError) -> bool {
    match erreur {
        ValidationError::EmailInvalide => est_erreur(r, GenreErreur::RequeteInvalide, "email_invalide"@,
            "Il nous faut un e-mail valide pour t'envoyer le lien de vérification."@),
        ValidationError::MotDePasseTropCourt => est_erreur(r, GenreErreur::RequeteInvalide, "mot_de_passe_trop_court"@,
            "Encore un effort : 8 caractères minimum."@),
        ValidationError::PseudoInvalide => est_erreur(r, GenreErreur::RequeteInvalide, "pseudo_invalide"@,
            "3 à 30 caractères, lettres, chiffres, tirets ou underscore."@),
        ValidationError::CodePostalInvalide => est_erreur(r, GenreErreur::RequeteInvalide, "code_postal_invalide"@,
            "Un code postal à 5 chiffres, comme 44000."@),
    }
}

pub fn map_validation(error: ValidationError) -> (r: ApiError)
    ensures
        reponse_validation(error, r),
{
    match error {
        ValidationError::EmailInvalide => ApiError::bad_request(
            "email_invalide",
            "Il nous faut un e-mail valide pour t'envoyer le lien de vérification.",
        ),
        ValidationError::MotDePasseTropCourt => ApiError::bad_request(
            "mot_de_passe_trop_court",
            "Encore un effort : 8 caractères minimum.",
        ),
        ValidationError::PseudoInvalide => ApiError::bad_request(
            "pseudo_invalide",
            "3 à 30 caractères, lettres, chiffres, tirets ou underscore.",
        ),
        ValidationError::CodePostalInvalide => ApiError::bad_request(
            "code_postal_invalide",
            "Un code postal à 5 chiffres, comme 44000.",
        ),
    }
}

/// Traduction d'un refus d'habilitation.
pub open spec fn reponse_admin(erreur: AdminError, r: ApiError) -> bool {
    match erreur {
        AdminError::RoleInvalide => est_erreur(r, GenreErreur::RequeteInvalide, "role_invalide"@,
            "Les rôles possibles sont : utilisateur, admin, super_admin."@),
        AdminError::NiveauInsuffisant => est_erreur(r, GenreErreur::Interdit, "super_admin_requis"@,
            "Seul un super-administrateur gère les rôles."@),
        AdminError::CompteMaitre => est_erreur(r, GenreErreur::Interdit, "compte_maitre"@,
            "Le compte maître ne peut être ni rétrogradé ni sanctionné."@),
        AdminError::SoiMeme => est_erreur(r, GenreErreur::Interdit, "soi_meme"@,
            "On ne modifie pas son propre rôle — demande à un autre super-administrateur."@),
    }
}

pub fn map_admin_error(error: AdminError) -> (r: ApiError)
    ensures
        reponse_admin(error, r),
{
    match error {
        AdminError::RoleInvalide => ApiError::bad_request(
            "role_invalide",
            "Les rôles possibles sont : utilisateur, admin, super_admin.",
        ),
        AdminError::NiveauInsuffisant => ApiError::forbidden(
            "super_admin_requis",
            "Seul un super-administrateur gère les rôles.",
        ),
        AdminError::CompteMaitre => ApiError::forbidden(
            "compte_maitre",
            "Le compte maître ne peut être ni rétrogradé ni sanctionné.",
        ),
        AdminError::SoiMeme => ApiError::forbidden(
            "soi_meme",
            "On ne modifie pas son propre rôle — demande à un autre super-administrateur.",
        ),
    }
}

/// Traduction d'une erreur d'ouverture de dossier.
pub open spec fn reponse_litige(erreur: DisputeError, r: ApiError) -> bool {
    match erreur {
        DisputeError::MotifInconnu => est_erreur(r, GenreErreur::RequeteInvalide, "motif_inconnu"@,
            "Ce motif de litige n'existe pas."@),
        DisputeError::DescriptionInvalide => est_erreur(r, GenreErreur::RequeteInvalide, "description_invalide"@,
            "Décris le problème (1000 caractères max)."@),
        DisputeError::TropDePieces => est_erreur(r, GenreErreur::RequeteInvalide, "trop_de_pieces"@,
            "5 photos maximum par dossier."@),
        DisputeError::HorsFenetre => est_erreur(r, GenreErreur::RequeteInvalide, "hors_fenetre"@,
            "Ce troc ne peut pas (ou plus) faire l'objet d'un dossier : la fenêtre de signalement est close."@),
    }
}

pub fn map_dispute_error(error: DisputeError) -> (r: ApiError)
    ensures
        reponse_litige(error, r),
{
    match error {
        DisputeError::MotifInconnu => ApiError::bad_request("motif_inconnu", "Ce motif de litige n'existe pas."),
        DisputeError::DescriptionInvalide => ApiError::bad_request(
            "description_invalide",
            "Décris le problème (1000 caractères max).",
        ),
        DisputeError::TropDePieces => ApiError::bad_request("trop_de_pieces", "5 photos maximum par dossier."),
        DisputeError::HorsFenetre => ApiError::bad_request(
            "hors_fenetre",
            "Ce troc ne peut pas (ou plus) faire l'objet d'un dossier : la fenêtre de signalement est close.",
        ),
    }
}

/// Traduction d'une erreur d'évaluation.
pub open spec fn reponse_evaluation(erreur: ReviewError, r: ApiError) -> bool {
    match erreur {
        ReviewError::NoteHorsBornes => est_erreur(r, GenreErreur::RequeteInvalide, "note_invalide"@,
            "La note va de 1 à 5 étoiles."@),
        ReviewError::CommentaireTropLong => est_erreur(r, GenreErreur::RequeteInvalide, "commentaire_trop_long"@,
            "Le commentaire est limité à 500 caractères."@),
        ReviewError::TrocNonFinalise => est_erreur(r, GenreErreur::RequeteInvalide, "troc_non_finalise"@,
            "On ne note qu'un troc finalisé."@),
    }
}

pub fn map_review_error(error: ReviewError) -> (r: ApiError)
    ensures
        reponse_evaluation(error, r),
{
    match error {
        ReviewError::NoteHorsBornes => ApiError::bad_request("note_invalide", "La note va de 1 à 5 étoiles."),
        ReviewError::CommentaireTropLong => ApiError::bad_request(
            "commentaire_trop_long",
            "Le commentaire est limité à 500 caractères.",
        ),
        ReviewError::TrocNonFinalise => ApiError::bad_request("troc_non_finalise", "On ne note qu'un troc finalisé."),
    }
}

/// La première erreur des contrôles d'un objet, dans l'ordre : titre,
/// description, état, valeur, mode de remise.
pub open spec fn premiere_erreur_objet(
    title: Seq<char>,
    description: Seq<char>,
    condition: Seq<char>,
    value_cents: i32,
    delivery_pref: Seq<char>,
) -> Option<CatalogError> {
    if !(3 <= crate::texte::rogne(title).len() <= 80) {
        Some(CatalogError::TitreInvalide)
    } else if !(10 <= crate::texte::rogne(description).len() <= 2000) {
        Some(CatalogError::DescriptionInvalide)
    } else if !catalog::condition_connue(condition) {
        Some(CatalogError::EtatInconnu)
    } else if !(catalog::VALEUR_MIN_CENTS <= value_cents <= catalog::VALEUR_MAX_CENTS) {
        Some(CatalogError::ValeurInvalide)
    } else if !catalog::remise_connue(delivery_pref) {
        Some(CatalogError::RemiseInconnue)
    } else {
        None
    }
}

/// Les champs d'un objet publié ou modifié, validés dans l'ordre du
/// formulaire ; la première erreur devient la réponse.
pub fn valider_champs_objet(
    title: &str,
    description: &str,
    condition: &str,
    value_cents: i32,
    delivery_pref: &str,
) -> (r: Result<(), ApiError>)
    ensures
        match premiere_erreur_objet(title@, description@, condition@, value_cents, delivery_pref@) {
            None => r is Ok,
            Some(e) => r matches Err(api) && reponse_catalogue(e, api),
        },
{
    if let Err(e) = catalog::valider_titre(title) {
        return Err(map_catalog_error(e));
    }
    if let Err(e) = catalog::valider_description(description) {
        return Err(map_catalog_error(e));
    }
    if let Err(e) = catalog::valider_condition(condition) {
        return Err(map_catalog_error(e));
    }
    if let Err(e) = catalog::valider_valeur(value_cents) {
        return Err(map_catalog_error(e));
    }
    if let Err(e) = catalog::valider_remise(delivery_pref) {
        return Err(map_catalog_error(e));
    }
    Ok(())
}

} // verus!

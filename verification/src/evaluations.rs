//! Dépôt d'une évaluation et réponse publique : contrôles dans l'ordre de
//! l'écran, commentaire retenu, refus renvoyés au client.

use vstd::prelude::*;
use crate::erreurs::{est_erreur, map_review_error, reponse_evaluation, ApiError, GenreErreur};
use crate::review::{self, ReviewError, COMMENTAIRE_MAX, NOTE_MAX, NOTE_MIN};
use crate::texte::{nettoye, nettoyer, rogne, rogner, vue_facultative, vue_possedee};

verus! {

/// Le premier refus d'une évaluation, dans l'ordre : troc non finalisé,
/// note hors de 1–5, commentaire de plus de 500 caractères une fois rogné
/// (il est refusé, pas tronqué).
pub open spec fn refus_evaluation(status: Seq<char>, note: i16, commentaire: Option<Seq<char>>) -> Option<ReviewError> {
    if status != "finalise"@ {
        Some(ReviewError::TrocNonFinalise)
    } else if !(NOTE_MIN <= note <= NOTE_MAX) {
        Some(ReviewError::NoteHorsBornes)
    } else {
        match nettoye(commentaire) {
            Some(s) => if s.len() > COMMENTAIRE_MAX {
                Some(ReviewError::CommentaireTropLong)
            } else {
                None
            },
            None => None,
        }
    }
}

/// Contrôle une évaluation avant son dépôt ; en cas de succès, le
/// commentaire à enregistrer.
pub fn verifier_evaluation(status: &str, note: i16, commentaire: Option<&str>) -> (r: Result<Option<String>, ApiError>)
    ensures
        r is Ok <==> refus_evaluation(status@, note, vue_facultative(commentaire)) is None,
        r matches Ok(c) ==> vue_possedee(c) == nettoye(vue_facultative(commentaire)),
        r matches Err(e) ==> (refus_evaluation(status@, note, vue_facultative(commentaire)) matches Some(refus)
            && reponse_evaluation(refus, e)),
{
    if let Err(e) = review::peut_noter(status) {
        return Err(map_review_error(e));
    }
    if let Err(e) = review::valider_note(note) {
        return Err(map_review_error(e));
    }
    let retenu = nettoyer(commentaire);
    if let Some(c) = &retenu {
        if let Err(e) = review::valider_commentaire(c.as_str()) {
            return Err(map_review_error(e));
        }
    }
    Ok(retenu)
}

pub open spec fn erreur_deja_note(e: ApiError) -> bool {
    est_erreur(
        e,
        GenreErreur::Conflit,
        "deja_note"@,
        "Tu as déjà noté ce troc — une seule évaluation par échange."@,
    )
}

/// Le refus d'une seconde évaluation du même troc par la même personne.
pub fn deja_note() -> (e: ApiError)
    ensures
        erreur_deja_note(e),
{
    ApiError::conflict("deja_note", "Tu as déjà noté ce troc — une seule évaluation par échange.")
}

/// Une réponse publique retenue : rognée, de 1 à 500 caractères.
pub open spec fn reponse_acceptable(reponse: Seq<char>) -> bool {
    0 < rogne(reponse).len() <= COMMENTAIRE_MAX
}

pub open spec fn erreur_reponse_invalide(e: ApiError) -> bool {
    est_erreur(e, GenreErreur::RequeteInvalide, "reponse_invalide"@, "Une réponse fait entre 1 et 500 caractères."@)
}

/// Contrôle la réponse à une évaluation ; en cas de succès, le texte rogné.
pub fn verifier_reponse_avis(reponse: &str) -> (r: Result<String, ApiError>)
    ensures
        r is Ok <==> reponse_acceptable(reponse@),
        r matches Ok(t) ==> t@ == rogne(reponse@),
        r matches Err(e) ==> erreur_reponse_invalide(e),
{
    let t = rogner(reponse);
    let n = t.unicode_len();
    if n == 0 || n > COMMENTAIRE_MAX {
        Err(ApiError::bad_request("reponse_invalide", "Une réponse fait entre 1 et 500 caractères."))
    } else {
        Ok(t.to_owned())
    }
}

pub open spec fn erreur_reponse_impossible(e: ApiError) -> bool {
    est_erreur(
        e,
        GenreErreur::RequeteInvalide,
        "reponse_impossible"@,
        "Cette évaluation n'existe pas, n'est pas publiée, ou a déjà sa réponse."@,
    )
}

/// Le refus quand la base n'a rien mis à jour : évaluation absente, non
/// publiée, pas la mienne, ou déjà répondue.
pub fn reponse_impossible() -> (e: ApiError)
    ensures
        erreur_reponse_impossible(e),
{
    ApiError::bad_request(
        "reponse_impossible",
        "Cette évaluation n'existe pas, n'est pas publiée, ou a déjà sa réponse.",
    )
}

} // verus!

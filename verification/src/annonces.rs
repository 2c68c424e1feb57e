//! Publication et gestion des annonces : refus renvoyés, clés de stockage
//! des photos, champs retenus d'une annonce, blocage entre membres.

use vstd::prelude::*;
use crate::dispute::PIECES_MAX;
use crate::erreurs::{est_erreur, ApiError, GenreErreur};
use crate::jetons::{forme_uuid, texte_uuid};
use crate::texte::{concatener, rogne, rogner, texte_facultatif, texte_facultatif_exec, vue_facultative};

verus! {

/// Longueur gardée des souhaits d'échange d'une annonce.
pub const SOUHAITS_MAX: usize = 300;

pub open spec fn erreur_email_non_verifie(e: ApiError) -> bool {
    est_erreur(e, GenreErreur::Interdit, "email_non_verifie"@, "Vérifie ton e-mail pour publier — regarde ta boîte mail."@)
}

/// Publier (ou présigner des photos) demande un e-mail vérifié.
pub fn exiger_email_verifie(verifie: bool) -> (r: Result<(), ApiError>)
    ensures
        r is Ok <==> verifie,
        r matches Err(e) ==> erreur_email_non_verifie(e),
{
    if verifie {
        Ok(())
    } else {
        Err(ApiError::forbidden("email_non_verifie", "Vérifie ton e-mail pour publier — regarde ta boîte mail."))
    }
}

/// La catégorie d'une annonce n'existe pas.
pub fn categorie_inconnue() -> (e: ApiError)
    ensures
        est_erreur(e, GenreErreur::RequeteInvalide, "categorie_inconnue"@,
            "Choisis une catégorie pour que ton objet soit trouvable."@),
{
    ApiError::bad_request("categorie_inconnue", "Choisis une catégorie pour que ton objet soit trouvable.")
}

/// Une catégorie de la liste d'envies n'existe pas.
pub fn categorie_envie_inconnue() -> (e: ApiError)
    ensures
        est_erreur(e, GenreErreur::RequeteInvalide, "categorie_inconnue"@, "Une des catégories choisies n'existe pas."@),
{
    ApiError::bad_request("categorie_inconnue", "Une des catégories choisies n'existe pas.")
}

/// Une photo d'annonce demandée n'a pas d'envoi à ce membre.
pub fn photo_inconnue() -> (e: ApiError)
    ensures
        est_erreur(e, GenreErreur::RequeteInvalide, "photo_inconnue"@, "Une des photos n'a pas été trouvée. Réessaie l'envoi."@),
{
    ApiError::bad_request("photo_inconnue", "Une des photos n'a pas été trouvée. Réessaie l'envoi.")
}

/// Une photo d'annonce n'est pas encore arrivée dans le stockage.
pub fn photo_manquante() -> (e: ApiError)
    ensures
        est_erreur(e, GenreErreur::RequeteInvalide, "photo_manquante"@,
            "L'envoi d'une photo n'est pas terminé. Touche la photo pour réessayer."@),
{
    ApiError::bad_request("photo_manquante", "L'envoi d'une photo n'est pas terminé. Touche la photo pour réessayer.")
}

/// La photo jointe à un message n'a pas d'envoi à ce membre.
pub fn photo_message_inconnue() -> (e: ApiError)
    ensures
        est_erreur(e, GenreErreur::RequeteInvalide, "photo_inconnue"@, "La photo n'a pas été trouvée. Réessaie l'envoi."@),
{
    ApiError::bad_request("photo_inconnue", "La photo n'a pas été trouvée. Réessaie l'envoi.")
}

/// La photo jointe à un message n'est pas encore arrivée dans le stockage.
pub fn photo_message_manquante() -> (e: ApiError)
    ensures
        est_erreur(e, GenreErreur::RequeteInvalide, "photo_manquante"@,
            "L'envoi de la photo n'est pas terminé. Réessaie dans un instant."@),
{
    ApiError::bad_request("photo_manquante", "L'envoi de la photo n'est pas terminé. Réessaie dans un instant.")
}

/// L'annonce n'existe pas, plus, ou n'est pas visible du lecteur.
pub fn objet_introuvable() -> (e: ApiError)
    ensures
        est_erreur(e, GenreErreur::Introuvable, "introuvable"@, "Cet objet n'existe pas (ou plus)."@),
{
    ApiError::not_found("Cet objet n'existe pas (ou plus).")
}

/// Le profil public demandé n'existe pas.
pub fn profil_introuvable() -> (e: ApiError)
    ensures
        est_erreur(e, GenreErreur::Introuvable, "introuvable"@, "Ce troqueur n'existe pas — ou a plié bagage."@),
{
    ApiError::not_found("Ce troqueur n'existe pas — ou a plié bagage.")
}

/// Le lecteur est-il le propriétaire de l'annonce ? Faux pour un visiteur anonyme.
pub fn est_proprietaire(lecteur: Option<u128>, proprietaire: u128) -> (r: bool)
    ensures
        r == (lecteur == Some(proprietaire)),
{
    match lecteur {
        Some(l) => l == proprietaire,
        None => false,
    }
}

/// La clé de stockage d'une photo d'annonce : `items/{uuid}.{extension}`.
pub fn cle_photo(photo_id: u128, extension: &str) -> (r: String)
    ensures
        r@ == "items/"@ + forme_uuid(photo_id) + "."@ + extension@,
{
    let id = texte_uuid(photo_id);
    let a = concatener("items/", id.as_str());
    let b = concatener(a.as_str(), ".");
    concatener(b.as_str(), extension)
}

/// La clé de stockage d'une pièce de dossier : `litiges/{troc}/{uuid}.{extension}`.
pub fn cle_piece(troc_id: u128, photo_id: u128, extension: &str) -> (r: String)
    ensures
        r@ == "litiges/"@ + forme_uuid(troc_id) + "/"@ + forme_uuid(photo_id) + "."@ + extension@,
{
    let troc = texte_uuid(troc_id);
    let photo = texte_uuid(photo_id);
    let a = concatener("litiges/", troc.as_str());
    let b = concatener(a.as_str(), "/");
    let c = concatener(b.as_str(), photo.as_str());
    let d = concatener(c.as_str(), ".");
    concatener(d.as_str(), extension)
}

pub open spec fn erreur_trop_de_pieces(e: ApiError) -> bool {
    est_erreur(e, GenreErreur::RequeteInvalide, "trop_de_pieces"@, "5 photos maximum par dossier."@)
}

/// Un dossier reçoit de une à cinq pièces par envoi.
pub fn verifier_nombre_pieces(n: usize) -> (r: Result<(), ApiError>)
    ensures
        r is Ok <==> 1 <= n <= PIECES_MAX,
        r matches Err(e) ==> erreur_trop_de_pieces(e),
{
    if n == 0 || n > PIECES_MAX {
        Err(ApiError::bad_request("trop_de_pieces", "5 photos maximum par dossier."))
    } else {
        Ok(())
    }
}

/// Les champs textuels retenus d'une annonce : titre et description
/// rognés, souhaits d'échange rognés, écartés s'ils sont vides, tronqués
/// à 300 caractères.
pub fn champs_retenus(titre: &str, description: &str, souhaits: Option<&str>) -> (r: (String, String, Option<String>))
    ensures
        r.0@ == rogne(titre@),
        r.1@ == rogne(description@),
        r.2.is_some() == texte_facultatif(vue_facultative(souhaits), SOUHAITS_MAX as nat).is_some(),
        r.2 matches Some(s) ==> texte_facultatif(vue_facultative(souhaits), SOUHAITS_MAX as nat) == Some(s@),
{
    (rogner(titre).to_owned(), rogner(description).to_owned(), texte_facultatif_exec(souhaits, SOUHAITS_MAX))
}

/// Une modification qui ne dit rien de la soulte garde le choix actuel.
pub fn soulte_acceptee(demande: Option<bool>, actuelle: bool) -> (r: bool)
    ensures
        r == (match demande {
            Some(b) => b,
            None => actuelle,
        }),
{
    match demande {
        Some(b) => b,
        None => actuelle,
    }
}

pub open spec fn erreur_auto_blocage(e: ApiError) -> bool {
    est_erreur(e, GenreErreur::RequeteInvalide, "auto_blocage"@, "Se bloquer soi-même, c'est de la méditation — pas du troc."@)
}

/// On ne se bloque pas soi-même.
pub fn verifier_blocage(cible: u128, moi: u128) -> (r: Result<(), ApiError>)
    ensures
        r is Ok <==> cible != moi,
        r matches Err(e) ==> erreur_auto_blocage(e),
{
    if cible == moi {
        Err(ApiError::bad_request("auto_blocage", "Se bloquer soi-même, c'est de la méditation — pas du troc."))
    } else {
        Ok(())
    }
}

} // verus!

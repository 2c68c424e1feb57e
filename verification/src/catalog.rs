//! Règles du catalogue : validation d'un objet et statuts posables à la main.

use vstd::prelude::*;
use crate::texte::{caracteres, meme_texte, rogne, rogner};

verus! {

/// Erreurs de validation d'un objet.
#[derive(Debug, Clone, Copy, PartialEq, Eq)]
pub enum CatalogError {
    TitreInvalide,
    DescriptionInvalide,
    ValeurInvalide,
    EtatInconnu,
    RemiseInconnue,
    PhotosInvalides,
    StatutInterdit,
}

pub const VALEUR_MIN_CENTS: i32 = 100;
/// Plafond produit 2 000 € : borne le plafond de soulte (50 %).
pub const VALEUR_MAX_CENTS: i32 = 200_000;
pub const PHOTOS_MIN: usize = 1;
pub const PHOTOS_MAX: usize = 8;

pub const CONDITIONS: [&'static str; 4] = ["neuf", "tres_bon_etat", "bon_etat", "correct"];
pub const REMISES: [&'static str; 3] = ["main_propre", "envoi", "les_deux"];

/// États d'un objet reconnus.
pub open spec fn condition_connue(c: Seq<char>) -> bool {
    c == "neuf"@ || c == "tres_bon_etat"@ || c == "bon_etat"@ || c == "correct"@
}

/// Modes de remise reconnus pour un objet.
pub open spec fn remise_connue(r: Seq<char>) -> bool {
    r == "main_propre"@ || r == "envoi"@ || r == "les_deux"@
}

/// Transitions que l'utilisateur peut poser lui-même : rester dans le même
/// statut, ou basculer entre `disponible` et `masque`.
pub open spec fn transition_permise(actuel: Seq<char>, demande: Seq<char>) -> bool {
    ||| actuel == demande
    ||| actuel == "disponible"@ && demande == "masque"@
    ||| actuel == "masque"@ && demande == "disponible"@
}

pub fn valider_titre(titre: &str) -> (r: Result<(), CatalogError>)
    ensures
        r is Ok <==> 3 <= rogne(titre@).len() <= 80,
        r matches Err(e) ==> e == CatalogError::TitreInvalide,
{
    let longueur = rogner(titre).unicode_len();
    if !(3 <= longueur && longueur <= 80) {
        return Err(CatalogError::TitreInvalide);
    }
    Ok(())
}

pub fn valider_description(description: &str) -> (r: Result<(), CatalogError>)
    ensures
        r is Ok <==> 10 <= rogne(description@).len() <= 2000,
        r matches Err(e) ==> e == CatalogError::DescriptionInvalide,
{
    let longueur = rogner(description).unicode_len();
    if !(10 <= longueur && longueur <= 2000) {
        return Err(CatalogError::DescriptionInvalide);
    }
    Ok(())
}

pub fn valider_valeur(value_cents: i32) -> (r: Result<(), CatalogError>)
    ensures
        r is Ok <==> VALEUR_MIN_CENTS <= value_cents <= VALEUR_MAX_CENTS,
        r matches Err(e) ==> e == CatalogError::ValeurInvalide,
{
    if !(VALEUR_MIN_CENTS <= value_cents && value_cents <= VALEUR_MAX_CENTS) {
        return Err(CatalogError::ValeurInvalide);
    }
    Ok(())
}

pub fn valider_condition(condition: &str) -> (r: Result<(), CatalogError>)
    ensures
        r is Ok <==> condition_connue(condition@),
        r matches Err(e) ==> e == CatalogError::EtatInconnu,
{
    if meme_texte(condition, "neuf") || meme_texte(condition, "tres_bon_etat")
        || meme_texte(condition, "bon_etat") || meme_texte(condition, "correct")
    {
        Ok(())
    } else {
        Err(CatalogError::EtatInconnu)
    }
}

pub fn valider_remise(remise: &str) -> (r: Result<(), CatalogError>)
    ensures
        r is Ok <==> remise_connue(remise@),
        r matches Err(e) ==> e == CatalogError::RemiseInconnue,
{
    if meme_texte(remise, "main_propre") || meme_texte(remise, "envoi") || meme_texte(remise, "les_deux") {
        Ok(())
    } else {
        Err(CatalogError::RemiseInconnue)
    }
}

pub fn valider_nombre_photos(nombre: usize) -> (r: Result<(), CatalogError>)
    ensures
        r is Ok <==> PHOTOS_MIN <= nombre <= PHOTOS_MAX,
        r matches Err(e) ==> e == CatalogError::PhotosInvalides,
{
    if !(PHOTOS_MIN <= nombre && nombre <= PHOTOS_MAX) {
        return Err(CatalogError::PhotosInvalides);
    }
    Ok(())
}

/// Transitions de statut autorisées à l'utilisateur : `disponible ↔ masque`
/// uniquement. `reserve` et `troque` appartiennent à la machine à états du
/// troc — jamais posables manuellement.
pub fn transition_statut_autorisee(actuel: &str, demande: &str) -> (r: Result<(), CatalogError>)
    ensures
        r is Ok <==> transition_permise(actuel@, demande@),
        r matches Err(e) ==> e == CatalogError::StatutInterdit,
{
    if meme_texte(actuel, demande) {
        Ok(())
    } else if meme_texte(actuel, "disponible") && meme_texte(demande, "masque") {
        Ok(())
    } else if meme_texte(actuel, "masque") && meme_texte(demande, "disponible") {
        Ok(())
    } else {
        Err(CatalogError::StatutInterdit)
    }
}

/// Les statuts réservés au troc ne s'atteignent ni ne se quittent à la main :
/// depuis ou vers `reserve` ou `troque`, seule l'identité passe.
pub proof fn statuts_du_troc_hors_de_portee(actuel: Seq<char>, demande: Seq<char>)
    requires
        actuel != demande,
        actuel == "reserve"@ || actuel == "troque"@ || demande == "reserve"@ || demande == "troque"@,
    ensures
        !transition_permise(actuel, demande),
{
    reveal_strlit("reserve");
    reveal_strlit("troque");
    reveal_strlit("disponible");
    reveal_strlit("masque");
    assert("reserve"@.len() != "disponible"@.len());
    assert("reserve"@.len() != "masque"@.len());
    assert("troque"@.len() != "disponible"@.len());
    assert("troque"@[0] != "masque"@[0]);
}

/// Une transition permise se défait toujours : on peut revenir au statut de départ.
pub proof fn transition_reversible(actuel: Seq<char>, demande: Seq<char>)
    requires
        transition_permise(actuel, demande),
    ensures
        transition_permise(demande, actuel),
{
}

} // verus!

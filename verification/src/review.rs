//! Règles des évaluations : notes 1 à 5, publication simultanée
//! anti-représailles.

use vstd::prelude::*;
use crate::texte::meme_texte;

verus! {

pub const NOTE_MIN: i16 = 1;
pub const NOTE_MAX: i16 = 5;
pub const COMMENTAIRE_MAX: usize = 500;
/// Sans note de l'autre partie, la note seule est publiée à J+14 après la
/// finalisation.
pub const PUBLICATION_JOURS: i64 = 14;

#[derive(Debug, Clone, Copy, PartialEq, Eq)]
pub enum ReviewError {
    NoteHorsBornes,
    CommentaireTropLong,
    /// On ne note qu'un troc finalisé.
    TrocNonFinalise,
}

pub fn valider_note(rating: i16) -> (r: Result<(), ReviewError>)
    ensures
        r is Ok <==> NOTE_MIN <= rating <= NOTE_MAX,
        r matches Err(e) ==> e == ReviewError::NoteHorsBornes,
{
    if NOTE_MIN <= rating && rating <= NOTE_MAX {
        Ok(())
    } else {
        Err(ReviewError::NoteHorsBornes)
    }
}

pub fn valider_commentaire(comment: &str) -> (r: Result<(), ReviewError>)
    ensures
        r is Ok <==> comment@.len() <= COMMENTAIRE_MAX,
        r matches Err(e) ==> e == ReviewError::CommentaireTropLong,
{
    if comment.unicode_len() <= COMMENTAIRE_MAX {
        Ok(())
    } else {
        Err(ReviewError::CommentaireTropLong)
    }
}

/// Seul un troc finalisé se note — pas un troc annulé ni gelé.
pub fn peut_noter(trade_status: &str) -> (r: Result<(), ReviewError>)
    ensures
        r is Ok <==> trade_status@ == "finalise"@,
        r matches Err(e) ==> e == ReviewError::TrocNonFinalise,
{
    if meme_texte(trade_status, "finalise") {
        Ok(())
    } else {
        Err(ReviewError::TrocNonFinalise)
    }
}

} // verus!

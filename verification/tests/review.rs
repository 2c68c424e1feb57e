use lebontroc::review::{peut_noter, valider_commentaire, valider_note, ReviewError};

#[test]
fn notes_entre_1_et_5() {
    for rating in 1..=5 {
        assert!(valider_note(rating).is_ok());
    }
    assert_eq!(valider_note(0), Err(ReviewError::NoteHorsBornes));
    assert_eq!(valider_note(6), Err(ReviewError::NoteHorsBornes));
    assert_eq!(valider_note(-1), Err(ReviewError::NoteHorsBornes));
}

#[test]
fn commentaire_500_caracteres_max() {
    assert!(valider_commentaire("").is_ok());
    assert!(valider_commentaire(&"é".repeat(500)).is_ok());
    assert_eq!(valider_commentaire(&"é".repeat(501)), Err(ReviewError::CommentaireTropLong));
}

#[test]
fn seul_un_troc_finalise_se_note() {
    assert!(peut_noter("finalise").is_ok());
    for statut in ["accepte", "attente_paiement", "annule", "litige_gele"] {
        assert_eq!(peut_noter(statut), Err(ReviewError::TrocNonFinalise));
    }
}

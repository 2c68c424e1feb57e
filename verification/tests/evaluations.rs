use lebontroc::erreurs::GenreErreur;
use lebontroc::evaluations::{deja_note, reponse_impossible, verifier_evaluation, verifier_reponse_avis};

#[test]
fn evaluation_controlee_dans_l_ordre() {
    let e = verifier_evaluation("accepte", 9, Some(&"x".repeat(600))).unwrap_err();
    assert_eq!((e.code.as_str(), e.message.as_str()), ("troc_non_finalise", "On ne note qu'un troc finalisé."));
    let e = verifier_evaluation("finalise", 0, None).unwrap_err();
    assert_eq!((e.code.as_str(), e.message.as_str()), ("note_invalide", "La note va de 1 à 5 étoiles."));
    let e = verifier_evaluation("finalise", 5, Some(&"x".repeat(501))).unwrap_err();
    assert_eq!(e.code, "commentaire_trop_long");
    assert_eq!(e.message, "Le commentaire est limité à 500 caractères.");
}

#[test]
fn commentaire_retenu_rogne_ou_ecarte() {
    assert_eq!(verifier_evaluation("finalise", 4, Some("  top  ")), Ok(Some("top".to_string())));
    assert_eq!(verifier_evaluation("finalise", 4, Some("   ")), Ok(None));
    assert_eq!(verifier_evaluation("finalise", 1, None), Ok(None));
    // 500 caractères après rognage : accepté.
    let bord = format!("  {}  ", "y".repeat(500));
    assert_eq!(verifier_evaluation("finalise", 3, Some(&bord)), Ok(Some("y".repeat(500))));
}

#[test]
fn une_seule_evaluation_par_troc() {
    let e = deja_note();
    assert_eq!(e.genre, GenreErreur::Conflit);
    assert_eq!(e.code, "deja_note");
    assert_eq!(e.message, "Tu as déjà noté ce troc — une seule évaluation par échange.");
}

#[test]
fn reponse_publique_de_1_a_500_caracteres() {
    assert_eq!(verifier_reponse_avis("  merci !  "), Ok("merci !".to_string()));
    let e = verifier_reponse_avis("   ").unwrap_err();
    assert_eq!((e.code.as_str(), e.message.as_str()), ("reponse_invalide", "Une réponse fait entre 1 et 500 caractères."));
    assert!(verifier_reponse_avis(&"z".repeat(501)).is_err());
    assert!(verifier_reponse_avis(&"z".repeat(500)).is_ok());
    assert_eq!(
        reponse_impossible().message,
        "Cette évaluation n'existe pas, n'est pas publiée, ou a déjà sa réponse."
    );
}

use lebontroc::annonces::{
    categorie_envie_inconnue, categorie_inconnue, champs_retenus, cle_photo, cle_piece,
    est_proprietaire, exiger_email_verifie, objet_introuvable, photo_inconnue, photo_manquante,
    photo_message_inconnue, photo_message_manquante, profil_introuvable, soulte_acceptee,
    verifier_blocage, verifier_nombre_pieces,
};
use lebontroc::erreurs::GenreErreur;

#[test]
fn publier_exige_un_email_verifie() {
    assert!(exiger_email_verifie(true).is_ok());
    let e = exiger_email_verifie(false).unwrap_err();
    assert_eq!(e.genre, GenreErreur::Interdit);
    assert_eq!((e.code.as_str(), e.message.as_str()), ("email_non_verifie", "Vérifie ton e-mail pour publier — regarde ta boîte mail."));
}

#[test]
fn refus_du_catalogue() {
    assert_eq!(categorie_inconnue().message, "Choisis une catégorie pour que ton objet soit trouvable.");
    assert_eq!(categorie_envie_inconnue().message, "Une des catégories choisies n'existe pas.");
    assert_eq!(photo_inconnue().message, "Une des photos n'a pas été trouvée. Réessaie l'envoi.");
    assert_eq!(photo_manquante().message, "L'envoi d'une photo n'est pas terminé. Touche la photo pour réessayer.");
    assert_eq!(photo_message_inconnue().message, "La photo n'a pas été trouvée. Réessaie l'envoi.");
    assert_eq!(photo_message_manquante().message, "L'envoi de la photo n'est pas terminé. Réessaie dans un instant.");
    assert_eq!(objet_introuvable().genre, GenreErreur::Introuvable);
    assert_eq!(objet_introuvable().message, "Cet objet n'existe pas (ou plus).");
    assert_eq!(profil_introuvable().message, "Ce troqueur n'existe pas — ou a plié bagage.");
}

#[test]
fn cles_de_stockage() {
    let id: u128 = 0xa1a2a3a4b1b2c1c2d1d2d3d4d5d6d7d8;
    assert_eq!(cle_photo(id, "jpg"), "items/a1a2a3a4-b1b2-c1c2-d1d2-d3d4d5d6d7d8.jpg");
    assert_eq!(cle_photo(0, "webp"), "items/00000000-0000-0000-0000-000000000000.webp");
    assert_eq!(
        cle_piece(1, id, "webp"),
        "litiges/00000000-0000-0000-0000-000000000001/a1a2a3a4-b1b2-c1c2-d1d2-d3d4d5d6d7d8.webp"
    );
}

#[test]
fn pieces_d_un_dossier_une_a_cinq() {
    assert!(verifier_nombre_pieces(0).is_err());
    assert!(verifier_nombre_pieces(1).is_ok());
    assert!(verifier_nombre_pieces(5).is_ok());
    let e = verifier_nombre_pieces(6).unwrap_err();
    assert_eq!((e.code.as_str(), e.message.as_str()), ("trop_de_pieces", "5 photos maximum par dossier."));
}

#[test]
fn champs_retenus_d_une_annonce() {
    let (t, d, s) = champs_retenus("  Vélo  ", " Un vélo rouge ", Some("   "));
    assert_eq!((t.as_str(), d.as_str(), s), ("Vélo", "Un vélo rouge", None));
    let long = "w".repeat(400);
    let (_, _, s) = champs_retenus("Vélo", "Un vélo rouge", Some(&long));
    assert_eq!(s.unwrap().len(), 300);
    assert!(soulte_acceptee(None, true));
    assert!(!soulte_acceptee(Some(false), true));
    assert!(est_proprietaire(Some(3), 3));
    assert!(!est_proprietaire(None, 3));
}

#[test]
fn on_ne_se_bloque_pas_soi_meme() {
    assert!(verifier_blocage(1, 2).is_ok());
    let e = verifier_blocage(2, 2).unwrap_err();
    assert_eq!((e.code.as_str(), e.message.as_str()), ("auto_blocage", "Se bloquer soi-même, c'est de la méditation — pas du troc."));
}

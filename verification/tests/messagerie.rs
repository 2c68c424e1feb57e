use lebontroc::erreurs::GenreErreur;
use lebontroc::messagerie::{
    cle_conversation, contenu_du_message, dernier_est_a_moi, ordre_conversations, pseudo_auteur,
    texte_du_message, verifier_conversation_ouverte,
};
use lebontroc::moderation::MASQUE;

#[test]
fn conversation_close_refusee() {
    let e = verifier_conversation_ouverte("refusee").unwrap_err();
    assert_eq!(e.code, "conversation_fermee");
    assert_eq!(e.message, "Cette proposition est close — retente ta chance avec une nouvelle proposition.");
    assert!(verifier_conversation_ouverte("expiree").is_err());
    assert!(verifier_conversation_ouverte("acceptee").is_ok());
    assert!(verifier_conversation_ouverte("vue").is_ok());
}

#[test]
fn texte_rogne_et_tronque() {
    assert_eq!(texte_du_message(Some("  salut  ")), Some("salut".to_string()));
    assert_eq!(texte_du_message(Some("   ")), None);
    assert_eq!(texte_du_message(None), None);
    let long = "é".repeat(2_500);
    assert_eq!(texte_du_message(Some(&long)).unwrap().chars().count(), 2_000);
}

#[test]
fn message_vide_refuse_et_moderation_avant_acceptation() {
    let e = contenu_du_message("vue", None, false).unwrap_err();
    assert_eq!(e.genre, GenreErreur::RequeteInvalide);
    assert_eq!((e.code.as_str(), e.message.as_str()), ("message_vide", "Écris un message ou joins une photo."));
    assert_eq!(contenu_du_message("vue", None, true).unwrap(), (String::new(), false));
    let (corps, masque) = contenu_du_message("vue", Some("appelle au 0612345678".to_string()), false).unwrap();
    assert!(masque);
    assert_eq!(corps, format!("appelle au {MASQUE}"));
    // Troc accepté : les coordonnées passent.
    let (corps, masque) = contenu_du_message("acceptee", Some("appelle au 0612345678".to_string()), true).unwrap();
    assert!(!masque);
    assert_eq!(corps, "appelle au 0612345678");
}

#[test]
fn auteur_et_dernier_message() {
    assert_eq!(pseudo_auteur(1, 1, "alice", "bob"), "alice");
    assert_eq!(pseudo_auteur(2, 1, "alice", "bob"), "bob");
    assert!(dernier_est_a_moi(Some(4), 4));
    assert!(!dernier_est_a_moi(Some(5), 4));
    assert!(!dernier_est_a_moi(None, 4));
    assert_eq!(cle_conversation(Some(10), 3), 10);
    assert_eq!(cle_conversation(None, 3), 3);
}

#[test]
fn conversations_de_la_plus_recente_a_la_plus_ancienne_tri_stable() {
    assert_eq!(ordre_conversations(&vec![5, 9, 5, 1, 9]), vec![1, 4, 0, 2, 3]);
    assert_eq!(ordre_conversations(&vec![]), Vec::<usize>::new());
    assert_eq!(ordre_conversations(&vec![-3, -1]), vec![1, 0]);
}

use lebontroc::admin::AdminError;
use lebontroc::auth::ValidationError;
use lebontroc::catalog::CatalogError;
use lebontroc::dispute::DisputeError;
use lebontroc::erreurs::{
    map_admin_error, map_catalog_error, map_dispute_error, map_review_error, map_trade_error,
    map_validation, texte_entier, texte_entier_64, texte_naturel, valider_champs_objet, ApiError,
    GenreErreur,
};
use lebontroc::review::ReviewError;
use lebontroc::trade::TradeError;

fn verifie(e: &ApiError, genre: GenreErreur, code: &str, message: &str) {
    assert_eq!(e.genre, genre);
    assert_eq!(e.code, code);
    assert_eq!(e.message, message);
}

#[test]
fn soulte_trop_haute_annonce_le_plafond_en_euros() {
    let e = map_trade_error(TradeError::SoulteTropHaute(5_000));
    verifie(
        &e,
        GenreErreur::RequeteInvalide,
        "soulte_trop_haute",
        "La soulte est plafonnée à 50 € — 50 % de la valeur du meilleur objet.",
    );
    let e = map_trade_error(TradeError::SoulteTropHaute(12_345));
    assert_eq!(e.message, "La soulte est plafonnée à 123 € — 50 % de la valeur du meilleur objet.");
}

#[test]
fn erreurs_de_troc_traduites() {
    verifie(
        &map_trade_error(TradeError::ObjetsManquants),
        GenreErreur::RequeteInvalide,
        "objets_manquants",
        "Choisis au moins un objet de chaque côté.",
    );
    verifie(
        &map_trade_error(TradeError::TropDObjets),
        GenreErreur::RequeteInvalide,
        "trop_dobjets",
        "Dix objets par côté maximum.",
    );
    verifie(
        &map_trade_error(TradeError::SoulteIncoherente),
        GenreErreur::RequeteInvalide,
        "soulte_incoherente",
        "Indique un montant et qui l'ajoute — ou pas de soulte du tout.",
    );
    verifie(
        &map_trade_error(TradeError::TransitionInterdite),
        GenreErreur::RequeteInvalide,
        "transition_interdite",
        "Cette proposition n'est plus ouverte.",
    );
}

#[test]
fn erreurs_de_catalogue_traduites() {
    verifie(
        &map_catalog_error(CatalogError::TitreInvalide),
        GenreErreur::RequeteInvalide,
        "titre_invalide",
        "Le titre doit faire entre 3 et 80 caractères.",
    );
    verifie(
        &map_catalog_error(CatalogError::PhotosInvalides),
        GenreErreur::RequeteInvalide,
        "photos_invalides",
        "Ajoute entre 1 et 8 photos.",
    );
    verifie(
        &map_catalog_error(CatalogError::StatutInterdit),
        GenreErreur::RequeteInvalide,
        "statut_interdit",
        "Tu peux seulement masquer ou remettre en ligne ton objet.",
    );
}

#[test]
fn erreurs_de_validation_traduites() {
    verifie(
        &map_validation(ValidationError::CodePostalInvalide),
        GenreErreur::RequeteInvalide,
        "code_postal_invalide",
        "Un code postal à 5 chiffres, comme 44000.",
    );
    verifie(
        &map_validation(ValidationError::MotDePasseTropCourt),
        GenreErreur::RequeteInvalide,
        "mot_de_passe_trop_court",
        "Encore un effort : 8 caractères minimum.",
    );
}

#[test]
fn erreurs_d_administration_traduites() {
    verifie(
        &map_admin_error(AdminError::RoleInvalide),
        GenreErreur::RequeteInvalide,
        "role_invalide",
        "Les rôles possibles sont : utilisateur, admin, super_admin.",
    );
    verifie(
        &map_admin_error(AdminError::SoiMeme),
        GenreErreur::Interdit,
        "soi_meme",
        "On ne modifie pas son propre rôle — demande à un autre super-administrateur.",
    );
}

#[test]
fn erreurs_de_litige_et_d_evaluation_traduites() {
    verifie(
        &map_dispute_error(DisputeError::HorsFenetre),
        GenreErreur::RequeteInvalide,
        "hors_fenetre",
        "Ce troc ne peut pas (ou plus) faire l'objet d'un dossier : la fenêtre de signalement est close.",
    );
    verifie(
        &map_review_error(ReviewError::NoteHorsBornes),
        GenreErreur::RequeteInvalide,
        "note_invalide",
        "La note va de 1 à 5 étoiles.",
    );
}

#[test]
fn ecritures_decimales() {
    assert_eq!(texte_entier(0), "0");
    assert_eq!(texte_entier(-42), "-42");
    assert_eq!(texte_entier(i32::MIN), "-2147483648");
    assert_eq!(texte_entier_64(i64::MIN), "-9223372036854775808");
    assert_eq!(texte_entier_64(1_234_567_890_123), "1234567890123");
    assert_eq!(texte_naturel(u64::MAX), "18446744073709551615");
}

#[test]
fn champs_objet_controles_dans_l_ordre() {
    assert!(valider_champs_objet("Vélo", "Un vélo en bon état", "bon_etat", 5_000, "les_deux").is_ok());
    let e = valider_champs_objet("V", "court", "inconnu", 0, "x").unwrap_err();
    assert_eq!(e.code, "titre_invalide");
    let e = valider_champs_objet("Vélo", "court", "inconnu", 0, "x").unwrap_err();
    assert_eq!(e.code, "description_invalide");
    let e = valider_champs_objet("Vélo", "Un vélo en bon état", "inconnu", 0, "x").unwrap_err();
    assert_eq!(e.code, "etat_inconnu");
    let e = valider_champs_objet("Vélo", "Un vélo en bon état", "neuf", 0, "x").unwrap_err();
    assert_eq!(e.code, "valeur_invalide");
    let e = valider_champs_objet("Vélo", "Un vélo en bon état", "neuf", 5_000, "x").unwrap_err();
    assert_eq!(e.code, "remise_inconnue");
}

#[test]
fn statuts_http_des_genres() {
    use_statuts();
}

fn use_statuts() {
    assert_eq!(lebontroc::erreurs::statut_http(GenreErreur::RequeteInvalide), 400);
    assert_eq!(lebontroc::erreurs::statut_http(GenreErreur::NonAutorise), 401);
    assert_eq!(lebontroc::erreurs::statut_http(GenreErreur::Interdit), 403);
    assert_eq!(lebontroc::erreurs::statut_http(GenreErreur::Introuvable), 404);
    assert_eq!(lebontroc::erreurs::statut_http(GenreErreur::Conflit), 409);
    assert_eq!(lebontroc::erreurs::statut_http(GenreErreur::TropDeRequetes), 429);
    assert_eq!(lebontroc::erreurs::statut_http(GenreErreur::Interne), 500);
}

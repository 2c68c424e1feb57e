use lebontroc::dto::{PresignFile, WishlistEntryDto};
use lebontroc::vitrine::{
    decalage_page, erreur_fichier, evenement_modification, extension_photo, favori_possible,
    filtre_condition, filtre_remise, nom_du_tri, normaliser_envies, objet_visible, page_demandee,
    requete_recherche, reste_des_resultats, source_de_vue, suppression_possible, tri_recherche, verifier_fichiers,
    RefusFichier, TriRecherche,
};

#[test]
fn pagination_du_fil() {
    assert_eq!(page_demandee(None), 1);
    assert_eq!(page_demandee(Some(0)), 1);
    assert_eq!(page_demandee(Some(7)), 7);
    assert_eq!(page_demandee(Some(9_999)), 500);
    assert_eq!(decalage_page(1), 0);
    assert_eq!(decalage_page(3), 48);
    assert!(reste_des_resultats(25));
    assert!(!reste_des_resultats(24));
}

#[test]
fn tri_et_filtres_de_recherche() {
    assert_eq!(tri_recherche(Some("distance"), true), TriRecherche::Distance);
    assert_eq!(tri_recherche(Some("distance"), false), TriRecherche::Pertinence);
    assert_eq!(tri_recherche(Some("recence"), false), TriRecherche::Recence);
    assert_eq!(tri_recherche(None, true), TriRecherche::Pertinence);
    assert_eq!(nom_du_tri(TriRecherche::Recence), "recence");
    assert_eq!(filtre_condition(Some("neuf".to_string())), Some("neuf".to_string()));
    assert_eq!(filtre_condition(Some("cassé".to_string())), None);
    assert_eq!(filtre_remise(Some("envoi".to_string())), Some("envoi".to_string()));
    assert_eq!(filtre_remise(Some("les_deux".to_string())), None);
}

#[test]
fn visibilite_source_et_evenements_d_une_annonce() {
    assert!(objet_visible(true, "masque"));
    assert!(!objet_visible(false, "masque"));
    assert!(objet_visible(false, "disponible"));
    assert_eq!(source_de_vue(Some("feed")), "feed");
    assert_eq!(source_de_vue(Some("favorites")), "favorites");
    assert_eq!(source_de_vue(Some("pub")), "direct");
    assert_eq!(source_de_vue(None), "direct");
    assert_eq!(evenement_modification("disponible", "masque"), "item_hidden");
    assert_eq!(evenement_modification("masque", "masque"), "item_edited");
    assert_eq!(evenement_modification("masque", "disponible"), "item_edited");
    assert_eq!(suppression_possible("reserve").unwrap_err().code, "objet_reserve");
    assert!(suppression_possible("masque").is_ok());
    assert_eq!(
        favori_possible(3, 3).unwrap_err().message,
        "C'est ton objet — pas besoin de le mettre en favori."
    );
    assert!(favori_possible(3, 4).is_ok());
}

fn fichier(t: &str, size: i32) -> PresignFile {
    PresignFile { content_type: t.to_string(), size }
}

#[test]
fn fichiers_annonces_controles() {
    assert_eq!(extension_photo("image/webp"), Some("webp"));
    assert_eq!(extension_photo("image/jpeg"), Some("jpg"));
    assert_eq!(extension_photo("image/png"), None);
    let ok = vec![fichier("image/jpeg", 1), fichier("image/webp", 5 * 1024 * 1024)];
    assert_eq!(verifier_fichiers(&ok), Ok(vec!["jpg", "webp"]));
    let lourd = vec![fichier("image/jpeg", 5 * 1024 * 1024 + 1), fichier("image/png", 10)];
    assert_eq!(verifier_fichiers(&lourd), Err(RefusFichier::FichierTropLourd));
    let vide = vec![fichier("image/jpeg", 0)];
    assert_eq!(verifier_fichiers(&vide), Err(RefusFichier::FichierTropLourd));
    let png = vec![fichier("image/png", 10), fichier("image/jpeg", 0)];
    assert_eq!(verifier_fichiers(&png), Err(RefusFichier::TypeRefuse));
    assert_eq!(
        erreur_fichier(RefusFichier::TypeRefuse).message,
        "On n'a pas réussi à lire cette image. Essaie un autre format (JPG, WebP)."
    );
    assert_eq!(
        erreur_fichier(RefusFichier::FichierTropLourd).message,
        "Cette photo dépasse 5 Mo après compression. Réessaie avec une autre."
    );
}

fn envie(c: Option<i16>, k: &str) -> WishlistEntryDto {
    WishlistEntryDto { category_id: c, keywords: k.to_string() }
}

#[test]
fn liste_d_envies_normalisee() {
    let entrees = vec![envie(Some(31), "poussette yoyo"), envie(None, "vélo 16 pouces"), envie(None, "   ")];
    let r = normaliser_envies(&entrees).expect("envies");
    assert_eq!(r.len(), 2);
    assert_eq!((r[0].category_id, r[0].keywords.as_str()), (Some(31), "poussette yoyo"));
    assert_eq!((r[1].category_id, r[1].keywords.as_str()), (None, "vélo 16 pouces"));
    let trop = vec![envie(None, "a"), envie(None, "b"), envie(None, "c"), envie(None, "d")];
    let e = normaliser_envies(&trop).unwrap_err();
    assert_eq!(e.code, "envies_trop_nombreuses");
    let long = vec![envie(None, &"m".repeat(200))];
    assert_eq!(normaliser_envies(&long).expect("envies")[0].keywords.chars().count(), 120);
}

#[test]
fn texte_de_recherche() {
    assert_eq!(requete_recherche(Some("  vélo rouge ")), Some("vélo rouge".to_string()));
    assert_eq!(requete_recherche(Some("   ")), None);
    assert_eq!(requete_recherche(None), None);
    let long = "é".repeat(200);
    assert_eq!(requete_recherche(Some(&long)), Some("é".repeat(120)));
}

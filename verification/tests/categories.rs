use lebontroc::categories::{arbre_categories, Categorie, CategoryNode};

fn cat(id: i16, parent: Option<i16>, slug: &str, min: Option<i32>, max: Option<i32>) -> Categorie {
    Categorie {
        id,
        parent_id: parent,
        slug: slug.to_string(),
        label: slug.to_uppercase(),
        icon: if parent.is_none() { Some("baby".to_string()) } else { None },
        value_min_cents: min,
        value_max_cents: max,
    }
}

fn trouve<'a>(noeuds: &'a [CategoryNode], slug: &str) -> &'a CategoryNode {
    noeuds.iter().find(|n| n.slug == slug).expect(slug)
}

#[test]
fn arbre_avec_fourchettes_heritees_de_la_racine() {
    let flat = vec![
        cat(1, None, "enfants", Some(200), Some(25_000)),
        cat(2, None, "maison", Some(500), Some(100_000)),
        cat(10, Some(1), "poussettes-portage", None, None),
        cat(11, Some(10), "nacelles", None, None),
        cat(12, Some(1), "jouets", Some(100), Some(5_000)),
    ];
    let arbre = arbre_categories(&flat);
    assert_eq!(arbre.len(), 2);
    let enfants = trouve(&arbre, "enfants");
    assert_eq!(enfants.icon.as_deref(), Some("baby"));
    assert_eq!(enfants.children.len(), 2);
    let poussettes = trouve(&enfants.children, "poussettes-portage");
    assert_eq!((poussettes.value_min_cents, poussettes.value_max_cents), (Some(200), Some(25_000)));
    assert_eq!(poussettes.label, "POUSSETTES-PORTAGE");
    // Petite-fille : la fourchette vient toujours de la racine.
    let nacelles = trouve(&poussettes.children, "nacelles");
    assert_eq!((nacelles.value_min_cents, nacelles.value_max_cents), (Some(200), Some(25_000)));
    // Une fourchette propre l'emporte.
    let jouets = trouve(&enfants.children, "jouets");
    assert_eq!((jouets.value_min_cents, jouets.value_max_cents), (Some(100), Some(5_000)));
    assert!(trouve(&arbre, "maison").children.is_empty());
}

#[test]
fn parent_inconnu_sans_fourchette() {
    // Le parent n'existe pas : la remontée s'arrête sur la catégorie
    // elle-même, qui n'est pas une racine, donc pas de fourchette.
    let flat = vec![cat(5, Some(99), "orpheline", None, None), cat(1, None, "racine", Some(1), Some(2))];
    let arbre = arbre_categories(&flat);
    assert_eq!(arbre.len(), 1);
    assert_eq!(arbre[0].slug, "racine");
    assert_eq!(arbre_categories(&vec![]).len(), 0);
}

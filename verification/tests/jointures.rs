use lebontroc::jointures::{
    compte_favoris, couvertures, derniere_occurrence, ordre_photos, photos_fraiches,
    photos_groupees, retrouver, SourcePhoto,
};

#[test]
fn derniere_occurrence_comme_une_table_construite() {
    assert_eq!(derniere_occurrence(&vec![4, 5, 4], 4), Some(2));
    assert_eq!(derniere_occurrence(&vec![4, 5, 4], 6), None);
    assert_eq!(retrouver(&vec![5, 9, 4], &vec![4, 5, 4]), vec![Some(1), None, Some(2)]);
}

#[test]
fn couverture_la_premiere_photo_de_chaque_objet() {
    // photos : objet de chaque photo, dans l'ordre renvoyé par la base.
    let photos = vec![20, 10, 20, 10];
    assert_eq!(couvertures(&vec![10, 20, 30], &photos), vec![Some(1), Some(0), None]);
    // Un objet répété ne reçoit plus de couverture.
    assert_eq!(couvertures(&vec![10, 10], &photos), vec![Some(1), None]);
}

#[test]
fn photos_groupees_par_objet_dans_l_ordre() {
    let photos = vec![20, 10, 20, 10, 20];
    assert_eq!(
        photos_groupees(&vec![10, 20, 30, 20], &photos),
        vec![vec![1, 3], vec![0, 2, 4], vec![], vec![]]
    );
}

#[test]
fn compte_de_favoris_zero_par_defaut() {
    let cles = vec![1, 2, 1];
    let comptes = vec![3, 4, 5];
    assert_eq!(compte_favoris(&cles, &comptes, 1), 5);
    assert_eq!(compte_favoris(&cles, &comptes, 2), 4);
    assert_eq!(compte_favoris(&cles, &comptes, 9), 0);
}

#[test]
fn nouvelle_liste_de_photos() {
    let demandes = vec![1, 7, 2, 8, 9];
    let existantes = vec![2, 1];
    assert_eq!(photos_fraiches(&demandes, &existantes), vec![7, 8, 9]);
    let fraiches = vec![7, 8];
    assert_eq!(
        ordre_photos(&demandes, &existantes, &fraiches),
        vec![
            Some(SourcePhoto::Existante(1)),
            Some(SourcePhoto::Fraiche(0)),
            Some(SourcePhoto::Existante(0)),
            Some(SourcePhoto::Fraiche(1)),
            None
        ]
    );
}

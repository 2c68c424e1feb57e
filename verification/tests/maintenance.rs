use lebontroc::maintenance::{
    issue_depot_manque, paliers_rappel_depot, premieres_occurrences, rappel_insistant, traces_gel,
    CauseGel, IssueDepotManque,
};

#[test]
fn trocs_annules_comptes_une_seule_fois() {
    // Une ligne par partie prévenue : chaque troc apparaît deux fois.
    let (drapeaux, n) = premieres_occurrences(&vec![7, 7, 9, 9, 7, 3]);
    assert_eq!(drapeaux, vec![true, false, true, false, false, true]);
    assert_eq!(n, 3);
    let (drapeaux, n) = premieres_occurrences(&vec![]);
    assert!(drapeaux.is_empty());
    assert_eq!(n, 0);
}

#[test]
fn rappels_de_depot_j2_puis_j4() {
    assert_eq!(paliers_rappel_depot(), vec![(2, 1), (4, 2)]);
    assert!(rappel_insistant(2));
    assert!(!rappel_insistant(1));
}

#[test]
fn depot_manque_annule_ou_gele() {
    assert_eq!(issue_depot_manque(0), IssueDepotManque::Annulation);
    assert_eq!(issue_depot_manque(1), IssueDepotManque::Gel);
}

#[test]
fn traces_des_gels() {
    let t = traces_gel(CauseGel::DepotPartiel);
    assert_eq!(t.evenement, "non_depot");
    assert_eq!(t.detail, "un seul colis expédié à J+5");
    assert_eq!(t.description, "Dossier créé automatiquement : un seul colis déposé à J+5.");
    assert_eq!(t.alerte, "un seul colis expédié à J+5");
    let t = traces_gel(CauseGel::TrocBloque);
    assert_eq!(t.evenement, "troc_envoi_bloque");
    assert_eq!(t.detail, "toujours ouvert à J+21");
    assert_eq!(t.description, "Dossier créé automatiquement : troc envoi toujours ouvert à J+21.");
    assert_eq!(t.alerte, "troc envoi toujours ouvert à J+21");
}

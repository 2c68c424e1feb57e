use lebontroc::erreurs::GenreErreur;
use lebontroc::parcours_troc::{
    a_marquer_vue, boite_recue, demande_etiquette, envoi_fige, erreur_annulation,
    erreur_confirmation, jours_ecoules, net_a_annoncer, nom_du_relais, paiements_a_capturer,
    partie_du_colis, refus_etape, relais_propose, repartir_lignes,
    verifier_configuration_envoi, verifier_confirmation_par_codes, EtapeColis, IssueAnnulation,
    IssueConfirmation,
};

const JOUR: i128 = 86_400_000_000_000;

#[test]
fn confirmation_par_codes_reservee_a_la_main_propre() {
    let e = verifier_confirmation_par_codes("envoi").unwrap_err();
    assert_eq!((e.code.as_str(), e.message.as_str()), ("mode_envoi", "Ce troc se finalise à la réception des colis, pas par codes."));
    assert!(verifier_confirmation_par_codes("main_propre").is_ok());
}

#[test]
fn issues_de_la_saisie_d_un_code() {
    let e = erreur_confirmation(IssueConfirmation::MauvaisCode).unwrap();
    assert_eq!(e.code, "code_invalide");
    assert_eq!(e.message, "Ce n'est pas le bon code — vérifie avec l'autre partie (6 chiffres).");
    let e = erreur_confirmation(IssueConfirmation::Clos).unwrap();
    assert_eq!((e.code.as_str(), e.message.as_str()), ("troc_clos", "Ce troc n'est plus en attente de confirmation."));
    let e = erreur_confirmation(IssueConfirmation::Introuvable).unwrap();
    assert_eq!((e.genre, e.message.as_str()), (GenreErreur::Introuvable, "Ce troc n'existe pas."));
    assert!(erreur_confirmation(IssueConfirmation::Confirme { finalise: true }).is_none());
}

#[test]
fn jours_depuis_l_acceptation() {
    assert_eq!(jours_ecoules(0, 3 * JOUR + 5), 3);
    assert_eq!(jours_ecoules(0, JOUR - 1), 0);
    assert_eq!(jours_ecoules(3 * JOUR, 0), -3);
    assert_eq!(jours_ecoules(JOUR, 1), 0);
}

#[test]
fn annulation_a_l_amiable() {
    let e = erreur_annulation(IssueAnnulation::ColisEnRoute).unwrap();
    assert_eq!(e.code, "colis_en_route");
    assert_eq!(
        e.message,
        "Un colis a déjà voyagé : le troc ne peut plus être annulé à l'amiable. Signale un problème à la réception si besoin."
    );
    let e = erreur_annulation(IssueAnnulation::Clos).unwrap();
    assert_eq!(e.message, "Ce troc n'est plus annulable.");
    assert!(erreur_annulation(IssueAnnulation::EnAttente).is_none());
    assert!(erreur_annulation(IssueAnnulation::Annule).is_none());
}

#[test]
fn transfert_annonce_seulement_avec_une_soulte() {
    assert_eq!(net_a_annoncer(0, 0), None);
    assert_eq!(net_a_annoncer(3_000, 150), Some(2_850));
    assert_eq!(net_a_annoncer(100, 150), Some(0));
    let statuts: Vec<String> = ["sequestre", "annule", "sequestre", "capture"].iter().map(|s| s.to_string()).collect();
    assert_eq!(paiements_a_capturer(&statuts), vec![0, 2]);
}

#[test]
fn configuration_de_l_envoi() {
    let e = verifier_configuration_envoi("main_propre", "s").unwrap_err();
    assert_eq!((e.code.as_str(), e.message.as_str()), ("mode_main_propre", "Ce troc se fait en main propre — rien à expédier."));
    let e = verifier_configuration_envoi("envoi", "xl").unwrap_err();
    assert_eq!((e.code.as_str(), e.message.as_str()), ("format_inconnu", "Choisis un format S (≤ 1 kg), M (≤ 3 kg) ou L (≤ 10 kg)."));
    assert_eq!(verifier_configuration_envoi("envoi", "m"), Ok(690));
    let codes: Vec<String> = ["R1", "R2", "R2"].iter().map(|s| s.to_string()).collect();
    assert_eq!(relais_propose(&codes, "R2"), Ok(1));
    let e = relais_propose(&codes, "R9").unwrap_err();
    assert_eq!(e.message, "Ce point relais ne fait pas partie de ceux proposés — recharge la liste.");
    assert_eq!(envoi_fige().message, "Ton envoi n'est plus modifiable (déjà payé ou étiquette générée).");
}

#[test]
fn suivi_des_colis() {
    assert!(partie_du_colis(1, 2, 1) && partie_du_colis(1, 2, 2) && !partie_du_colis(1, 2, 3));
    assert_eq!(refus_etape(EtapeColis::Depot).message, "Ce colis n'a pas d'étiquette à déposer (ou l'est déjà).");
    assert_eq!(refus_etape(EtapeColis::Retrait).message, "Ce colis n'est pas encore arrivé au relais (ou est déjà retiré).");
    assert_eq!(refus_etape(EtapeColis::Confirmation).message, "Retire d'abord le colis au relais avant de confirmer.");
    assert_eq!(
        demande_etiquette(0xa1a2a3a4b1b2c1c2d1d2d3d4d5d6d7d8, Some("s"), Some("R1")),
        Some("shipment-a1a2a3a4-b1b2-c1c2-d1d2-d3d4d5d6d7d8".to_string())
    );
    assert_eq!(demande_etiquette(1, None, Some("R1")), None);
    assert_eq!(nom_du_relais(None), "point relais");
    assert_eq!(nom_du_relais(Some("Tabac")), "Tabac");
}

#[test]
fn boite_de_reception() {
    assert!(boite_recue(None));
    assert!(boite_recue(Some("recues")));
    assert!(!boite_recue(Some("envoyees")));
    let cotes: Vec<String> = ["offert", "demande", "offert", "demande"].iter().map(|s| s.to_string()).collect();
    assert_eq!(repartir_lignes(&cotes, &vec![0, 1, 2, 3]), (vec![0, 2], vec![1, 3]));
    assert!(a_marquer_vue(2, 2, "envoyee"));
    assert!(!a_marquer_vue(2, 1, "envoyee"));
    assert!(!a_marquer_vue(2, 2, "vue"));
}

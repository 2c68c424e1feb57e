use lebontroc::trade::{
    peut_accepter, peut_contre_proposer, peut_marquer_vue, peut_refuser, plafond_soulte_cents,
    valider_mode_remise, valider_proposition, TradeError,
};

#[test]
fn plafond_moitie_du_meilleur_objet() {
    assert_eq!(plafond_soulte_cents(&[10_000, 4_000]), 5_000);
    assert_eq!(plafond_soulte_cents(&[]), 0);
}

#[test]
fn plafond_arrondi_vers_zero() {
    assert_eq!(plafond_soulte_cents(&[4_000, 10_001]), 5_000);
    assert_eq!(plafond_soulte_cents(&[-3]), -1);
}

#[test]
fn scenario_console_plus_30_contre_velo() {
    assert!(valider_proposition(&[12_000], &[15_000], 3_000, "du_proposant").is_ok());
}

#[test]
fn soulte_au_dela_du_plafond_refusee_avec_le_plafond() {
    let erreur = valider_proposition(&[10_000], &[8_000], 6_000, "du_proposant");
    assert_eq!(erreur, Err(TradeError::SoulteTropHaute(5_000)));
    assert!(valider_proposition(&[10_000], &[8_000], 5_000, "du_proposant").is_ok());
}

#[test]
fn soulte_incoherente() {
    assert_eq!(valider_proposition(&[100], &[100], 0, "du_proposant"), Err(TradeError::SoulteIncoherente));
    assert_eq!(valider_proposition(&[100], &[100], 500, "aucune"), Err(TradeError::SoulteIncoherente));
    assert_eq!(valider_proposition(&[100], &[100], 500, "vers_la_lune"), Err(TradeError::SoulteIncoherente));
    assert_eq!(valider_proposition(&[100], &[100], -1, "du_proposant"), Err(TradeError::SoulteIncoherente));
}

#[test]
fn au_moins_un_objet_par_cote_et_pas_trop() {
    assert_eq!(valider_proposition(&[], &[100], 0, "aucune"), Err(TradeError::ObjetsManquants));
    assert_eq!(valider_proposition(&[100], &[], 0, "aucune"), Err(TradeError::ObjetsManquants));
    let onze = vec![100; 11];
    assert_eq!(valider_proposition(&onze, &[100], 0, "aucune"), Err(TradeError::TropDObjets));
}

#[test]
fn acceptation_et_contre_sur_proposition_ouverte_seulement() {
    for statut in ["envoyee", "vue"] {
        assert!(peut_accepter(statut).is_ok());
        assert!(peut_contre_proposer(statut).is_ok());
    }
    for statut in ["acceptee", "refusee", "expiree", "contre_proposee", "caduque"] {
        assert!(peut_accepter(statut).is_err(), "accepter {statut}");
        assert!(peut_contre_proposer(statut).is_err(), "contrer {statut}");
    }
    assert!(valider_mode_remise("main_propre").is_ok());
    assert!(valider_mode_remise("envoi").is_ok());
    assert!(valider_mode_remise("teleportation").is_err());
}

#[test]
fn machine_a_etats_refus_et_vue() {
    assert!(peut_refuser("envoyee").is_ok());
    assert!(peut_refuser("vue").is_ok());
    assert!(peut_refuser("refusee").is_err());
    assert!(peut_refuser("expiree").is_err());
    assert!(peut_refuser("acceptee").is_err());
    assert!(peut_marquer_vue("envoyee"));
    assert!(!peut_marquer_vue("vue"));
    assert!(!peut_marquer_vue("refusee"));
}

#[test]
fn plafond_sur_les_deux_cotes() {
    // Le meilleur objet est côté demandé : plafond 75 €.
    assert!(valider_proposition(&[1_000], &[15_000], 7_500, "du_destinataire").is_ok());
    assert_eq!(
        valider_proposition(&[1_000], &[15_000], 7_501, "du_destinataire"),
        Err(TradeError::SoulteTropHaute(7_500))
    );
}

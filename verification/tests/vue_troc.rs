use lebontroc::vue_troc::{
    avis_a_charger, payment_info, PaiementEnregistre, avis_montres, colis_a_charger, expiration_a_verifier, vue_colis, vue_troc,
    AvisLu, PaiementLu, TrocLu,
};

fn troc(status: &str, mode: &str) -> TrocLu {
    TrocLu {
        proposer_id: 1,
        recipient_id: 2,
        status: status.to_string(),
        delivery_mode: mode.to_string(),
        proposer_code: Some("111111".to_string()),
        recipient_code: Some("222222".to_string()),
        proposer_confirmed: true,
        recipient_confirmed: false,
        cancel_requested_by: Some(2),
    }
}

fn paiement(payer: u128, status: &str) -> PaiementLu {
    PaiementLu { payer_id: payer, status: status.to_string() }
}

#[test]
fn code_masque_avant_sequestre_et_en_envoi() {
    assert_eq!(vue_troc(&troc("attente_paiement", "main_propre"), &vec![], 1).my_code, None);
    assert_eq!(vue_troc(&troc("accepte", "envoi"), &vec![], 1).my_code, None);
    assert_eq!(vue_troc(&troc("accepte", "main_propre"), &vec![], 1).my_code, Some("111111".to_string()));
    assert_eq!(vue_troc(&troc("accepte", "main_propre"), &vec![], 2).my_code, Some("222222".to_string()));
}

#[test]
fn confirmations_et_annulation_vues_par_chacun() {
    let v = vue_troc(&troc("accepte", "main_propre"), &vec![], 1);
    assert!(v.i_confirmed && !v.other_confirmed);
    assert!(!v.cancel_requested_by_me && v.cancel_requested_by_other);
    let v = vue_troc(&troc("accepte", "main_propre"), &vec![], 2);
    assert!(!v.i_confirmed && v.other_confirmed);
    assert!(v.cancel_requested_by_me && !v.cancel_requested_by_other);
}

#[test]
fn paiement_montre_le_mien_d_abord() {
    let paiements = vec![paiement(2, "sequestre"), paiement(1, "en_attente")];
    let v = vue_troc(&troc("attente_paiement", "envoi"), &paiements, 1);
    assert_eq!(v.paiement_montre, Some(1));
    assert_eq!(v.statut_paiement_autre, Some("sequestre".to_string()));
    // Le bénéficiaire d'une soulte voit le paiement de l'autre, sans « autre statut ».
    let soulte = vec![paiement(2, "sequestre")];
    let v = vue_troc(&troc("accepte", "main_propre"), &soulte, 1);
    assert_eq!(v.paiement_montre, Some(0));
    assert_eq!(v.statut_paiement_autre, None);
    let v = vue_troc(&troc("accepte", "main_propre"), &vec![], 1);
    assert_eq!(v.paiement_montre, None);
}

#[test]
fn colis_vu_par_l_expediteur_et_le_destinataire() {
    let code = Some("ABC123".to_string());
    let h72: i128 = 72 * 3_600_000_000_000;
    assert_eq!(vue_colis(1, &code, Some(10), 1), (true, Some("ABC123".to_string()), Some(10 + h72)));
    assert_eq!(vue_colis(1, &code, None, 2), (false, None, None));
}

#[test]
fn evaluations_montrees_sous_embargo() {
    let avis = vec![
        AvisLu { reviewer_id: 2, reviewee_id: 1, publiee: false },
        AvisLu { reviewer_id: 1, reviewee_id: 2, publiee: false },
    ];
    assert_eq!(avis_montres(&avis, 1), (Some(1), None));
    let avis = vec![
        AvisLu { reviewer_id: 2, reviewee_id: 1, publiee: true },
        AvisLu { reviewer_id: 1, reviewee_id: 2, publiee: true },
    ];
    assert_eq!(avis_montres(&avis, 1), (Some(1), Some(0)));
    assert_eq!(avis_montres(&avis, 3), (None, None));
}

#[test]
fn chargements_selon_le_troc() {
    assert!(colis_a_charger("envoi") && !colis_a_charger("main_propre"));
    assert!(avis_a_charger("finalise") && !avis_a_charger("accepte"));
    assert!(expiration_a_verifier("attente_paiement") && !expiration_a_verifier("accepte"));
}

#[test]
fn paiement_vu_par_le_payeur_et_le_beneficiaire() {
    let p = PaiementEnregistre {
        payer_id: 1,
        status: "sequestre".to_string(),
        amount_cents: 2_790,
        shipping_cents: 490,
        service_cents: 300,
        cash_cents: 2_000,
        fees_cents: 100,
        deadline: 42,
        failure_reason: Some("carte_refusee".to_string()),
    };
    let payeur = payment_info(&p, 1);
    assert!(payeur.i_am_payer);
    assert_eq!(payeur.net_cents, 1_900);
    assert_eq!(payeur.status, "sequestre");
    assert_eq!(payeur.failure_reason.as_deref(), Some("carte_refusee"));
    assert_eq!(payeur.secure_mode_url, None);
    let beneficiaire = payment_info(&p, 2);
    assert!(!beneficiaire.i_am_payer);
    let sans_soulte = PaiementEnregistre { cash_cents: 0, fees_cents: 50, failure_reason: None, ..p };
    assert_eq!(payment_info(&sans_soulte, 1).net_cents, 0);
}

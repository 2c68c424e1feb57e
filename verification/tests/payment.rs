use lebontroc::payment::{
    carte_plausible, commission_cents, delai_paiement_minutes, net_beneficiaire_cents, payeur,
    peut_annuler_paiement, peut_capturer, peut_expirer, peut_sequestrer, peut_tenter_preautorisation, Payeur,
};

#[test]
fn le_payeur_suit_la_direction_de_la_soulte() {
    assert_eq!(payeur("du_proposant"), Some(Payeur::Proposant));
    assert_eq!(payeur("du_destinataire"), Some(Payeur::Destinataire));
    assert_eq!(payeur("aucune"), None);
    assert_eq!(payeur("n_importe_quoi"), None);
}

#[test]
fn delai_court_si_le_payeur_accepte_lui_meme() {
    assert_eq!(delai_paiement_minutes(true), 30);
    assert_eq!(delai_paiement_minutes(false), 24 * 60);
}

#[test]
fn commission_en_basis_points_et_net() {
    assert_eq!(commission_cents(3_000, 0), 0);
    assert_eq!(net_beneficiaire_cents(3_000, 0), 3_000);
    assert_eq!(commission_cents(3_000, 500), 150);
    assert_eq!(net_beneficiaire_cents(3_000, 150), 2_850);
    assert_eq!(commission_cents(999, 500), 49);
    assert_eq!(net_beneficiaire_cents(100, 150), 0);
}

#[test]
fn commission_tronquee_vers_zero() {
    assert_eq!(commission_cents(-999, 500), -49);
    assert_eq!(commission_cents(i32::MAX, 10_000), i32::MAX);
    assert_eq!(commission_cents(i32::MIN, 10_000), i32::MIN);
}

#[test]
fn machine_a_etats_paiement() {
    for statut in ["en_attente", "echoue"] {
        assert!(peut_tenter_preautorisation(statut), "{statut}");
        assert!(peut_sequestrer(statut), "{statut}");
        assert!(peut_expirer(statut), "{statut}");
        assert!(peut_annuler_paiement(statut), "{statut}");
        assert!(!peut_capturer(statut), "{statut}");
    }
    assert!(peut_capturer("sequestre"));
    assert!(peut_annuler_paiement("sequestre"));
    assert!(!peut_expirer("sequestre"));
    assert!(!peut_sequestrer("sequestre"));
    for statut in ["capture", "annule", "expire"] {
        assert!(!peut_tenter_preautorisation(statut), "{statut}");
        assert!(!peut_capturer(statut), "{statut}");
        assert!(!peut_annuler_paiement(statut), "{statut}");
        assert!(!peut_expirer(statut), "{statut}");
    }
}

#[test]
fn carte_plausible_sur_la_longueur() {
    assert!(carte_plausible("4970000000000000"));
    assert!(carte_plausible("497000000002"));
    assert!(!carte_plausible("49700000000"));
    assert!(!carte_plausible("49700000000000000000"));
    assert!(!carte_plausible("4970abc000000000"));
    assert!(!carte_plausible(""));
}

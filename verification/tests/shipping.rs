use lebontroc::shipping::{montant_payeur_cents, peut_avancer, rang_statut, statut_troc_derive, transport_cents};

#[test]
fn bareme_des_formats() {
    assert_eq!(transport_cents("s"), Some(450));
    assert_eq!(transport_cents("m"), Some(690));
    assert_eq!(transport_cents("l"), Some(990));
    assert_eq!(transport_cents("xl"), None);
    assert_eq!(transport_cents(""), None);
}

#[test]
fn montant_du_payeur() {
    assert_eq!(montant_payeur_cents(690, 0), 890);
    assert_eq!(montant_payeur_cents(450, 2_000), 2_650);
}

#[test]
fn la_machine_a_etats_n_avance_que_vers_l_avant() {
    assert!(peut_avancer("etiquette", "depose"));
    assert!(peut_avancer("depose", "arrive"));
    assert!(peut_avancer("arrive", "retire"));
    assert!(peut_avancer("retire", "confirme"));
    assert!(!peut_avancer("arrive", "depose"));
    assert!(!peut_avancer("confirme", "retire"));
    assert!(!peut_avancer("incident", "confirme"));
    assert!(!peut_avancer("annule", "depose"));
    assert!(!peut_avancer("depose", "incident"));
}

#[test]
fn rangs_du_parcours_nominal() {
    assert_eq!(rang_statut("preparation"), Some(0));
    assert_eq!(rang_statut("transit"), Some(3));
    assert_eq!(rang_statut("confirme"), Some(6));
    assert_eq!(rang_statut("incident"), None);
    assert!(!peut_avancer("depose", "depose"));
}

#[test]
fn statut_du_troc_derive_des_deux_colis() {
    assert_eq!(statut_troc_derive("confirme", "confirme"), Some("finalise"));
    assert_eq!(statut_troc_derive("confirme", "retire"), None);
    assert_eq!(statut_troc_derive("depose", "arrive"), None);
    assert_eq!(statut_troc_derive("incident", "confirme"), Some("litige_gele"));
    assert_eq!(statut_troc_derive("depose", "incident"), Some("litige_gele"));
}

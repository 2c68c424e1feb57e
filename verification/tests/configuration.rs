use lebontroc::configuration::{
    cookies_securises, est_lundi, lire_u16, limite_orphelins, port_ou_defaut, reglage_non_vide,
    resume_kpis, verifier_secret_jwt, version_affichee,
};
use lebontroc::dto::KpisDto;

const JOUR: i128 = 86_400_000_000_000;

#[test]
fn version_du_build() {
    assert_eq!(version_affichee("0.1.0", Some("abc1234")), "0.1.0+abc1234");
    assert_eq!(version_affichee("0.1.0", Some("")), "0.1.0");
    assert_eq!(version_affichee("0.1.0", None), "0.1.0");
}

#[test]
fn reglages_du_demarrage() {
    assert!(cookies_securises(None));
    assert!(cookies_securises(Some("true")));
    assert!(!cookies_securises(Some("false")));
    assert!(verifier_secret_jwt(&"s".repeat(32)).is_ok());
    assert_eq!(verifier_secret_jwt("court"), Err("JWT_SECRET trop courte (32 caractères minimum)"));
    assert_eq!(reglage_non_vide(Some("")), None);
    assert_eq!(reglage_non_vide(Some("x")), Some("x".to_string()));
    assert_eq!(reglage_non_vide(None), None);
}

#[test]
fn lecture_d_un_port_comme_la_bibliotheque_standard() {
    for s in ["0", "8080", "+80", "65535", "007", "", "+", "-1", "65536", " 80", "8a", "99999999999"] {
        assert_eq!(lire_u16(s), s.parse::<u16>().ok(), "{s:?}");
    }
    assert_eq!(port_ou_defaut(Some("3000"), 8080), 3000);
    assert_eq!(port_ou_defaut(Some("x"), 8080), 8080);
    assert_eq!(port_ou_defaut(None, 1025), 1025);
}

#[test]
fn recapitulatif_le_lundi() {
    // 1970-01-05 était un lundi.
    assert!(est_lundi(4 * JOUR));
    assert!(est_lundi(4 * JOUR + JOUR - 1));
    assert!(!est_lundi(3 * JOUR));
    assert!(!est_lundi(0));
    // 1969-12-29, un lundi avant l'époque.
    assert!(est_lundi(-3 * JOUR));
    assert!(!est_lundi(-1));
    // 2024-01-01 était un lundi.
    assert!(est_lundi(1_704_067_200 * 1_000_000_000));
    assert_eq!(limite_orphelins(2 * JOUR), JOUR);
}

#[test]
fn texte_du_recapitulatif() {
    let k = KpisDto {
        signups: 3,
        items_published: 10,
        proposals_sent: 7,
        trades_created: 2,
        trades_finalized: 1,
        trades_with_cash: 0,
        disputes_opened: 0,
    };
    assert_eq!(
        resume_kpis(&k),
        "inscriptions       : 3\nobjets publiés     : 10\npropositions       : 7\ntrocs créés        : 2\ntrocs finalisés    : 1\n  dont avec soulte : 0\nlitiges ouverts    : 0"
    );
}

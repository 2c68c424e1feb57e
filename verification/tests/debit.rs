use lebontroc::debit::{origine, Debit};

const S: u64 = 1_000_000_000;

#[test]
fn origine_cookie_puis_adresse() {
    assert_eq!(origine(Some(&"c".repeat(100)), Some("1.2.3.4")).len(), 64);
    assert_eq!(origine(None, Some("1.2.3.4")), "1.2.3.4");
    assert_eq!(origine(None, None), "inconnu");
}

#[test]
fn cent_vingt_requetes_par_minute_et_par_origine() {
    let mut d = Debit::new();
    for i in 0..120u64 {
        assert!(d.demander("a", i * 100).is_ok());
    }
    let e = d.demander("a", 12_000).unwrap_err();
    assert_eq!(e.code, "trop_de_requetes");
    assert_eq!(e.message, "Trop de requêtes d'administration — réessaie dans une minute.");
    // Une autre origine n'est pas touchée.
    assert!(d.demander("b", 12_000).is_ok());
    // Passé la fenêtre, les anciennes requêtes ne comptent plus.
    assert!(d.demander("a", 60 * S + 200).is_ok());
}

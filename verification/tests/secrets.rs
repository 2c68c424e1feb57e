use lebontroc::erreurs::GenreErreur;
use lebontroc::secrets::{code_valide, code_valide_a, hachage_factice, verifier_hachage_enregistre, verify_dummy, demarrer_totp, enrolement_pour, hash_password, totp_instance, verify_password};

const SECRET: &str = "OBWGC2LOFVZXI4TJNZTS243FMNZGK5BNGEZDG";

#[test]
fn mot_de_passe_hache_puis_verifie() {
    let h = hash_password("un-bon-mot-de-passe").expect("hachage");
    assert!(h.starts_with("$argon2id$v=19$m=19456,t=2,p=1$"));
    assert_eq!(verify_password(&h, "un-bon-mot-de-passe"), Ok(true));
    assert_eq!(verify_password(&h, "un-autre"), Ok(false));
    let e = verify_password("pas un hachage", "x").unwrap_err();
    assert_eq!(e.genre, GenreErreur::Interne);
    assert_eq!(e.message, "hachage PHC illisible");
}

#[test]
fn instance_totp_du_compte() {
    assert!(totp_instance(SECRET, "alice").is_ok());
    let e = totp_instance("!!!", "alice").err().expect("secret illisible");
    assert_eq!(e.message, "secret TOTP illisible");
    let e = totp_instance(SECRET, "ali:ce").err().expect("deux-points refusé");
    assert_eq!(e.message, "paramètres TOTP refusés");
    // Moins de 128 bits de secret.
    assert!(totp_instance("MFRGG", "alice").is_err());
}

#[test]
fn code_totp_courant_accepte() {
    let t = totp_instance(SECRET, "alice").expect("totp");
    let reference = totp_rs::TOTP::new(
        totp_rs::Algorithm::SHA1,
        6,
        1,
        30,
        totp_rs::Secret::Encoded(SECRET.to_string()).to_bytes().unwrap(),
        Some("Lebontroc".to_string()),
        "alice".to_string(),
    )
    .unwrap();
    let code = reference.generate_current().unwrap();
    assert!(code_valide(&t, &format!("  {code} ")));
    assert!(!code_valide(&t, "12345"));
}

#[test]
fn enrolement_totp() {
    let d = demarrer_totp("alice").expect("enrôlement");
    assert_eq!(d.secret.len(), 32);
    assert!(d.otpauth_url.starts_with("otpauth://totp/Lebontroc:alice?secret="));
    assert!(d.otpauth_url.contains(&format!("secret={}", d.secret)));
    assert!(d.otpauth_url.contains("issuer=Lebontroc"));
    assert!(d.qr_svg.contains("<svg"));
}

#[test]
fn enrolement_d_un_secret_donne() {
    let secret = "JBSWY3DPEHPK3PXPJBSWY3DPEHPK3PXP";
    let d = enrolement_pour(secret.to_string(), "bob").expect("enrôlement");
    assert_eq!(d.secret, secret);
    assert!(d.otpauth_url.starts_with("otpauth://totp/Lebontroc:bob?secret="));
    assert!(d.otpauth_url.contains(&format!("secret={secret}")));
    assert!(d.qr_svg.contains("<svg"));
    let e = enrolement_pour("!!!".to_string(), "bob").err().expect("secret illisible");
    assert_eq!(e.message, "secret TOTP illisible");
    let e = enrolement_pour(SECRET.to_string(), "b:ob").err().expect("deux-points refusé");
    assert_eq!(e.message, "paramètres TOTP refusés");
}

#[test]
fn verification_factice() {
    let h = hachage_factice().expect("hachage factice");
    assert_eq!(verify_password(&h, "mot-de-passe-factice"), Ok(true));
    assert_eq!(verify_dummy(&h, "n'importe quoi"), Ok(()));
    let e = verify_dummy("pas un hachage", "x").unwrap_err();
    assert_eq!(e.message, "hachage PHC illisible");
}

#[test]
fn hachage_au_parametre_debordant_ecarte() {
    let h = hash_password("un-bon-mot-de-passe").expect("hachage");
    assert_eq!(verifier_hachage_enregistre(&h, "un-bon-mot-de-passe"), Some(Ok(true)));
    let debordant = h.replace("p=1$", "p=536870912$");
    assert_ne!(debordant, h);
    assert_eq!(verifier_hachage_enregistre(&debordant, "un-bon-mot-de-passe"), None);
    let e = verify_dummy(&debordant, "x").unwrap_err();
    assert_eq!(e.message, "hachage PHC illisible");
    // Trop de voies, mais sans débordement : Argon2 refuse, la vérification échoue.
    let trop = h.replace("p=1$", "p=16777216$");
    assert_eq!(verifier_hachage_enregistre(&trop, "un-bon-mot-de-passe"), Some(Ok(false)));
    let e = verifier_hachage_enregistre("pas un hachage", "x").expect("lisible").unwrap_err();
    assert_eq!(e.message, "hachage PHC illisible");
}

#[test]
fn code_totp_a_un_instant_donne() {
    let t = totp_instance(SECRET, "alice").expect("totp");
    let reference = totp_rs::TOTP::new(
        totp_rs::Algorithm::SHA1,
        6,
        1,
        30,
        totp_rs::Secret::Encoded(SECRET.to_string()).to_bytes().unwrap(),
        Some("Lebontroc".to_string()),
        "alice".to_string(),
    )
    .unwrap();
    let instant = 1_700_000_000u64;
    let code = reference.generate(instant);
    assert!(code_valide_a(&t, &format!(" {code}\n"), instant));
    // Un pas plus tôt ou plus tard, toujours dans la tolérance.
    assert!(code_valide_a(&t, &code, instant + 30));
    // Trois pas plus tard, hors tolérance.
    let coincidence = [60u64, 90, 120].iter().any(|d| reference.generate(instant + d) == code);
    assert_eq!(code_valide_a(&t, &code, instant + 90), coincidence);
    assert!(!code_valide_a(&t, "12345", instant));
}

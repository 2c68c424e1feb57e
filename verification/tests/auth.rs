use lebontroc::auth::{
    doit_verrouiller, valider_code_postal, valider_email, valider_mot_de_passe, valider_pseudo,
    ValidationError,
};

#[test]
fn email_valide_et_invalides() {
    assert!(valider_email("camille@exemple.fr").is_ok());
    assert!(valider_email("a@b.co").is_ok());
    assert!(valider_email("sans-arobase.fr").is_err());
    assert!(valider_email("@exemple.fr").is_err());
    assert!(valider_email("camille@exemple").is_err());
    assert!(valider_email("camille@exem ple.fr").is_err());
}

#[test]
fn email_bords_du_domaine_et_rognage() {
    assert!(valider_email("  camille@exemple.fr \n").is_ok());
    assert_eq!(valider_email("camille@.exemple.fr"), Err(ValidationError::EmailInvalide));
    assert_eq!(valider_email("camille@exemple.fr."), Err(ValidationError::EmailInvalide));
    assert_eq!(valider_email("camille@exem_ple.fr"), Err(ValidationError::EmailInvalide));
    // Seul le premier @ sépare : le second tombe dans le domaine, refusé.
    assert!(valider_email("a@b@c.fr").is_err());
    // 254 octets au plus.
    let local = "a".repeat(248);
    assert!(valider_email(&format!("{local}@ex.fr")).is_ok());
    assert!(valider_email(&format!("{local}b@ex.fr")).is_err());
}

#[test]
fn mot_de_passe_huit_caracteres_minimum() {
    assert!(valider_mot_de_passe("1234567").is_err());
    assert!(valider_mot_de_passe("12345678").is_ok());
    // Des caractères, pas des octets.
    assert!(valider_mot_de_passe("ééééééé").is_err());
    assert!(valider_mot_de_passe("éééééééé").is_ok());
}

#[test]
fn pseudo_regles() {
    assert!(valider_pseudo("camille_troc").is_ok());
    assert!(valider_pseudo("ab").is_err());
    assert!(valider_pseudo("a".repeat(31).as_str()).is_err());
    assert!(valider_pseudo("camille troc").is_err());
    assert!(valider_pseudo("camille!").is_err());
}

#[test]
fn pseudo_bornes_exactes() {
    assert!(valider_pseudo("abc").is_ok());
    assert!(valider_pseudo(&"a".repeat(30)).is_ok());
    assert_eq!(valider_pseudo("café"), Err(ValidationError::PseudoInvalide));
}

#[test]
fn code_postal_cinq_chiffres() {
    assert!(valider_code_postal("44000").is_ok());
    assert!(valider_code_postal("4400").is_err());
    assert!(valider_code_postal("4400a").is_err());
    assert!(valider_code_postal("440000").is_err());
}

#[test]
fn verrouillage_au_cinquieme_echec() {
    assert!(!doit_verrouiller(4));
    assert!(doit_verrouiller(5));
    assert!(doit_verrouiller(6));
}

use lebontroc::double_auth::{
    code_de_secours, code_de_secours_depuis, code_incorrect, code_incorrect_activation, codes_de_secours, empreinte_saisie,
    empreintes, etat_totp, totp_non_demarre, verification_exigee, verifier_reinitialisation,
};
use lebontroc::jetons::sha256_hex;

const ALPHABET: &str = "ABCDEFGHJKMNPQRSTVWXYZ23456789";

#[test]
fn codes_de_secours_au_bon_format() {
    for _ in 0..20 {
        let code = code_de_secours();
        let chars: Vec<char> = code.chars().collect();
        assert_eq!(chars.len(), 9);
        assert_eq!(chars[4], '-');
        for (i, c) in chars.iter().enumerate() {
            if i != 4 {
                assert!(ALPHABET.contains(*c), "{code}");
            }
        }
    }
    assert_eq!(codes_de_secours().len(), 10);
}

#[test]
fn seules_les_empreintes_sont_gardees() {
    let codes = vec!["ABCD-EFGH".to_string(), "2345-6789".to_string()];
    assert_eq!(empreintes(&codes), vec![sha256_hex("ABCD-EFGH"), sha256_hex("2345-6789")]);
    assert_eq!(empreinte_saisie("  abcd-efgh "), sha256_hex("ABCD-EFGH"));
}

#[test]
fn etat_et_exigence_de_la_double_authentification() {
    assert_eq!(etat_totp(true, false), (false, true));
    assert_eq!(etat_totp(true, true), (true, false));
    assert_eq!(etat_totp(false, false), (false, false));
    assert!(verification_exigee(true, true));
    assert!(!verification_exigee(true, false));
}

#[test]
fn recuperation_reservee_au_maitre_ou_a_la_cle() {
    assert!(verifier_reinitialisation(None, false).is_ok());
    assert!(verifier_reinitialisation(Some(1), true).is_ok());
    let e = verifier_reinitialisation(Some(1), false).unwrap_err();
    assert_eq!((e.code.as_str(), e.message.as_str()), ("compte_maitre_requis", "La récupération 2FA est réservée au compte maître."));
}

#[test]
fn refus_de_la_double_authentification() {
    assert_eq!(totp_non_demarre().message, "Commence par générer ton QR code.");
    assert_eq!(
        code_incorrect_activation().message,
        "Ce code ne correspond pas. Vérifie l'heure de ton téléphone et réessaie."
    );
    assert_eq!(code_incorrect().message, "Ce code ne correspond pas.");
}

#[test]
fn code_de_secours_des_tirages() {
    assert_eq!(code_de_secours_depuis(&vec![0, 1, 2, 3, 26, 27, 28, 29]), "ABCD-6789");
    assert_eq!(code_de_secours_depuis(&vec![8, 10, 12, 22, 29, 0, 0, 21]), "JMP2-9AAZ");
}

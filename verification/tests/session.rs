use lebontroc::erreurs::GenreErreur;
use lebontroc::session::{
    acces_valide, claims_acces, decode_access, encode_access, identite_du_jeton, jeton_acces, map_unique, ConflitUnicite, SessionEnregistree, SessionResponse, UserResponse, Utilisateur,
    access_cookie, access_cookie_name, agent_de_session, compte_verrouille, connexion_requise,
    echeance_rafraichissement, echeance_verification, email_normalise, expired_access_cookie,
    expired_refresh_cookie, identifiants_invalides, issue_rafraichissement, issue_verification,
    lien_verification, redirection_verification, refresh_cookie, session_expiree,
    session_introuvable, verifier_delai_renvoi, verifier_evenement, verifier_inscription,
    verifier_profil, verrou_actif, verrou_apres_echec, IssueRafraichissement, IssueVerification,
};

const S: i128 = 1_000_000_000;

#[test]
fn nom_du_cookie_d_acces() {
    assert_eq!(access_cookie_name(true), "__Host-lbt_access");
    assert_eq!(access_cookie_name(false), "lbt_access");
}

#[test]
fn cookies_d_authentification() {
    let c = access_cookie(true, "jwt".to_string());
    assert_eq!((c.nom.as_str(), c.valeur.as_str(), c.chemin.as_str()), ("__Host-lbt_access", "jwt", "/"));
    assert!(c.http_only && c.same_site_lax && c.secure);
    assert_eq!(c.max_age_secondes, 15 * 60);
    let c = refresh_cookie(false, "opaque".to_string());
    assert_eq!((c.nom.as_str(), c.chemin.as_str()), ("lbt_refresh", "/api/auth"));
    assert!(!c.secure);
    assert_eq!(c.max_age_secondes, 30 * 86_400);
    let c = expired_access_cookie(false);
    assert_eq!((c.nom.as_str(), c.valeur.as_str(), c.max_age_secondes), ("lbt_access", "", 0));
    let c = expired_refresh_cookie(true);
    assert_eq!((c.nom.as_str(), c.valeur.as_str(), c.chemin.as_str(), c.max_age_secondes), ("lbt_refresh", "", "/api/auth", 0));
}

#[test]
fn inscription_controlee_dans_l_ordre() {
    assert!(verifier_inscription("a@b.fr", "motdepasse", "alice_44", "44000").is_ok());
    assert_eq!(verifier_inscription("pas-un-email", "x", "!", "1").unwrap_err().code, "email_invalide");
    assert_eq!(verifier_inscription("a@b.fr", "court", "!", "1").unwrap_err().code, "mot_de_passe_trop_court");
    assert_eq!(verifier_inscription("a@b.fr", "motdepasse", "!", "1").unwrap_err().code, "pseudo_invalide");
    assert_eq!(verifier_inscription("a@b.fr", "motdepasse", "alice", "4400").unwrap_err().code, "code_postal_invalide");
    assert_eq!(verifier_profil("al", "44000").unwrap_err().code, "pseudo_invalide");
    assert!(verifier_profil("alice", "35000").is_ok());
}

#[test]
fn email_enregistre_rogne_et_en_minuscules() {
    assert_eq!(email_normalise("  Alice@Exemple.FR "), "alice@exemple.fr");
    assert_eq!(agent_de_session(&"a".repeat(300)).len(), 255);
    assert_eq!(agent_de_session("curl/8"), "curl/8");
}

#[test]
fn verrouillage_apres_cinq_echecs() {
    assert_eq!(verrou_apres_echec(3, 0), None);
    assert_eq!(verrou_apres_echec(4, 0), Some(15 * 60 * S));
    assert_eq!(verrou_apres_echec(9, 100), Some(100 + 15 * 60 * S));
    assert!(verrou_actif(Some(10), 5));
    assert!(!verrou_actif(Some(10), 10));
    assert!(!verrou_actif(None, 10));
    let e = compte_verrouille();
    assert_eq!(e.genre, GenreErreur::TropDeRequetes);
    assert_eq!((e.code.as_str(), e.message.as_str()), ("compte_verrouille", "Trop de tentatives. Réessaie dans 15 minutes."));
    let e = identifiants_invalides();
    assert_eq!(e.genre, GenreErreur::NonAutorise);
    assert_eq!(e.message, "E-mail ou mot de passe incorrect. Vérifie et réessaie.");
}

#[test]
fn rafraichissement_rejeu_expiration_rotation() {
    assert_eq!(issue_rafraichissement(true, false, 100, 0), IssueRafraichissement::Rejeu);
    assert_eq!(issue_rafraichissement(true, true, 0, 100), IssueRafraichissement::Rejeu);
    assert_eq!(issue_rafraichissement(false, true, 100, 0), IssueRafraichissement::Expiree);
    assert_eq!(issue_rafraichissement(false, false, 10, 11), IssueRafraichissement::Expiree);
    assert_eq!(issue_rafraichissement(false, false, 10, 10), IssueRafraichissement::Rotation);
    assert_eq!(echeance_rafraichissement(0), 30 * 86_400 * S);
    assert_eq!(session_expiree().message, "Ta session a expiré. Reconnecte-toi.");
    assert_eq!(connexion_requise().message, "Connecte-toi pour continuer.");
    assert_eq!(session_introuvable().genre, GenreErreur::Introuvable);
}

#[test]
fn verification_d_email() {
    assert_eq!(issue_verification(None, 0), IssueVerification::Invalide);
    assert_eq!(issue_verification(Some((true, true, 0)), 10), IssueVerification::DejaVerifie);
    assert_eq!(issue_verification(Some((true, false, 100)), 10), IssueVerification::Invalide);
    assert_eq!(issue_verification(Some((false, false, 5)), 10), IssueVerification::Expire);
    assert_eq!(issue_verification(Some((false, false, 10)), 10), IssueVerification::AValider);
    assert_eq!(
        redirection_verification("https://lebontroc.fr", IssueVerification::Expire),
        "https://lebontroc.fr/verification?statut=expire"
    );
    assert_eq!(
        redirection_verification("https://lebontroc.fr", IssueVerification::DejaVerifie),
        "https://lebontroc.fr/verification?statut=ok"
    );
    assert_eq!(
        lien_verification("https://lebontroc.fr", "abc"),
        "https://lebontroc.fr/api/auth/verify-email?token=abc"
    );
    assert_eq!(echeance_verification(0), 24 * 3_600 * S);
}

#[test]
fn renvoi_du_lien_une_fois_par_minute() {
    let e = verifier_delai_renvoi(Some(0), 59 * S).unwrap_err();
    assert_eq!(e.code, "renvoi_trop_rapide");
    assert_eq!(e.message, "On vient d'en envoyer un ! Regarde ta boîte, puis réessaie dans une minute.");
    assert!(verifier_delai_renvoi(Some(0), 60 * S).is_ok());
    assert!(verifier_delai_renvoi(None, 0).is_ok());
}

#[test]
fn evenements_du_front_sur_liste_blanche() {
    assert!(verifier_evenement("signup_started").is_ok());
    assert!(verifier_evenement("item_publish_started").is_ok());
    assert!(verifier_evenement("item_publish_abandoned").is_ok());
    let e = verifier_evenement("login_succeeded").unwrap_err();
    assert_eq!((e.code.as_str(), e.message.as_str()), ("evenement_inconnu", "Événement non autorisé."));
}

#[test]
fn jeton_d_acces_rend_son_identite() {
    let u: u128 = 0xa1a2a3a4b1b2c1c2d1d2d3d4d5d6d7d8;
    let c = claims_acces(u, 7, 1_000);
    assert_eq!(c.sub, "a1a2a3a4-b1b2-c1c2-d1d2-d3d4d5d6d7d8");
    assert_eq!(c.sid, "00000000-0000-0000-0000-000000000007");
    assert_eq!((c.iat, c.exp), (1_000, 1_900));
    assert_eq!(identite_du_jeton(&c.sub, &c.sid), Some((u, 7)));
    assert_eq!(identite_du_jeton("pas-un-uuid", &c.sid), None);
    assert_eq!(identite_du_jeton("a1a2a3a4b1b2c1c2d1d2d3d4d5d6d7d8", &c.sid), Some((u, 7)));
}

#[test]
fn conflits_d_unicite() {
    let e = map_unique(ConflitUnicite::EmailPris);
    assert_eq!(e.genre, GenreErreur::Conflit);
    assert_eq!(e.code, "email_pris");
    assert_eq!(e.message, "Un compte existe déjà avec cet e-mail. Connecte-toi plutôt ?");
    let e = map_unique(ConflitUnicite::PseudoPris);
    assert_eq!(e.genre, GenreErreur::Conflit);
    assert_eq!(e.code, "pseudo_pris");
    let e = map_unique(ConflitUnicite::Autre("users_x_key".to_string()));
    assert_eq!(e.genre, GenreErreur::Interne);
    assert_eq!(e.code, "erreur_interne");
    assert_eq!(e.message, "users_x_key");
}

#[test]
fn compte_vu_du_client() {
    let u = Utilisateur {
        id: 1,
        email: "a@b.fr".to_string(),
        pseudo: "alice".to_string(),
        postal_code: "75011".to_string(),
        email_verified_at: Some(3 * S),
        created_at: S,
    };
    let r = UserResponse::from(u);
    assert!(r.email_verified);
    assert_eq!(r.pseudo, "alice");
    assert_eq!(r.created_at, S);
    let u = Utilisateur {
        id: 2,
        email: "c@d.fr".to_string(),
        pseudo: "bob".to_string(),
        postal_code: "69001".to_string(),
        email_verified_at: None,
        created_at: S,
    };
    assert!(!UserResponse::from(u).email_verified);
}

#[test]
fn session_courante_signalee() {
    let s = SessionEnregistree { id: 9, user_agent: Some("curl".to_string()), created_at: S, last_used_at: 2 * S };
    let r = SessionResponse::from_session(s, 9);
    assert!(r.current);
    assert_eq!(r.user_agent.as_deref(), Some("curl"));
    let s = SessionEnregistree { id: 9, user_agent: None, created_at: S, last_used_at: 2 * S };
    assert!(!SessionResponse::from_session(s, 10).current);
}

const SECRET_JWT: &str = "un-secret-de-test-assez-long-pour-hs256!!";

#[test]
fn jeton_d_acces_relu() {
    let jeton = encode_access(SECRET_JWT, 7, 9).expect("jeton");
    assert_eq!(decode_access(SECRET_JWT, &jeton), Some((7, 9)));
    // Autre secret : signature refusée.
    assert_eq!(decode_access("un-autre-secret-tout-aussi-long-que-lautre", &jeton), None);
    // Jeton altéré.
    let mut altere = jeton.clone();
    altere.push('x');
    assert_eq!(decode_access(SECRET_JWT, &altere), None);
    assert_eq!(decode_access(SECRET_JWT, "pas.un.jeton"), None);
}

#[test]
fn jeton_d_acces_expire() {
    // Émis en 2001 : expiré depuis longtemps.
    let jeton = jeton_acces(SECRET_JWT, 7, 9, 1_000_000_000);
    assert_eq!(decode_access(SECRET_JWT, &jeton), None);
}

#[test]
fn jeton_d_acces_signe_hs256() {
    let jeton = jeton_acces(SECRET_JWT, 1, 2, 1_700_000_000);
    let mut validation = jsonwebtoken::Validation::default();
    validation.validate_exp = false;
    let lu = jsonwebtoken::decode::<serde_json::Value>(
        &jeton,
        &jsonwebtoken::DecodingKey::from_secret(SECRET_JWT.as_bytes()),
        &validation,
    )
    .expect("signature HS256");
    assert_eq!(lu.header.alg, jsonwebtoken::Algorithm::HS256);
    assert_eq!(lu.claims["sub"], "00000000-0000-0000-0000-000000000001");
    assert_eq!(lu.claims["sid"], "00000000-0000-0000-0000-000000000002");
    assert_eq!(lu.claims["iat"], 1_700_000_000i64);
    assert_eq!(lu.claims["exp"], 1_700_000_900i64);
}

#[test]
fn echeance_avec_marge() {
    let rev = |exp: i64| {
        Some((
            "00000000-0000-0000-0000-000000000001".to_string(),
            "00000000-0000-0000-0000-000000000002".to_string(),
            0i64,
            exp,
        ))
    };
    assert_eq!(acces_valide(rev(1_000), 1_060), Some((1, 2)));
    assert_eq!(acces_valide(rev(1_000), 1_061), None);
    assert_eq!(acces_valide(None, 0), None);
    let mauvais = Some(("pas-un-uuid".to_string(), "00000000-0000-0000-0000-000000000002".to_string(), 0i64, 5_000i64));
    assert_eq!(acces_valide(mauvais, 0), None);
}

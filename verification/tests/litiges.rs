use lebontroc::dispute::Sanction;
use lebontroc::erreurs::GenreErreur;
use lebontroc::litiges::{
    alerte_admin, bilan_arbitrage, cles_de_pieces, colis_contestable, effet_ouverture, erreur_issue_invalide,
    erreur_reponse, erreur_signalement, evenement_penalite, issue_valide, libelle_sanction,
    mesure_pour, message_mesure, partie_du_troc, peut_repondre, texte_issue, textes_ouverture,
    valider_reponse, valider_signalement, ColisResume, EffetOuverture, Mesure, RefusReponse,
    RefusSignalement,
};

fn colis(id: u128, recipient: u128, status: &str) -> ColisResume {
    ColisResume { id, sender_id: 99, recipient_id: recipient, status: status.to_string() }
}

#[test]
fn colis_contestable_le_premier_recu_arrive_ou_retire() {
    let liste = vec![colis(1, 5, "transit"), colis(2, 7, "arrive"), colis(3, 5, "retire"), colis(4, 5, "arrive")];
    assert_eq!(colis_contestable(&liste, 5), Some(2));
    assert_eq!(colis_contestable(&liste, 8), None);
}

#[test]
fn effet_de_l_ouverture_selon_le_troc() {
    assert_eq!(effet_ouverture("accepte", true), EffetOuverture::SignalerColis);
    assert_eq!(effet_ouverture("accepte", false), EffetOuverture::GelerTroc);
    assert_eq!(effet_ouverture("finalise", true), EffetOuverture::Aucun);
}

#[test]
fn pieces_retenues_parmi_les_cinq_premieres_du_dossier() {
    let cles: Vec<String> = ["litiges/a", "items/b", "litiges/c", "litiges/d", "x", "litiges/f", "litiges/g"]
        .iter()
        .map(|s| s.to_string())
        .collect();
    assert_eq!(cles_de_pieces(&cles), vec![0, 2, 3]);
}

#[test]
fn reponse_au_dossier_controlee() {
    assert_eq!(valider_reponse(Some(1), 1, "ma version", 0), Err(RefusReponse::DejaTaVersion));
    assert_eq!(valider_reponse(Some(1), 2, "   ", 0), Err(RefusReponse::DescriptionInvalide));
    assert_eq!(valider_reponse(Some(1), 2, &"x".repeat(1001), 0), Err(RefusReponse::DescriptionInvalide));
    assert_eq!(valider_reponse(Some(1), 2, "ma version", 6), Err(RefusReponse::TropDePieces));
    assert_eq!(valider_reponse(None, 2, "ma version", 5), Ok(()));
    let e = erreur_reponse(RefusReponse::DejaTaVersion);
    assert_eq!(e.code, "deja_ta_version");
    assert_eq!(e.message, "Le dossier porte déjà ta version — c'est à l'autre partie de répondre.");
    assert!(peut_repondre("ouvert", Some(1), 2, false));
    assert!(!peut_repondre("ouvert", Some(2), 2, false));
    assert!(!peut_repondre("en_examen", Some(1), 2, false));
    assert!(!peut_repondre("ouvert", Some(1), 2, true));
}

#[test]
fn signalements_controles() {
    assert_eq!(valider_signalement("pigeon", "autre", None), Err(RefusSignalement::CibleInvalide));
    assert_eq!(valider_signalement("objet", "autre", None), Err(RefusSignalement::MotifInconnu));
    assert_eq!(valider_signalement("utilisateur", "autre", Some("  ")), Err(RefusSignalement::PrecisionRequise));
    assert_eq!(
        valider_signalement("message", "tentative_arnaque", Some(&"y".repeat(1001))),
        Err(RefusSignalement::DescriptionInvalide)
    );
    assert_eq!(
        valider_signalement("utilisateur", "autre", Some("  il insiste  ")),
        Ok(Some("il insiste".to_string()))
    );
    assert_eq!(valider_signalement("objet", "contrefacon", None), Ok(None));
    assert_eq!(erreur_signalement(RefusSignalement::MotifInconnu).genre, GenreErreur::RequeteInvalide);
}

#[test]
fn arbitrage_issues_et_penalites() {
    assert!(issue_valide("capture") && issue_valide("liberation") && issue_valide("rejet"));
    assert!(!issue_valide("autre"));
    assert_eq!(erreur_issue_invalide().message, "L'issue est capture, liberation ou rejet.");
    assert!(partie_du_troc(1, 1, 2) && partie_du_troc(2, 1, 2) && !partie_du_troc(3, 1, 2));
    assert_eq!(evenement_penalite("capture", "non_depot", Some(1), 2), None);
    assert_eq!(evenement_penalite("rejet", "non_conforme", Some(2), 2), Some("litige_abusif"));
    assert_eq!(evenement_penalite("capture", "contrefacon", Some(1), 2), Some("contrefacon_averee"));
    assert_eq!(evenement_penalite("capture", "jamais_venu", Some(1), 2), Some("no_show_confirme"));
    assert_eq!(evenement_penalite("liberation", "non_conforme", Some(1), 2), Some("litige_perdu"));
    assert_eq!(texte_issue("capture"), "le troc est validé, les règlements bloqués sont débités.");
    assert_eq!(texte_issue("rejet"), "le dossier est classé sans suite, le troc reprend son cours normal.");
    assert_eq!(libelle_sanction(Sanction::Restriction), "restriction");
}

#[test]
fn sanctions_automatiques_sans_doublon() {
    assert_eq!(mesure_pour(Sanction::Aucune, false, false), Mesure::Rien);
    assert_eq!(mesure_pour(Sanction::Avertissement, false, false), Mesure::Avertir);
    assert_eq!(mesure_pour(Sanction::Restriction, false, false), Mesure::Restreindre);
    assert_eq!(mesure_pour(Sanction::Restriction, false, true), Mesure::DejaEnPlace);
    assert_eq!(mesure_pour(Sanction::Restriction, true, false), Mesure::DejaEnPlace);
    assert_eq!(mesure_pour(Sanction::Bannissement, false, true), Mesure::Bannir);
    assert_eq!(mesure_pour(Sanction::Bannissement, true, false), Mesure::DejaEnPlace);
    assert_eq!(
        message_mesure(Mesure::Restreindre),
        Some("Suite à plusieurs incidents avérés, ton compte est restreint pendant 30 jours : tes trocs en cours continuent, mais tu ne peux plus faire de nouvelles propositions.")
    );
    assert_eq!(message_mesure(Mesure::DejaEnPlace), None);
    assert_eq!(alerte_admin(Mesure::Bannir, "zoe"), Some("BANNISSEMENT automatique de zoe".to_string()));
    assert_eq!(alerte_admin(Mesure::Restreindre, "zoe"), Some("restriction 30 j automatique de zoe".to_string()));
    assert_eq!(alerte_admin(Mesure::Avertir, "zoe"), None);
}

#[test]
fn textes_de_l_ouverture_d_un_dossier() {
    let t = textes_ouverture("alice", "non_conforme");
    assert_eq!(t.titre_notif, "Un dossier est ouvert sur ton troc");
    assert_eq!(t.corps_notif, "alice a signalé un problème (non_conforme). Tu as 72 h pour donner ta version.");
    assert_eq!(t.alerte_mail, "dossier non_conforme ouvert par alice");
    assert_eq!(t.titre_admin, "⚖️ Nouveau dossier de litige");
    assert_eq!(t.corps_admin, "alice a ouvert un dossier (non_conforme).");
}

#[test]
fn bilan_d_un_arbitrage() {
    // Litige perdu : +6 points.
    assert_eq!(bilan_arbitrage(3, "capture", "non_conforme", Some(1), 2), (9, "avertissement"));
    // Contrefaçon avérée : +15, bannissement.
    assert_eq!(bilan_arbitrage(0, "capture", "contrefacon", Some(1), 2), (15, "bannissement"));
    // Dossier rejeté, ouvert par la partie pénalisée : litige abusif, +2.
    assert_eq!(bilan_arbitrage(9, "rejet", "contrefacon", Some(2), 2), (11, "restriction"));
    // Non-dépôt : déjà journalisé, rien de plus.
    assert_eq!(bilan_arbitrage(4, "liberation", "non_depot", Some(1), 2), (4, "aucune"));
    // Jamais venu : no-show confirmé, +4.
    assert_eq!(bilan_arbitrage(0, "capture", "jamais_venu", Some(1), 2), (4, "aucune"));
}

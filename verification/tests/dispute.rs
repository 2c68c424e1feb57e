use chrono::{DateTime, Duration, TimeZone, Utc};
use lebontroc::dispute::{
    capture_main_propre_due, fenetre_ouverture, motifs_signalement, points, sanction_pour_score,
    valider_ouverture, DisputeError, Sanction,
};

fn t(h: i64) -> DateTime<Utc> {
    Utc.with_ymd_and_hms(2026, 8, 1, 12, 0, 0).unwrap() + Duration::hours(h)
}

fn ns(instant: DateTime<Utc>) -> i128 {
    i128::from(instant.timestamp()) * 1_000_000_000 + i128::from(instant.timestamp_subsec_nanos())
}

#[test]
fn ouverture_valide_motif_description_et_pieces() {
    assert!(valider_ouverture("non_conforme", "Le vélo est cassé.", 3).is_ok());
    assert_eq!(valider_ouverture("inconnu", "x", 0), Err(DisputeError::MotifInconnu));
    assert_eq!(valider_ouverture("abime", "  ", 0), Err(DisputeError::DescriptionInvalide));
    assert_eq!(valider_ouverture("abime", "ok", 6), Err(DisputeError::TropDePieces));
}

#[test]
fn fenetre_envoi_avant_confirmation() {
    let ok = fenetre_ouverture("non_conforme", "envoi", "accepte", ns(t(0)), None, true, ns(t(1)));
    assert!(ok.is_ok());
    // Colis déjà confirmé (plus rien à recevoir) : trop tard.
    let ko = fenetre_ouverture("non_conforme", "envoi", "accepte", ns(t(0)), None, false, ns(t(1)));
    assert_eq!(ko, Err(DisputeError::HorsFenetre));
    // Pas de no-show en mode envoi.
    let ko = fenetre_ouverture("jamais_venu", "envoi", "accepte", ns(t(0)), None, true, ns(t(1)));
    assert_eq!(ko, Err(DisputeError::HorsFenetre));
}

#[test]
fn fenetre_no_show_a_j3() {
    let trop_tot = fenetre_ouverture(
        "jamais_venu",
        "main_propre",
        "accepte",
        ns(t(0)),
        None,
        false,
        ns(t(71)),
    );
    assert_eq!(trop_tot, Err(DisputeError::HorsFenetre));
    let ok = fenetre_ouverture(
        "jamais_venu",
        "main_propre",
        "accepte",
        ns(t(0)),
        None,
        false,
        ns(t(73)),
    );
    assert!(ok.is_ok());
}

#[test]
fn fenetre_48h_apres_remise() {
    let ok = fenetre_ouverture(
        "non_conforme",
        "main_propre",
        "finalise",
        ns(t(0)),
        Some(ns(t(10))),
        false,
        ns(t(10 + 47)),
    );
    assert!(ok.is_ok());
    let trop_tard = fenetre_ouverture(
        "non_conforme",
        "main_propre",
        "finalise",
        ns(t(0)),
        Some(ns(t(10))),
        false,
        ns(t(10 + 49)),
    );
    assert_eq!(trop_tard, Err(DisputeError::HorsFenetre));
    assert!(!capture_main_propre_due(ns(t(10)), ns(t(10 + 47))));
    assert!(capture_main_propre_due(ns(t(10)), ns(t(10 + 48))));
}

#[test]
fn fenetre_bords_exacts() {
    // No-show pile à J+3 : ouvert ; une nanoseconde avant : fermé.
    let j3 = ns(t(72));
    assert!(fenetre_ouverture("jamais_venu", "main_propre", "accepte", ns(t(0)), None, false, j3).is_ok());
    assert!(fenetre_ouverture("jamais_venu", "main_propre", "accepte", ns(t(0)), None, false, j3 - 1).is_err());
    // Pile à 48 h après la remise : fermé, et la capture est due.
    let h48 = ns(t(10 + 48));
    assert!(fenetre_ouverture("abime", "main_propre", "finalise", ns(t(0)), Some(ns(t(10))), false, h48).is_err());
    assert!(capture_main_propre_due(ns(t(10)), h48));
    // Finalisé sans date : jamais ouvert ; statut inconnu : jamais ouvert.
    assert!(fenetre_ouverture("abime", "main_propre", "finalise", ns(t(0)), None, false, ns(t(1))).is_err());
    assert!(fenetre_ouverture("abime", "envoi", "finalise", ns(t(0)), None, true, ns(t(1))).is_err());
    // Pas de débordement aux extrêmes.
    assert!(!capture_main_propre_due(i128::MAX, i128::MAX));
}

#[test]
fn bareme_et_seuils() {
    assert_eq!(points("contrefacon_averee"), 15);
    assert_eq!(points("non_depot"), 5);
    assert_eq!(points("truc_inconnu"), 0);
    assert_eq!(sanction_pour_score(4), Sanction::Aucune);
    assert_eq!(sanction_pour_score(5), Sanction::Avertissement);
    assert_eq!(sanction_pour_score(11), Sanction::Restriction);
    assert_eq!(sanction_pour_score(15), Sanction::Bannissement);
}

#[test]
fn bareme_complet_et_monotonie() {
    assert_eq!(points("litige_perdu"), 6);
    assert_eq!(points("no_show_confirme"), 4);
    assert_eq!(points("litige_abusif"), 2);
    assert_eq!(points("signalement_fonde"), 2);
    assert_eq!(sanction_pour_score(10), Sanction::Restriction);
    assert_eq!(sanction_pour_score(9), Sanction::Avertissement);
    assert_eq!(sanction_pour_score(-3), Sanction::Aucune);
    assert_eq!(sanction_pour_score(i32::MAX), Sanction::Bannissement);
}

#[test]
fn motifs_signalement_par_cible() {
    assert!(motifs_signalement("objet").unwrap().contains(&"contrefacon"));
    assert!(motifs_signalement("message").unwrap().contains(&"contournement_masquage"));
    assert!(motifs_signalement("pigeon").is_none());
}

#[test]
fn motifs_signalement_listes_completes() {
    assert_eq!(motifs_signalement("utilisateur").unwrap().len(), 5);
    assert_eq!(motifs_signalement("message").unwrap().len(), 4);
    assert_eq!(motifs_signalement("objet").unwrap()[4], "spam_doublon");
}

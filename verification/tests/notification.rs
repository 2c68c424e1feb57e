use lebontroc::dto::EmailPrefsResponse;
use lebontroc::notification::{email_permis, preferences_affichees, preferences_enregistrees, textes_favori};
use lebontroc::notification::{email_active, email_desactivable, type_valide, EmailPrefs, TYPES, TYPES_EMAIL_DESACTIVABLES};

fn prefs(entrees: &[(&str, bool)]) -> EmailPrefs {
    EmailPrefs { drapeaux: entrees.iter().map(|(k, v)| (k.to_string(), *v)).collect() }
}

#[test]
fn les_types_critiques_ignorent_les_preferences() {
    let prefs = prefs(&[("paiement", false), ("litige", false)]);
    assert!(email_active(&prefs, "paiement"));
    assert!(email_active(&prefs, "litige"));
    assert!(email_active(&prefs, "expedition"));
}

#[test]
fn gherkin_favoris_coupables() {
    // Défaut : activé (opt-out).
    assert!(email_active(&prefs(&[]), "favori"));
    // Coupé : plus d'e-mail — l'in-app reste (hors de ce module).
    assert!(!email_active(&prefs(&[("favori", false)]), "favori"));
    // Rallumé explicitement.
    assert!(email_active(&prefs(&[("favori", true)]), "favori"));
}

#[test]
fn taxonomie_fermee() {
    assert!(type_valide("proposition_recue"));
    assert!(!type_valide("spam"));
    for kind in TYPES_EMAIL_DESACTIVABLES {
        assert!(TYPES.contains(&kind), "{kind} doit être un type connu");
        assert!(type_valide(kind));
        assert!(email_desactivable(kind));
    }
    assert!(!email_desactivable("paiement"));
}

#[test]
fn preference_d_un_autre_type_sans_effet() {
    assert!(email_active(&prefs(&[("message_recu", false)]), "favori"));
    assert!(!email_active(&prefs(&[("favori", false), ("message_recu", true)]), "favori"));
}

#[test]
fn preferences_enregistrees_puis_relues() {
    let r = EmailPrefsResponse {
        proposition_recue: false,
        proposition_cloturee: true,
        message_recu: false,
        evaluation: true,
        favori: false,
    };
    let prefs = preferences_enregistrees(&r);
    assert_eq!(prefs.drapeaux.len(), 5);
    let relu = preferences_affichees(&prefs);
    assert_eq!(
        (relu.proposition_recue, relu.proposition_cloturee, relu.message_recu, relu.evaluation, relu.favori),
        (false, true, false, true, false)
    );
}

#[test]
fn email_permis_sans_preferences_lisibles() {
    assert!(email_permis(None, "favori"));
    let coupe = EmailPrefs { drapeaux: vec![("favori".to_string(), false)] };
    assert!(!email_permis(Some(&coupe), "favori"));
    assert!(email_permis(Some(&coupe), "paiement"));
}

#[test]
fn notification_d_un_favori() {
    let t = textes_favori(true, "Vélo", 0xa1a2a3a4b1b2c1c2d1d2d3d4d5d6d7d8);
    assert_eq!(t.titre, "Ton favori vient d'être réservé");
    assert_eq!(t.corps, "« Vélo » est en cours de troc. Il peut revenir !");
    assert_eq!(t.lien, "/objet/a1a2a3a4-b1b2-c1c2-d1d2-d3d4d5d6d7d8?source=favori");
    let t = textes_favori(false, "Vélo", 1);
    assert_eq!(t.titre, "Ton favori est de nouveau disponible !");
    assert_eq!(t.corps, "« Vélo » est reparti dans le fil.");
}

use lebontroc::echanges::{
    autre_doit_agir, autre_partie, chiffres_seuls, decider_acceptation, decider_proposition, erreur_proposition, RefusProposition, code_de_remise, code_de_remise_pour, compte_restreint,
    decider_reglement, demande_preautorisation, direction_soulte, echeance_proposition, erreur_acceptation,
    erreur_composition, erreur_refus_preautorisation, erreur_reglement, lignes_proposition,
    montant_du_par, mot_de_proposition, paiement_en_retard, plan_paiements,
    verifier_composition, verifier_contre_composition, verifier_ouverture,
    verifier_remise_acceptation, DecisionReglement, IssueAcceptation, NouveauPaiement,
    ObjetPropose, PaiementDu, RefusComposition,
};
use lebontroc::erreurs::GenreErreur;

const MIN: i128 = 60_000_000_000;

fn objet(id: u128, owner: u128, status: &str, value: i32) -> ObjetPropose {
    ObjetPropose { id, owner_id: owner, status: status.to_string(), value_cents: value }
}

#[test]
fn composition_acceptee_renvoie_le_destinataire() {
    let offertes = vec![objet(1, 10, "disponible", 5_000)];
    let demandees = vec![objet(2, 20, "disponible", 6_000), objet(3, 20, "disponible", 1_000)];
    assert_eq!(verifier_composition(10, 1, &offertes, 2, &demandees), Ok(20));
}

#[test]
fn composition_refusee_dans_l_ordre_des_controles() {
    let mien = vec![objet(1, 10, "disponible", 5_000)];
    // Un objet offert qui n'est pas à moi.
    let pas_a_moi = vec![objet(1, 11, "disponible", 5_000)];
    let sien = vec![objet(2, 20, "disponible", 6_000)];
    assert_eq!(
        verifier_composition(10, 1, &pas_a_moi, 1, &sien),
        Err(RefusComposition::ObjetIndisponible)
    );
    // Un identifiant demandé introuvable en base.
    assert_eq!(verifier_composition(10, 1, &mien, 2, &sien), Err(RefusComposition::ObjetIndisponible));
    // Un objet demandé réservé.
    let reserve = vec![objet(2, 20, "reserve", 6_000)];
    assert_eq!(verifier_composition(10, 1, &mien, 1, &reserve), Err(RefusComposition::ObjetIndisponible));
    assert_eq!(verifier_composition(10, 1, &mien, 0, &vec![]), Err(RefusComposition::ObjetsManquants));
    let deux = vec![objet(2, 20, "disponible", 1), objet(3, 30, "disponible", 1)];
    assert_eq!(
        verifier_composition(10, 1, &mien, 2, &deux),
        Err(RefusComposition::DestinatairesMultiples)
    );
    let a_moi = vec![objet(4, 10, "disponible", 1)];
    assert_eq!(verifier_composition(10, 1, &mien, 1, &a_moi), Err(RefusComposition::TrocAvecSoi));
}

#[test]
fn contre_proposition_vise_le_proposant_initial() {
    let mien = vec![objet(1, 20, "disponible", 5_000)];
    let sien = vec![objet(2, 10, "disponible", 6_000)];
    assert_eq!(verifier_contre_composition(20, 1, &mien, 1, &sien, 10), Ok(()));
    assert_eq!(
        verifier_contre_composition(20, 1, &mien, 1, &sien, 99),
        Err(RefusComposition::ObjetIndisponible)
    );
}

#[test]
fn refus_de_composition_traduits() {
    let e = erreur_composition(RefusComposition::ObjetIndisponible);
    assert_eq!(e.code, "objet_indisponible");
    assert_eq!(e.message, "Un des objets n'est plus disponible — recharge la page.");
    let e = erreur_composition(RefusComposition::TrocAvecSoi);
    assert_eq!(e.message, "Troquer avec soi-même, c'est ranger — choisis un autre troqueur.");
    let e = erreur_composition(RefusComposition::ObjetsManquants);
    assert_eq!(e.code, "objets_manquants");
}

#[test]
fn restriction_et_blocage_ferment_les_propositions() {
    assert!(compte_restreint(Some(100), 50));
    assert!(!compte_restreint(Some(100), 100));
    assert!(!compte_restreint(None, 0));
    let e = verifier_ouverture(true, Some(100), 50).unwrap_err();
    assert_eq!(e.code, "propositions_fermees");
    assert_eq!(e.genre, GenreErreur::Interdit);
    let e = verifier_ouverture(false, Some(100), 50).unwrap_err();
    assert_eq!(e.code, "compte_restreint");
    assert_eq!(
        e.message,
        "Ton compte est restreint : pas de nouvelles propositions pour le moment. Tes trocs en cours continuent normalement."
    );
    assert!(verifier_ouverture(false, Some(100), 200).is_ok());
}

#[test]
fn lignes_offertes_puis_demandees_a_valeur_figee() {
    let offertes = vec![objet(1, 10, "disponible", 5_000)];
    let demandees = vec![objet(2, 20, "disponible", 6_000), objet(3, 20, "disponible", 700)];
    let lignes = lignes_proposition(&offertes, &demandees);
    assert_eq!(lignes, vec![(1, "offert", 5_000), (2, "demande", 6_000), (3, "demande", 700)]);
}

#[test]
fn mot_direction_et_echeance_de_proposition() {
    assert_eq!(direction_soulte(None), "aucune");
    assert_eq!(direction_soulte(Some("du_proposant")), "du_proposant");
    assert_eq!(mot_de_proposition(Some("   ")), None);
    assert_eq!(mot_de_proposition(Some("  bonjour ")), Some("bonjour".to_string()));
    let long = "x".repeat(600);
    assert_eq!(mot_de_proposition(Some(&long)).unwrap().chars().count(), 500);
    assert_eq!(echeance_proposition(0), 7 * 24 * 60 * MIN);
}

#[test]
fn plan_envoi_un_paiement_par_partie() {
    let plan = plan_paiements("envoi", 1, 2, 2, 3_000, "du_proposant", 500, 0).expect("plan");
    assert_eq!(plan.len(), 2);
    let p = &plan[0];
    assert_eq!((p.payer_id, p.beneficiary_id), (1, 2));
    assert_eq!(p.amount_cents, 200 + 3_000);
    assert_eq!(p.fees_cents, 150);
    assert_eq!(p.service_cents, 200);
    assert_eq!(p.deadline, 1440 * MIN);
    let q = &plan[1];
    assert_eq!((q.payer_id, q.beneficiary_id), (2, 1));
    assert_eq!(q.amount_cents, 200);
    assert_eq!(q.fees_cents, 0);
}

#[test]
fn plan_main_propre_seul_le_payeur_de_soulte() {
    // Le destinataire accepte et doit la soulte : 30 minutes.
    let plan = plan_paiements("main_propre", 1, 2, 2, 2_000, "du_destinataire", 500, 0).expect("plan");
    assert_eq!(plan.len(), 1);
    assert_eq!((plan[0].payer_id, plan[0].beneficiary_id), (2, 1));
    assert_eq!(plan[0].amount_cents, 2_000);
    assert_eq!(plan[0].fees_cents, 100);
    assert_eq!(plan[0].service_cents, 0);
    assert_eq!(plan[0].deadline, 30 * MIN);
    // Le proposant doit la soulte : une journée.
    let plan = plan_paiements("main_propre", 1, 2, 2, 2_000, "du_proposant", 500, 0).expect("plan");
    assert_eq!(plan[0].deadline, 1440 * MIN);
    // Sans soulte, rien à payer en main propre.
    assert_eq!(plan_paiements("main_propre", 1, 2, 2, 0, "aucune", 500, 0).expect("plan").len(), 0);
    // Soulte sans direction : donnée corrompue.
    assert!(plan_paiements("main_propre", 1, 2, 2, 2_000, "aucune", 500, 0).is_none());
}

#[test]
fn autre_partie_et_action_attendue() {
    assert_eq!(autre_partie(1, 2, 1), 2);
    assert_eq!(autre_partie(1, 2, 2), 1);
    let plan: Vec<NouveauPaiement> =
        plan_paiements("main_propre", 1, 2, 2, 2_000, "du_proposant", 0, 0).expect("plan");
    assert!(autre_doit_agir("main_propre", &plan, 1));
    assert!(!autre_doit_agir("main_propre", &plan, 2));
    assert!(autre_doit_agir("envoi", &vec![], 1));
    assert_eq!(montant_du_par(&plan, 1), 2_000);
    assert_eq!(montant_du_par(&plan, 2), 0);
}

fn du(status: &str, deadline: i128, shipping: i32) -> PaiementDu {
    PaiementDu { status: status.to_string(), deadline, shipping_cents: shipping }
}

#[test]
fn reglement_controle_dans_l_ordre() {
    let carte = "4970 1012 3456 7890";
    assert_eq!(decider_reglement(None, "attente_paiement", "main_propre", carte, 0), DecisionReglement::PasLePayeur);
    let p = du("sequestre", 10, 0);
    assert_eq!(decider_reglement(Some(&p), "annule", "main_propre", carte, 0), DecisionReglement::DejaRegle);
    let p = du("en_attente", 10, 0);
    assert_eq!(decider_reglement(Some(&p), "accepte", "main_propre", carte, 0), DecisionReglement::TrocClos);
    assert_eq!(decider_reglement(Some(&p), "attente_paiement", "main_propre", carte, 11), DecisionReglement::DelaiDepasse);
    assert_eq!(decider_reglement(Some(&p), "attente_paiement", "envoi", carte, 0), DecisionReglement::EnvoiNonConfigure);
    assert_eq!(decider_reglement(Some(&p), "attente_paiement", "main_propre", "12", 0), DecisionReglement::CarteInvalide);
    assert_eq!(
        decider_reglement(Some(&p), "attente_paiement", "main_propre", carte, 0),
        DecisionReglement::Preautoriser("4970101234567890".to_string())
    );
}

#[test]
fn reglement_refus_traduits() {
    let e = erreur_reglement(&DecisionReglement::PasLePayeur).expect("erreur");
    assert_eq!((e.code.as_str(), e.message.as_str()), ("pas_le_payeur", "Tu n'as rien à régler sur ce troc."));
    let e = erreur_reglement(&DecisionReglement::DelaiDepasse).expect("erreur");
    assert_eq!(e.code, "paiement_expire");
    assert_eq!(e.message, "Le délai de paiement est dépassé : le troc a été annulé et les objets libérés.");
    let e = erreur_reglement(&DecisionReglement::EnvoiNonConfigure).expect("erreur");
    assert_eq!(e.message, "Choisis d'abord le format de ton colis et ton point relais.");
    assert!(erreur_reglement(&DecisionReglement::DejaRegle).is_none());
    let e = erreur_refus_preautorisation("provision_insuffisante");
    assert_eq!(e.code, "paiement_refuse");
    assert_eq!(
        e.message,
        "Provision insuffisante : la banque n'a pas pu bloquer le montant. Réessaie avec une autre carte."
    );
    let e = erreur_refus_preautorisation("autre");
    assert_eq!(e.message, "Ta banque a refusé la préautorisation. Vérifie ta carte et réessaie.");
}

#[test]
fn chiffres_seuls_garde_les_chiffres() {
    assert_eq!(chiffres_seuls("12 34-56a"), "123456");
    assert_eq!(chiffres_seuls(""), "");
}

#[test]
fn paiement_en_retard_seulement_s_il_reste_retentable() {
    let retard = vec![du("sequestre", 5, 0), du("echoue", 5, 0)];
    assert!(paiement_en_retard(&retard, 6));
    assert!(!paiement_en_retard(&retard, 5));
    let regles = vec![du("sequestre", 5, 0)];
    assert!(!paiement_en_retard(&regles, 6));
}

#[test]
fn acceptation_remise_et_issues() {
    assert!(verifier_remise_acceptation("envoi").is_ok());
    let e = verifier_remise_acceptation("pigeon").unwrap_err();
    assert_eq!((e.code.as_str(), e.message.as_str()), ("remise_inconnue", "Choisis main propre ou envoi."));
    let e = erreur_acceptation(IssueAcceptation::NonOuverte { caduque: true }).expect("erreur");
    assert_eq!(e.genre, GenreErreur::Conflit);
    assert_eq!(
        e.message,
        "Trop tard : un des objets vient d'être réservé dans un autre troc. La proposition n'est plus valable."
    );
    let e = erreur_acceptation(IssueAcceptation::NonOuverte { caduque: false }).expect("erreur");
    assert_eq!(e.code, "transition_interdite");
    let e = erreur_acceptation(IssueAcceptation::ObjetsIndisponibles).expect("erreur");
    assert_eq!(e.message, "Trop tard : un des objets vient d'être réservé dans un autre troc.");
    let e = erreur_acceptation(IssueAcceptation::Introuvable).expect("erreur");
    assert_eq!(e.genre, GenreErreur::Introuvable);
    assert!(erreur_acceptation(IssueAcceptation::DejaAcceptee).is_none());
}

#[test]
fn code_de_remise_a_six_chiffres() {
    for _ in 0..50 {
        let code = code_de_remise();
        assert_eq!(code.len(), 6);
        assert!(code.chars().all(|c| c.is_ascii_digit()));
    }
}

#[test]
fn code_de_remise_complete_par_des_zeros() {
    assert_eq!(code_de_remise_pour(0), "000000");
    assert_eq!(code_de_remise_pour(42), "000042");
    assert_eq!(code_de_remise_pour(123456), "123456");
    assert_eq!(code_de_remise_pour(999_999), "999999");
}

#[test]
fn demande_envoyee_a_la_banque() {
    let d = demande_preautorisation(DecisionReglement::Preautoriser("4970101234567890".to_string()), 1, 2_500)
        .expect("préautorisation");
    assert_eq!(d.reference, "payment-00000000-0000-0000-0000-000000000001");
    assert_eq!(d.amount_cents, 2_500);
    assert_eq!(d.card_number, "4970101234567890");
    assert!(demande_preautorisation(DecisionReglement::TrocClos, 1, 2_500).is_none());
    assert!(demande_preautorisation(DecisionReglement::DejaRegle, 1, 2_500).is_none());
}

#[test]
fn plan_main_propre_grosse_soulte() {
    let plan = plan_paiements("main_propre", 1, 2, 1, i32::MAX, "du_proposant", 0, 0).expect("plan");
    assert_eq!(plan.len(), 1);
    assert_eq!(plan[0].amount_cents, i32::MAX);
    assert_eq!(plan[0].service_cents, 0);
}

#[test]
fn proposition_decidee_dans_l_ordre() {
    let mien = vec![objet(1, 10, "disponible", 5_000)];
    let sien = vec![objet(2, 20, "disponible", 6_000)];
    let ok = decider_proposition(true, 10, 1, &mien, 1, &sien, false, None, 0, 0, "aucune");
    assert_eq!(ok, Ok(20));
    // E-mail non vérifié : refusé avant tout.
    let r = decider_proposition(false, 10, 1, &mien, 1, &vec![], true, Some(5), 0, 0, "aucune");
    assert_eq!(r, Err(RefusProposition::EmailNonVerifie));
    // Composition avant blocage.
    let r = decider_proposition(true, 10, 1, &mien, 0, &vec![], true, None, 0, 0, "aucune");
    assert_eq!(r, Err(RefusProposition::Composition(RefusComposition::ObjetsManquants)));
    // Blocage avant restriction.
    let r = decider_proposition(true, 10, 1, &mien, 1, &sien, true, Some(5), 0, 0, "aucune");
    assert_eq!(r, Err(RefusProposition::Bloque));
    // Restriction en cours avant les règles du troc.
    let r = decider_proposition(true, 10, 1, &mien, 1, &sien, false, Some(5), 0, 1, "aucune");
    assert_eq!(r, Err(RefusProposition::Restreint));
    // Les règles du troc en dernier.
    let r = decider_proposition(true, 10, 1, &mien, 1, &sien, false, Some(0), 5, 1, "aucune");
    assert!(matches!(r, Err(RefusProposition::Regle(_))));
    let e = erreur_proposition(RefusProposition::Bloque);
    assert_eq!((e.genre, e.code.as_str()), (GenreErreur::Interdit, "propositions_fermees"));
    let e = erreur_proposition(RefusProposition::EmailNonVerifie);
    assert_eq!((e.genre, e.code.as_str()), (GenreErreur::Interdit, "email_non_verifie"));
    let e = erreur_proposition(RefusProposition::Restreint);
    assert_eq!(e.code, "compte_restreint");
}

#[test]
fn acceptation_decidee_dans_l_ordre() {
    let e = decider_acceptation("pigeon", false, 1, 2, 2, 0, "aucune", 500, 0).unwrap_err();
    assert_eq!(e.code, "remise_inconnue");
    let e = decider_acceptation("envoi", false, 1, 2, 2, 0, "aucune", 500, 0).unwrap_err();
    assert_eq!((e.genre, e.message.as_str()), (GenreErreur::Introuvable, "Cette proposition n'existe pas."));
    let e = decider_acceptation("main_propre", true, 1, 2, 2, 1_000, "aucune", 500, 0).unwrap_err();
    assert_eq!((e.genre, e.message.as_str()), (GenreErreur::Interne, "soulte sans direction — donnée corrompue"));
    let v = decider_acceptation("envoi", true, 1, 2, 2, 0, "aucune", 500, 0).expect("plan");
    assert_eq!(v.len(), 2);
}

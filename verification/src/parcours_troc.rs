//! Les étapes d'un troc après l'acceptation : confirmation par codes,
//! annulation à l'amiable, configuration et suivi des colis, finalisation,
//! et la présentation des propositions dans la boîte de réception.
//!
//! Identifiants : entiers 128 bits ; instants : nanosecondes depuis l'époque.

use vstd::prelude::*;
use crate::erreurs::{est_erreur, ApiError, GenreErreur};
use crate::jetons::{forme_uuid, texte_uuid};
use crate::payment::{capturable, net_beneficiaire_cents, peut_capturer};
use crate::shipping::{transport_cents, transport_de};
use crate::texte::{concatener, meme_texte};
use crate::trade::quotient_tronque;

verus! {

pub const NANOS_PAR_JOUR: i128 = 86_400_000_000_000;

// ————— Confirmation par codes (main propre) —————

pub open spec fn erreur_mode_envoi(e: ApiError) -> bool {
    est_erreur(e, GenreErreur::RequeteInvalide, "mode_envoi"@, "Ce troc se finalise à la réception des colis, pas par codes."@)
}

/// Les codes croisés sont le rituel de la main propre : un troc envoi se
/// finalise à la réception des colis.
pub fn verifier_confirmation_par_codes(delivery_mode: &str) -> (r: Result<(), ApiError>)
    ensures
        r is Ok <==> delivery_mode@ != "envoi"@,
        r matches Err(e) ==> erreur_mode_envoi(e),
{
    if meme_texte(delivery_mode, "envoi") {
        Err(ApiError::bad_request("mode_envoi", "Ce troc se finalise à la réception des colis, pas par codes."))
    } else {
        Ok(())
    }
}

/// Ce que la base répond à une saisie de code.
#[derive(Debug, Clone, Copy, PartialEq, Eq)]
pub enum IssueConfirmation {
    Introuvable,
    /// Le troc n'attend plus de confirmation.
    Clos,
    MauvaisCode,
    /// Code accepté ; `finalise` quand c'était la seconde confirmation.
    Confirme { finalise: bool },
}

pub open spec fn reponse_confirmation(issue: IssueConfirmation, r: Option<ApiError>) -> bool {
    match issue {
        IssueConfirmation::Introuvable => r matches Some(e) && est_erreur(e, GenreErreur::Introuvable, "introuvable"@, "Ce troc n'existe pas."@),
        IssueConfirmation::Clos => r matches Some(e) && est_erreur(e, GenreErreur::RequeteInvalide, "troc_clos"@,
            "Ce troc n'est plus en attente de confirmation."@),
        IssueConfirmation::MauvaisCode => r matches Some(e) && est_erreur(e, GenreErreur::RequeteInvalide, "code_invalide"@,
            "Ce n'est pas le bon code — vérifie avec l'autre partie (6 chiffres)."@),
        IssueConfirmation::Confirme { .. } => r is None,
    }
}

/// Le refus d'une saisie de code, ou rien quand elle est acceptée.
pub fn erreur_confirmation(issue: IssueConfirmation) -> (r: Option<ApiError>)
    ensures
        reponse_confirmation(issue, r),
{
    match issue {
        IssueConfirmation::Introuvable => Some(ApiError::not_found("Ce troc n'existe pas.")),
        IssueConfirmation::Clos => Some(ApiError::bad_request("troc_clos", "Ce troc n'est plus en attente de confirmation.")),
        IssueConfirmation::MauvaisCode => Some(ApiError::bad_request(
            "code_invalide",
            "Ce n'est pas le bon code — vérifie avec l'autre partie (6 chiffres).",
        )),
        IssueConfirmation::Confirme { .. } => None,
    }
}

/// Le nombre de jours pleins entre deux instants (arrondi vers zéro).
pub fn jours_ecoules(debut: i128, fin: i128) -> (r: i128)
    requires
        i128::MIN < fin - debut <= i128::MAX,
    ensures
        r == quotient_tronque(fin - debut, NANOS_PAR_JOUR as int),
{
    let d = fin - debut;
    if d >= 0 {
        d / NANOS_PAR_JOUR
    } else {
        -((-d) / NANOS_PAR_JOUR)
    }
}

// ————— Annulation à l'amiable —————

/// Ce que la base répond à une demande d'annulation.
#[derive(Debug, Clone, Copy, PartialEq, Eq)]
pub enum IssueAnnulation {
    Introuvable,
    /// Le troc n'est plus annulable.
    Clos,
    /// Un colis a déjà voyagé.
    ColisEnRoute,
    /// Première demande : l'autre partie doit confirmer.
    EnAttente,
    /// Seconde demande : le troc est annulé, les paiements libérés.
    Annule,
}

pub open spec fn reponse_annulation(issue: IssueAnnulation, r: Option<ApiError>) -> bool {
    match issue {
        IssueAnnulation::Introuvable => r matches Some(e) && est_erreur(e, GenreErreur::Introuvable, "introuvable"@, "Ce troc n'existe pas."@),
        IssueAnnulation::Clos => r matches Some(e) && est_erreur(e, GenreErreur::RequeteInvalide, "troc_clos"@, "Ce troc n'est plus annulable."@),
        IssueAnnulation::ColisEnRoute => r matches Some(e) && est_erreur(e, GenreErreur::RequeteInvalide, "colis_en_route"@,
            "Un colis a déjà voyagé : le troc ne peut plus être annulé à l'amiable. Signale un problème à la réception si besoin."@),
        IssueAnnulation::EnAttente => r is None,
        IssueAnnulation::Annule => r is None,
    }
}

/// Le refus d'une demande d'annulation, ou rien quand elle est enregistrée.
pub fn erreur_annulation(issue: IssueAnnulation) -> (r: Option<ApiError>)
    ensures
        reponse_annulation(issue, r),
{
    match issue {
        IssueAnnulation::Introuvable => Some(ApiError::not_found("Ce troc n'existe pas.")),
        IssueAnnulation::Clos => Some(ApiError::bad_request("troc_clos", "Ce troc n'est plus annulable.")),
        IssueAnnulation::ColisEnRoute => Some(ApiError::bad_request(
            "colis_en_route",
            "Un colis a déjà voyagé : le troc ne peut plus être annulé à l'amiable. Signale un problème à la réception si besoin.",
        )),
        IssueAnnulation::EnAttente => None,
        IssueAnnulation::Annule => None,
    }
}

// ————— Règlements —————

/// Une capture ne s'annonce par e-mail que si elle transfère une soulte :
/// le bénéficiaire reçoit le net, le payeur voit la soulte.
pub fn net_a_annoncer(soulte_cents: i32, fees_cents: i32) -> (r: Option<i32>)
    requires
        i32::MIN <= soulte_cents - fees_cents <= i32::MAX,
    ensures
        soulte_cents <= 0 ==> r is None,
        soulte_cents > 0 ==> r == Some((if soulte_cents - fees_cents > 0 { soulte_cents - fees_cents } else { 0 }) as i32),
{
    if soulte_cents > 0 {
        Some(net_beneficiaire_cents(soulte_cents, fees_cents))
    } else {
        None
    }
}

/// Les paiements à capturer à la finalisation d'un troc envoi : ceux qui
/// sont séquestrés, dans l'ordre.
pub fn paiements_a_capturer(statuts: &Vec<String>) -> (r: Vec<usize>)
    ensures
        forall|j: int| 0 <= j < r@.len() ==> (#[trigger] r@[j]) < statuts@.len() && capturable(statuts@[r@[j] as int]@),
        forall|i: int| 0 <= i < statuts@.len() && capturable(statuts@[i]@) ==> r@.contains(i as usize),
        forall|a: int, b: int| 0 <= a < b < r@.len() ==> r@[a] < r@[b],
{
    let mut r: Vec<usize> = Vec::new();
    let mut i: usize = 0;
    while i < statuts.len()
        invariant
            i <= statuts@.len(),
            forall|j: int| 0 <= j < r@.len() ==> (#[trigger] r@[j]) < i && capturable(statuts@[r@[j] as int]@),
            forall|x: int| 0 <= x < i && capturable(statuts@[x]@) ==> r@.contains(x as usize),
            forall|a: int, b: int| 0 <= a < b < r@.len() ==> r@[a] < r@[b],
        decreases statuts.len() - i,
    {
        let ghost avant = r@;
        if peut_capturer(statuts[i].as_str()) {
            r.push(i);
            assert(r@[r@.len() - 1] == i);
        }
        assert forall|x: int| 0 <= x < i + 1 && capturable(statuts@[x]@) implies r@.contains(x as usize) by {
            if x < i {
                let k = choose|k: int| 0 <= k < avant.len() && avant[k] == x as usize;
                assert(r@[k] == x as usize);
            } else {
                assert(r@[r@.len() - 1] == i);
            }
        }
        i = i + 1;
    }
    r
}

// ————— Envoi croisé —————

/// La configuration de mon envoi : un troc envoi, un format connu ; en cas
/// de succès, le transport de ce format.
pub fn verifier_configuration_envoi(delivery_mode: &str, format: &str) -> (r: Result<i32, ApiError>)
    ensures
        delivery_mode@ != "envoi"@ ==> (r matches Err(e) && est_erreur(e, GenreErreur::RequeteInvalide,
            "mode_main_propre"@, "Ce troc se fait en main propre — rien à expédier."@)),
        delivery_mode@ == "envoi"@ ==> match transport_de(format@) {
            Some(t) => r == Ok::<i32, ApiError>(t),
            None => r matches Err(e) && est_erreur(e, GenreErreur::RequeteInvalide,
                "format_inconnu"@, "Choisis un format S (≤ 1 kg), M (≤ 3 kg) ou L (≤ 10 kg)."@),
        },
{
    if !meme_texte(delivery_mode, "envoi") {
        return Err(ApiError::bad_request("mode_main_propre", "Ce troc se fait en main propre — rien à expédier."));
    }
    match transport_cents(format) {
        Some(t) => Ok(t),
        None => Err(ApiError::bad_request("format_inconnu", "Choisis un format S (≤ 1 kg), M (≤ 3 kg) ou L (≤ 10 kg).")),
    }
}

/// Le relais choisi doit faire partie de ceux proposés : le premier relais
/// de ce code.
pub fn relais_propose(codes: &Vec<String>, choisi: &str) -> (r: Result<usize, ApiError>)
    ensures
        match r {
            Ok(k) => k < codes@.len() && codes@[k as int]@ == choisi@
                && forall|j: int| 0 <= j < k ==> (#[trigger] codes@[j])@ != choisi@,
            Err(e) => (forall|j: int| 0 <= j < codes@.len() ==> (#[trigger] codes@[j])@ != choisi@)
                && est_erreur(e, GenreErreur::RequeteInvalide, "relais_inconnu"@,
                    "Ce point relais ne fait pas partie de ceux proposés — recharge la liste."@),
        },
{
    let mut k: usize = 0;
    while k < codes.len()
        invariant
            k <= codes@.len(),
            forall|j: int| 0 <= j < k ==> (#[trigger] codes@[j])@ != choisi@,
        decreases codes.len() - k,
    {
        if meme_texte(codes[k].as_str(), choisi) {
            return Ok(k);
        }
        k = k + 1;
    }
    Err(ApiError::bad_request("relais_inconnu", "Ce point relais ne fait pas partie de ceux proposés — recharge la liste."))
}

/// Mon envoi n'est plus modifiable (déjà payé ou étiquette générée).
pub fn envoi_fige() -> (e: ApiError)
    ensures
        est_erreur(e, GenreErreur::RequeteInvalide, "envoi_fige"@,
            "Ton envoi n'est plus modifiable (déjà payé ou étiquette générée)."@),
{
    ApiError::bad_request("envoi_fige", "Ton envoi n'est plus modifiable (déjà payé ou étiquette générée).")
}

/// Seuls l'expéditeur et le destinataire d'un colis y ont accès.
pub fn partie_du_colis(expediteur: u128, destinataire: u128, moi: u128) -> (r: bool)
    ensures
        r == (expediteur == moi || destinataire == moi),
{
    expediteur == moi || destinataire == moi
}

/// Une étape de suivi déclarée par une partie.
#[derive(Debug, Clone, Copy, PartialEq, Eq)]
pub enum EtapeColis {
    Depot,
    Retrait,
    Confirmation,
}

pub open spec fn refus_etape_attendu(etape: EtapeColis, e: ApiError) -> bool {
    match etape {
        EtapeColis::Depot => est_erreur(e, GenreErreur::RequeteInvalide, "depot_impossible"@,
            "Ce colis n'a pas d'étiquette à déposer (ou l'est déjà)."@),
        EtapeColis::Retrait => est_erreur(e, GenreErreur::RequeteInvalide, "retrait_impossible"@,
            "Ce colis n'est pas encore arrivé au relais (ou est déjà retiré)."@),
        EtapeColis::Confirmation => est_erreur(e, GenreErreur::RequeteInvalide, "confirmation_impossible"@,
            "Retire d'abord le colis au relais avant de confirmer."@),
    }
}

/// Le refus d'une étape que la base n'a pas pu enregistrer.
pub fn refus_etape(etape: EtapeColis) -> (e: ApiError)
    ensures
        refus_etape_attendu(etape, e),
{
    match etape {
        EtapeColis::Depot => ApiError::bad_request("depot_impossible", "Ce colis n'a pas d'étiquette à déposer (ou l'est déjà)."),
        EtapeColis::Retrait => ApiError::bad_request(
            "retrait_impossible",
            "Ce colis n'est pas encore arrivé au relais (ou est déjà retiré).",
        ),
        EtapeColis::Confirmation => ApiError::bad_request(
            "confirmation_impossible",
            "Retire d'abord le colis au relais avant de confirmer.",
        ),
    }
}

/// La demande d'étiquette d'un colis : sa référence `shipment-{uuid}`, son
/// format et son relais ; rien tant que le format ou le relais manque.
pub fn demande_etiquette(colis_id: u128, format: Option<&str>, relais: Option<&str>) -> (r: Option<String>)
    ensures
        (format is Some && relais is Some) ==> (r matches Some(reference) && reference@ == "shipment-"@ + forme_uuid(colis_id)),
        !(format is Some && relais is Some) ==> r is None,
{
    match (format, relais) {
        (Some(_), Some(_)) => {
            let id = texte_uuid(colis_id);
            Some(concatener("shipment-", id.as_str()))
        },
        _ => None,
    }
}

/// Le nom du relais dans l'e-mail d'arrivée, `point relais` s'il manque.
pub fn nom_du_relais(nom: Option<&str>) -> (r: &str)
    ensures
        r@ == (match nom {
            Some(n) => n@,
            None => "point relais"@,
        }),
{
    match nom {
        Some(n) => n,
        None => "point relais",
    }
}

// ————— Boîte de réception —————

/// La boîte des propositions reçues, sauf demande explicite des envoyées.
pub fn boite_recue(boite: Option<&str>) -> (r: bool)
    ensures
        r == !(boite matches Some(b) && b@ == "envoyees"@),
{
    match boite {
        Some(b) => !meme_texte(b, "envoyees"),
        None => true,
    }
}

/// Les lignes d'une proposition réparties en objets offerts et demandés,
/// chacune dans l'ordre d'origine.
pub fn repartir_lignes(cotes: &Vec<String>, lignes: &Vec<usize>) -> (r: (Vec<usize>, Vec<usize>))
    requires
        forall|j: int| 0 <= j < lignes@.len() ==> (#[trigger] lignes@[j]) < cotes@.len(),
    ensures
        r.0@ == lignes@.filter(|k: usize| cotes@[k as int]@ == "offert"@),
        r.1@ == lignes@.filter(|k: usize| cotes@[k as int]@ != "offert"@),
{
    let mut offertes: Vec<usize> = Vec::new();
    let mut demandees: Vec<usize> = Vec::new();
    let mut i: usize = 0;
    while i < lignes.len()
        invariant
            i <= lignes@.len(),
            forall|j: int| 0 <= j < lignes@.len() ==> (#[trigger] lignes@[j]) < cotes@.len(),
            offertes@ == lignes@.take(i as int).filter(|k: usize| cotes@[k as int]@ == "offert"@),
            demandees@ == lignes@.take(i as int).filter(|k: usize| cotes@[k as int]@ != "offert"@),
        decreases lignes.len() - i,
    {
        let k = lignes[i];
        assert(lignes@.take(i + 1).drop_last() =~= lignes@.take(i as int));
        reveal_with_fuel(Seq::filter, 1);
        if meme_texte(cotes[k].as_str(), "offert") {
            offertes.push(k);
        } else {
            demandees.push(k);
        }
        i = i + 1;
    }
    assert(lignes@.take(i as int) =~= lignes@);
    (offertes, demandees)
}

/// Le destinataire qui ouvre une proposition encore ouverte la marque vue.
pub fn a_marquer_vue(destinataire: u128, lecteur: u128, status: &str) -> (r: bool)
    ensures
        r == (destinataire == lecteur && status@ == "envoyee"@),
{
    destinataire == lecteur && crate::trade::peut_marquer_vue(status)
}

} // verus!

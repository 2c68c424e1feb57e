//! Décisions des parcours de troc : composition d'une proposition, plan des
//! paiements à l'acceptation, règlement d'un paiement, codes saisis.
//!
//! Les identifiants sont des entiers 128 bits (les UUID de la base), les
//! instants des nanosecondes depuis l'époque Unix.

use vstd::prelude::*;
use crate::erreurs::{car_chiffre, est_erreur, map_trade_error, reponse_troc, ApiError, GenreErreur};
use crate::payment::{self, carte_vraisemblable, commission, payeur_de, tentable, Payeur};
use crate::shipping::SERVICE_CENTS;
use crate::texte::{
    caracteres, chaine_de, concatener, est_chiffre, est_chiffre_exec, meme_texte, que_des_chiffres, texte_facultatif,
    texte_facultatif_exec, vue_facultative,
};
use crate::trade::TradeError;
use crate::jetons::{forme_uuid, texte_uuid};

verus! {

// ————— Composition d'une proposition —————

/// Un objet tel que la base le renvoie pour composer une proposition.
#[derive(Debug, Clone, PartialEq, Eq)]
pub struct ObjetPropose {
    pub id: u128,
    pub owner_id: u128,
    pub status: String,
    pub value_cents: i32,
}

pub open spec fn disponible(o: ObjetPropose) -> bool {
    o.status@ == "disponible"@
}

/// Pourquoi la composition d'une proposition est refusée.
#[derive(Debug, Clone, Copy, PartialEq, Eq)]
pub enum RefusComposition {
    /// Un objet manque, n'est pas au bon propriétaire ou n'est plus disponible.
    ObjetIndisponible,
    /// Aucun objet demandé.
    ObjetsManquants,
    /// Les objets demandés appartiennent à plusieurs troqueurs.
    DestinatairesMultiples,
    /// Les objets demandés sont les miens.
    TrocAvecSoi,
}

/// Tous les objets sont à `owner` et disponibles.
pub open spec fn tous_a_et_disponibles(objets: Seq<ObjetPropose>, owner: u128) -> bool {
    forall|i: int| 0 <= i < objets.len() ==> (#[trigger] objets[i]).owner_id == owner && disponible(objets[i])
}

/// Tous les objets sont disponibles.
pub open spec fn tous_disponibles(objets: Seq<ObjetPropose>) -> bool {
    forall|i: int| 0 <= i < objets.len() ==> disponible(#[trigger] objets[i])
}

/// Tous les objets sont à `owner`.
pub open spec fn tous_a(objets: Seq<ObjetPropose>, owner: u128) -> bool {
    forall|i: int| 0 <= i < objets.len() ==> (#[trigger] objets[i]).owner_id == owner
}

/// Contrôle des objets d'une nouvelle proposition. `demandes_*` est le
/// nombre d'identifiants envoyés, `offertes` et `demandees` les objets que
/// la base a retrouvés. En cas de succès : le destinataire.
pub open spec fn regle_composition(
    user_id: u128,
    demandes_offertes: nat,
    offertes: Seq<ObjetPropose>,
    demandes_demandees: nat,
    demandees: Seq<ObjetPropose>,
) -> Result<u128, RefusComposition> {
    if offertes.len() != demandes_offertes || !tous_a_et_disponibles(offertes, user_id) {
        Err(RefusComposition::ObjetIndisponible)
    } else if demandees.len() != demandes_demandees || !tous_disponibles(demandees) {
        Err(RefusComposition::ObjetIndisponible)
    } else if demandees.len() == 0 {
        Err(RefusComposition::ObjetsManquants)
    } else if !tous_a(demandees, demandees[0].owner_id) {
        Err(RefusComposition::DestinatairesMultiples)
    } else if demandees[0].owner_id == user_id {
        Err(RefusComposition::TrocAvecSoi)
    } else {
        Ok(demandees[0].owner_id)
    }
}

/// Contrôle des objets d'une contre-proposition : mes objets disponibles
/// contre des objets disponibles du proposant initial.
pub open spec fn regle_contre_composition(
    user_id: u128,
    demandes_offertes: nat,
    offertes: Seq<ObjetPropose>,
    demandes_demandees: nat,
    demandees: Seq<ObjetPropose>,
    proposant_id: u128,
) -> Result<(), RefusComposition> {
    if offertes.len() != demandes_offertes || !tous_a_et_disponibles(offertes, user_id) {
        Err(RefusComposition::ObjetIndisponible)
    } else if demandees.len() != demandes_demandees || !tous_a_et_disponibles(demandees, proposant_id) {
        Err(RefusComposition::ObjetIndisponible)
    } else {
        Ok(())
    }
}

fn tous_a_et_disponibles_exec(objets: &Vec<ObjetPropose>, owner: u128) -> (r: bool)
    ensures
        r == tous_a_et_disponibles(objets@, owner),
{
    let mut i: usize = 0;
    while i < objets.len()
        invariant
            i <= objets@.len(),
            forall|j: int| 0 <= j < i ==> (#[trigger] objets@[j]).owner_id == owner && disponible(objets@[j]),
        decreases objets.len() - i,
    {
        if objets[i].owner_id != owner || !meme_texte(objets[i].status.as_str(), "disponible") {
            return false;
        }
        i = i + 1;
    }
    true
}

fn tous_disponibles_exec(objets: &Vec<ObjetPropose>) -> (r: bool)
    ensures
        r == tous_disponibles(objets@),
{
    let mut i: usize = 0;
    while i < objets.len()
        invariant
            i <= objets@.len(),
            forall|j: int| 0 <= j < i ==> disponible(#[trigger] objets@[j]),
        decreases objets.len() - i,
    {
        if !meme_texte(objets[i].status.as_str(), "disponible") {
            return false;
        }
        i = i + 1;
    }
    true
}

fn tous_a_exec(objets: &Vec<ObjetPropose>, owner: u128) -> (r: bool)
    ensures
        r == tous_a(objets@, owner),
{
    let mut i: usize = 0;
    while i < objets.len()
        invariant
            i <= objets@.len(),
            forall|j: int| 0 <= j < i ==> (#[trigger] objets@[j]).owner_id == owner,
        decreases objets.len() - i,
    {
        if objets[i].owner_id != owner {
            return false;
        }
        i = i + 1;
    }
    true
}

/// Les objets d'une nouvelle proposition : les miens, disponibles, contre
/// des objets disponibles d'un seul autre troqueur — qui est renvoyé.
pub fn verifier_composition(
    user_id: u128,
    demandes_offertes: usize,
    offertes: &Vec<ObjetPropose>,
    demandes_demandees: usize,
    demandees: &Vec<ObjetPropose>,
) -> (r: Result<u128, RefusComposition>)
    ensures
        r == regle_composition(user_id, demandes_offertes as nat, offertes@, demandes_demandees as nat, demandees@),
{
    if offertes.len() != demandes_offertes || !tous_a_et_disponibles_exec(offertes, user_id) {
        return Err(RefusComposition::ObjetIndisponible);
    }
    if demandees.len() != demandes_demandees || !tous_disponibles_exec(demandees) {
        return Err(RefusComposition::ObjetIndisponible);
    }
    if demandees.len() == 0 {
        return Err(RefusComposition::ObjetsManquants);
    }
    let destinataire = demandees[0].owner_id;
    if !tous_a_exec(demandees, destinataire) {
        return Err(RefusComposition::DestinatairesMultiples);
    }
    if destinataire == user_id {
        return Err(RefusComposition::TrocAvecSoi);
    }
    Ok(destinataire)
}

/// Les objets d'une contre-proposition : les miens contre ceux du proposant initial.
pub fn verifier_contre_composition(
    user_id: u128,
    demandes_offertes: usize,
    offertes: &Vec<ObjetPropose>,
    demandes_demandees: usize,
    demandees: &Vec<ObjetPropose>,
    proposant_id: u128,
) -> (r: Result<(), RefusComposition>)
    ensures
        r == regle_contre_composition(
            user_id,
            demandes_offertes as nat,
            offertes@,
            demandes_demandees as nat,
            demandees@,
            proposant_id,
        ),
{
    if offertes.len() != demandes_offertes || !tous_a_et_disponibles_exec(offertes, user_id) {
        return Err(RefusComposition::ObjetIndisponible);
    }
    if demandees.len() != demandes_demandees || !tous_a_et_disponibles_exec(demandees, proposant_id) {
        return Err(RefusComposition::ObjetIndisponible);
    }
    Ok(())
}

/// La réponse d'un refus de composition.
pub open spec fn reponse_composition(refus: RefusComposition, r: ApiError) -> bool {
    match refus {
        RefusComposition::ObjetIndisponible => est_erreur(r, GenreErreur::RequeteInvalide, "objet_indisponible"@,
            "Un des objets n'est plus disponible — recharge la page."@),
        RefusComposition::ObjetsManquants => reponse_troc(TradeError::ObjetsManquants, r),
        RefusComposition::DestinatairesMultiples => est_erreur(r, GenreErreur::RequeteInvalide,
            "destinataires_multiples"@, "Une proposition vise les objets d'un seul troqueur."@),
        RefusComposition::TrocAvecSoi => est_erreur(r, GenreErreur::RequeteInvalide, "troc_avec_soi"@,
            "Troquer avec soi-même, c'est ranger — choisis un autre troqueur."@),
    }
}

pub fn erreur_composition(refus: RefusComposition) -> (r: ApiError)
    ensures
        reponse_composition(refus, r),
{
    match refus {
        RefusComposition::ObjetIndisponible => ApiError::bad_request(
            "objet_indisponible",
            "Un des objets n'est plus disponible — recharge la page.",
        ),
        RefusComposition::ObjetsManquants => map_trade_error(TradeError::ObjetsManquants),
        RefusComposition::DestinatairesMultiples => ApiError::bad_request(
            "destinataires_multiples",
            "Une proposition vise les objets d'un seul troqueur.",
        ),
        RefusComposition::TrocAvecSoi => ApiError::bad_request(
            "troc_avec_soi",
            "Troquer avec soi-même, c'est ranger — choisis un autre troqueur.",
        ),
    }
}

/// Le compte est sous restriction : une date de fin existe et n'est pas passée.
pub open spec fn restreint(restricted_until: Option<i128>, now: i128) -> bool {
    match restricted_until {
        Some(fin) => fin > now,
        None => false,
    }
}

/// Restriction en cours : plus de nouvelles propositions.
pub fn compte_restreint(restricted_until: Option<i128>, now: i128) -> (r: bool)
    ensures
        r == restreint(restricted_until, now),
{
    match restricted_until {
        Some(fin) => fin > now,
        None => false,
    }
}

/// Une ligne de proposition : (objet, côté, valeur figée).
pub open spec fn lignes_cote(objets: Seq<ObjetPropose>, cote: Seq<char>) -> Seq<(u128, Seq<char>, i32)> {
    objets.map_values(|o: ObjetPropose| (o.id, cote, o.value_cents))
}

pub open spec fn lignes(offertes: Seq<ObjetPropose>, demandees: Seq<ObjetPropose>) -> Seq<(u128, Seq<char>, i32)> {
    lignes_cote(offertes, "offert"@) + lignes_cote(demandees, "demande"@)
}

pub open spec fn vue_lignes(l: Seq<(u128, &str, i32)>) -> Seq<(u128, Seq<char>, i32)> {
    l.map_values(|x: (u128, &str, i32)| (x.0, x.1@, x.2))
}

/// Les lignes d'une proposition, objets offerts puis demandés, avec leur
/// valeur figée au moment de l'envoi.
pub fn lignes_proposition(offertes: &Vec<ObjetPropose>, demandees: &Vec<ObjetPropose>) -> (r: Vec<(u128, &'static str, i32)>)
    ensures
        vue_lignes(r@) == lignes(offertes@, demandees@),
{
    let mut r: Vec<(u128, &'static str, i32)> = Vec::new();
    let mut i: usize = 0;
    while i < offertes.len()
        invariant
            i <= offertes@.len(),
            vue_lignes(r@) == lignes_cote(offertes@.take(i as int), "offert"@),
        decreases offertes.len() - i,
    {
        let ghost avant = r@;
        r.push((offertes[i].id, "offert", offertes[i].value_cents));
        assert(r@ == avant.push((offertes@[i as int].id, "offert", offertes@[i as int].value_cents)));
        assert(vue_lignes(r@) =~= vue_lignes(avant).push((offertes@[i as int].id, "offert"@, offertes@[i as int].value_cents)));
        assert(lignes_cote(offertes@.take(i + 1), "offert"@) =~= lignes_cote(offertes@.take(i as int), "offert"@).push(
            (offertes@[i as int].id, "offert"@, offertes@[i as int].value_cents)));
        i = i + 1;
        assert(vue_lignes(r@) =~= lignes_cote(offertes@.take(i as int), "offert"@));
    }
    assert(offertes@.take(i as int) =~= offertes@);
    let ghost debut = vue_lignes(r@);
    let mut j: usize = 0;
    while j < demandees.len()
        invariant
            j <= demandees@.len(),
            debut == lignes_cote(offertes@, "offert"@),
            vue_lignes(r@) == debut + lignes_cote(demandees@.take(j as int), "demande"@),
        decreases demandees.len() - j,
    {
        let ghost avant = r@;
        r.push((demandees[j].id, "demande", demandees[j].value_cents));
        assert(r@ == avant.push((demandees@[j as int].id, "demande", demandees@[j as int].value_cents)));
        assert(vue_lignes(r@) =~= vue_lignes(avant).push((demandees@[j as int].id, "demande"@, demandees@[j as int].value_cents)));
        assert(lignes_cote(demandees@.take(j + 1), "demande"@) =~= lignes_cote(demandees@.take(j as int), "demande"@).push(
            (demandees@[j as int].id, "demande"@, demandees@[j as int].value_cents)));
        j = j + 1;
        assert(vue_lignes(r@) =~= debut + lignes_cote(demandees@.take(j as int), "demande"@));
    }
    assert(demandees@.take(j as int) =~= demandees@);
    r
}

// ————— Plan des paiements à l'acceptation —————

/// Nanosecondes dans une minute.
pub const NANOS_PAR_MINUTE: i128 = 60_000_000_000;

/// Un paiement à créer avec le troc.
#[derive(Debug, Clone, Copy, PartialEq, Eq)]
pub struct NouveauPaiement {
    pub payer_id: u128,
    pub beneficiary_id: u128,
    pub amount_cents: i32,
    pub fees_cents: i32,
    pub service_cents: i32,
    pub deadline: i128,
}

/// Qui doit la soulte : `Some(None)` sans soulte, `Some(Some(payeur))` avec,
/// `None` quand une soulte n'a pas de direction (donnée corrompue).
pub open spec fn payeur_soulte(proposer_id: u128, recipient_id: u128, cash_cents: i32, direction: Seq<char>) -> Option<Option<u128>> {
    if cash_cents > 0 {
        match payeur_de(direction) {
            Some(Payeur::Proposant) => Some(Some(proposer_id)),
            Some(Payeur::Destinataire) => Some(Some(recipient_id)),
            None => None,
        }
    } else {
        Some(None)
    }
}

/// Le paiement d'une partie en mode envoi : service + sa soulte éventuelle,
/// une journée pour régler.
pub open spec fn paiement_envoi(payer: u128, autre: u128, payeur: Option<u128>, cash_cents: i32, fees_bps: u16, now: i128) -> NouveauPaiement {
    let cash: i32 = if payeur == Some(payer) { cash_cents } else { 0 };
    NouveauPaiement {
        payer_id: payer,
        beneficiary_id: autre,
        amount_cents: (SERVICE_CENTS + cash) as i32,
        fees_cents: #[verifier::truncate] (commission(cash as int, fees_bps as int) as i32),
        service_cents: SERVICE_CENTS,
        deadline: (now + payment::DELAI_PAIEMENT_AUTRE_MINUTES * NANOS_PAR_MINUTE) as i128,
    }
}

/// Le plan des paiements d'un troc qui naît : en envoi, un paiement par
/// partie ; en main propre, celui du payeur de la soulte s'il y en a une
/// (30 min s'il accepte lui-même, une journée sinon).
pub open spec fn plan(
    envoi: bool,
    proposer_id: u128,
    recipient_id: u128,
    accepteur_id: u128,
    cash_cents: i32,
    direction: Seq<char>,
    fees_bps: u16,
    now: i128,
) -> Option<Seq<NouveauPaiement>> {
    match payeur_soulte(proposer_id, recipient_id, cash_cents, direction) {
        None => None,
        Some(payeur) => Some(
            if envoi {
                seq![
                    paiement_envoi(proposer_id, recipient_id, payeur, cash_cents, fees_bps, now),
                    paiement_envoi(recipient_id, proposer_id, payeur, cash_cents, fees_bps, now),
                ]
            } else {
                match payeur {
                    Some(p) => seq![NouveauPaiement {
                        payer_id: p,
                        beneficiary_id: if p == proposer_id { recipient_id } else { proposer_id },
                        amount_cents: cash_cents,
                        fees_cents: #[verifier::truncate] (commission(cash_cents as int, fees_bps as int) as i32),
                        service_cents: 0,
                        deadline: (now + (if p == accepteur_id {
                            payment::DELAI_PAIEMENT_ACCEPTEUR_MINUTES
                        } else {
                            payment::DELAI_PAIEMENT_AUTRE_MINUTES
                        }) * NANOS_PAR_MINUTE) as i128,
                    }],
                    None => Seq::empty(),
                }
            },
        ),
    }
}

fn nouveau_paiement_envoi(
    payer: u128,
    autre: u128,
    payeur: Option<u128>,
    cash_cents: i32,
    fees_bps: u16,
    now: i128,
) -> (r: NouveauPaiement)
    requires
        cash_cents <= i32::MAX - SERVICE_CENTS,
        now <= i128::MAX - payment::DELAI_PAIEMENT_AUTRE_MINUTES * NANOS_PAR_MINUTE,
    ensures
        r == paiement_envoi(payer, autre, payeur, cash_cents, fees_bps, now),
{
    let cash: i32 = if payeur == Some(payer) { cash_cents } else { 0 };
    let minutes = payment::DELAI_PAIEMENT_AUTRE_MINUTES as i128;
    NouveauPaiement {
        payer_id: payer,
        beneficiary_id: autre,
        amount_cents: SERVICE_CENTS + cash,
        fees_cents: payment::commission_cents(cash, fees_bps),
        service_cents: SERVICE_CENTS,
        deadline: now + minutes * NANOS_PAR_MINUTE,
    }
}

/// Les paiements à créer à l'acceptation d'une proposition. `None` quand la
/// proposition porte une soulte sans direction (donnée corrompue).
pub fn plan_paiements(
    delivery_mode: &str,
    proposer_id: u128,
    recipient_id: u128,
    accepteur_id: u128,
    cash_cents: i32,
    cash_direction: &str,
    fees_bps: u16,
    now: i128,
) -> (r: Option<Vec<NouveauPaiement>>)
    requires
        delivery_mode@ == "envoi"@ ==> cash_cents <= i32::MAX - SERVICE_CENTS,
        now <= i128::MAX - payment::DELAI_PAIEMENT_AUTRE_MINUTES * NANOS_PAR_MINUTE,
    ensures
        match r {
            Some(v) => plan(delivery_mode@ == "envoi"@, proposer_id, recipient_id, accepteur_id, cash_cents,
                cash_direction@, fees_bps, now) == Some(v@),
            None => plan(delivery_mode@ == "envoi"@, proposer_id, recipient_id, accepteur_id, cash_cents,
                cash_direction@, fees_bps, now) is None,
        },
{
    let payeur: Option<u128> = if cash_cents > 0 {
        match payment::payeur(cash_direction) {
            Some(Payeur::Proposant) => Some(proposer_id),
            Some(Payeur::Destinataire) => Some(recipient_id),
            None => {
                return None;
            },
        }
    } else {
        None
    };
    let mut paiements: Vec<NouveauPaiement> = Vec::new();
    if meme_texte(delivery_mode, "envoi") {
        paiements.push(nouveau_paiement_envoi(proposer_id, recipient_id, payeur, cash_cents, fees_bps, now));
        paiements.push(nouveau_paiement_envoi(recipient_id, proposer_id, payeur, cash_cents, fees_bps, now));
        assert(paiements@ =~= plan(true, proposer_id, recipient_id, accepteur_id, cash_cents, cash_direction@, fees_bps, now).unwrap());
    } else {
        match payeur {
            Some(p) => {
                let beneficiaire = if p == proposer_id { recipient_id } else { proposer_id };
                let delai = payment::delai_paiement_minutes(p == accepteur_id) as i128;
                paiements.push(NouveauPaiement {
                    payer_id: p,
                    beneficiary_id: beneficiaire,
                    amount_cents: cash_cents,
                    fees_cents: payment::commission_cents(cash_cents, fees_bps),
                    service_cents: 0,
                    deadline: now + delai * NANOS_PAR_MINUTE,
                });
            },
            None => {},
        }
        assert(paiements@ =~= plan(false, proposer_id, recipient_id, accepteur_id, cash_cents, cash_direction@, fees_bps, now).unwrap());
    }
    Some(paiements)
}

/// L'autre partie doit-elle agir (préparer un envoi ou régler) ?
pub open spec fn doit_agir(envoi: bool, paiements: Seq<NouveauPaiement>, autre_id: u128) -> bool {
    envoi || exists|i: int| 0 <= i < paiements.len() && (#[trigger] paiements[i]).payer_id == autre_id
}

/// Faut-il prévenir l'autre partie qu'un règlement ou un envoi l'attend ?
pub fn autre_doit_agir(delivery_mode: &str, paiements: &Vec<NouveauPaiement>, autre_id: u128) -> (r: bool)
    ensures
        r == doit_agir(delivery_mode@ == "envoi"@, paiements@, autre_id),
{
    if meme_texte(delivery_mode, "envoi") {
        return true;
    }
    let mut i: usize = 0;
    while i < paiements.len()
        invariant
            i <= paiements@.len(),
            forall|j: int| 0 <= j < i ==> (#[trigger] paiements@[j]).payer_id != autre_id,
        decreases paiements.len() - i,
    {
        if paiements[i].payer_id == autre_id {
            return true;
        }
        i = i + 1;
    }
    false
}

/// L'autre partie d'un troc, vue de `user_id`.
pub fn autre_partie(proposer_id: u128, recipient_id: u128, user_id: u128) -> (r: u128)
    ensures
        r == (if proposer_id == user_id { recipient_id } else { proposer_id }),
{
    if proposer_id == user_id {
        recipient_id
    } else {
        proposer_id
    }
}

/// Chaque paiement du plan est dû par une des deux parties à l'autre, et
/// aucun ne fait payer à quelqu'un sa propre soulte : en main propre le plan
/// compte au plus un paiement, celui du payeur de la soulte.
pub proof fn plan_entre_les_parties(
    envoi: bool,
    proposer_id: u128,
    recipient_id: u128,
    accepteur_id: u128,
    cash_cents: i32,
    direction: Seq<char>,
    fees_bps: u16,
    now: i128,
)
    requires
        proposer_id != recipient_id,
        plan(envoi, proposer_id, recipient_id, accepteur_id, cash_cents, direction, fees_bps, now) is Some,
    ensures
        ({
            let p = plan(envoi, proposer_id, recipient_id, accepteur_id, cash_cents, direction, fees_bps, now).unwrap();
            &&& forall|i: int| 0 <= i < p.len() ==> {
                let x = #[trigger] p[i];
                (x.payer_id == proposer_id && x.beneficiary_id == recipient_id)
                    || (x.payer_id == recipient_id && x.beneficiary_id == proposer_id)
            }
            &&& envoi ==> p.len() == 2
            &&& !envoi ==> p.len() <= 1
            &&& (!envoi && cash_cents <= 0) ==> p.len() == 0
        }),
{
}

/// La soulte est à la charge de celui que la direction désigne, et de lui
/// seul. En envoi, chaque partie paie les frais de service à l'autre, et
/// seul le payeur de la soulte y ajoute la soulte (avec sa commission) ;
/// avec `du_destinataire`, c'est le paiement du destinataire qui porte la
/// soulte, jamais celui du proposant. En main propre, l'unique paiement est
/// celui du payeur de la soulte, de la soulte exactement.
pub proof fn soulte_a_la_charge_de_son_payeur(
    envoi: bool,
    proposer_id: u128,
    recipient_id: u128,
    accepteur_id: u128,
    cash_cents: i32,
    direction: Seq<char>,
    fees_bps: u16,
    now: i128,
)
    requires
        proposer_id != recipient_id,
        0 < cash_cents <= i32::MAX - SERVICE_CENTS,
        payeur_de(direction) is Some,
        now <= i128::MAX - 1440 * NANOS_PAR_MINUTE,
    ensures
        ({
            let p = plan(envoi, proposer_id, recipient_id, accepteur_id, cash_cents, direction, fees_bps, now);
            let paie_proposant = payeur_de(direction) == Some(Payeur::Proposant);
            let paie_destinataire = payeur_de(direction) == Some(Payeur::Destinataire);
            &&& p is Some
            &&& envoi ==> {
                let v = p.unwrap();
                &&& v.len() == 2
                &&& v[0].payer_id == proposer_id && v[0].beneficiary_id == recipient_id
                &&& v[1].payer_id == recipient_id && v[1].beneficiary_id == proposer_id
                &&& v[0].service_cents == SERVICE_CENTS && v[1].service_cents == SERVICE_CENTS
                &&& v[0].deadline == now + 1440 * NANOS_PAR_MINUTE && v[1].deadline == now + 1440 * NANOS_PAR_MINUTE
                &&& v[0].amount_cents == SERVICE_CENTS + (if paie_proposant { cash_cents as int } else { 0 })
                &&& v[1].amount_cents == SERVICE_CENTS + (if paie_destinataire { cash_cents as int } else { 0 })
                &&& !paie_proposant ==> v[0].fees_cents == 0
                &&& !paie_destinataire ==> v[1].fees_cents == 0
                &&& (fees_bps <= 10_000 && paie_proposant) ==> v[0].fees_cents == commission(cash_cents as int, fees_bps as int)
                &&& (fees_bps <= 10_000 && paie_destinataire) ==> v[1].fees_cents == commission(cash_cents as int, fees_bps as int)
            }
            &&& !envoi ==> {
                let v = p.unwrap();
                &&& v.len() == 1
                &&& v[0].payer_id == (if paie_destinataire { recipient_id } else { proposer_id })
                &&& v[0].beneficiary_id == (if paie_destinataire { proposer_id } else { recipient_id })
                &&& v[0].amount_cents == cash_cents
                &&& v[0].service_cents == 0
                &&& v[0].deadline == now + (if v[0].payer_id == accepteur_id { 30int } else { 1440int }) * NANOS_PAR_MINUTE
            }
            &&& (direction == "du_destinataire"@ && envoi) ==> {
                let v = p.unwrap();
                &&& v[1].payer_id == recipient_id && v[1].amount_cents == SERVICE_CENTS + cash_cents
                &&& v[0].payer_id == proposer_id && v[0].amount_cents == SERVICE_CENTS
            }
            &&& (direction == "du_proposant"@ && envoi) ==> {
                let v = p.unwrap();
                &&& v[0].payer_id == proposer_id && v[0].amount_cents == SERVICE_CENTS + cash_cents
                &&& v[1].payer_id == recipient_id && v[1].amount_cents == SERVICE_CENTS
            }
        }),
{
    reveal_strlit("du_proposant");
    reveal_strlit("du_destinataire");
    assert("du_proposant"@.len() != "du_destinataire"@.len());
    let c = cash_cents as int;
    assert(commission(0, fees_bps as int) == 0) by {
        assert(0 * (fees_bps as int) == 0);
    }
    if fees_bps <= 10_000 {
        crate::payment::commission_bornee(c, fees_bps as int);
    }
}

// ————— Règlement d'un paiement —————

/// Le paiement dû par le lecteur sur un troc.
#[derive(Debug, Clone, PartialEq, Eq)]
pub struct PaiementDu {
    pub status: String,
    pub deadline: i128,
    pub shipping_cents: i32,
}

/// Les chiffres ASCII de `s`, dans l'ordre (espaces et séparateurs ôtés).
pub open spec fn garder_chiffres(s: Seq<char>) -> Seq<char>
    decreases s.len(),
{
    if s.len() == 0 {
        s
    } else if est_chiffre(s.last()) {
        garder_chiffres(s.drop_last()).push(s.last())
    } else {
        garder_chiffres(s.drop_last())
    }
}

/// Ne garde que les chiffres ASCII d'une saisie (carte, code).
pub fn chiffres_seuls(saisie: &str) -> (r: String)
    ensures
        r@ == garder_chiffres(saisie@),
{
    let v = caracteres(saisie);
    let mut r = String::new();
    let mut i: usize = 0;
    while i < v.len()
        invariant
            v@ == saisie@,
            i <= v@.len(),
            r@ == garder_chiffres(v@.take(i as int)),
        decreases v.len() - i,
    {
        assert(v@.take(i + 1).drop_last() =~= v@.take(i as int));
        if est_chiffre_exec(v[i]) {
            r.push(v[i]);
        }
        i = i + 1;
    }
    assert(v@.take(i as int) =~= v@);
    r
}

/// Issue du contrôle d'un règlement demandé par le lecteur.
#[derive(Debug, Clone, PartialEq, Eq)]
pub enum DecisionReglement {
    /// Rien à régler pour le lecteur sur ce troc.
    PasLePayeur,
    /// Déjà séquestré ou capturé : on renvoie l'état (double clic).
    DejaRegle,
    /// Le troc n'attend plus de paiement.
    TrocClos,
    /// La date limite est passée : le troc doit être annulé.
    DelaiDepasse,
    /// Mode envoi sans format choisi : pas de paiement à l'aveugle.
    EnvoiNonConfigure,
    /// Le numéro saisi n'est pas plausible.
    CarteInvalide,
    /// On peut préautoriser, avec ces chiffres.
    Preautoriser(String),
}

/// Paiement déjà séquestré ou capturé.
pub open spec fn deja_regle(statut: Seq<char>) -> bool {
    statut == "sequestre"@ || statut == "capture"@
}

/// Les contrôles d'un règlement, dans l'ordre : payeur, idempotence, troc
/// encore en attente de paiement, délai, envoi configuré, carte plausible.
pub open spec fn decision_conforme(
    paiement: Option<PaiementDu>,
    statut_troc: Seq<char>,
    mode: Seq<char>,
    carte: Seq<char>,
    now: i128,
    d: DecisionReglement,
) -> bool {
    match paiement {
        None => d == DecisionReglement::PasLePayeur,
        Some(p) => if deja_regle(p.status@) {
            d == DecisionReglement::DejaRegle
        } else if statut_troc != "attente_paiement"@ || !tentable(p.status@) {
            d == DecisionReglement::TrocClos
        } else if p.deadline < now {
            d == DecisionReglement::DelaiDepasse
        } else if mode == "envoi"@ && p.shipping_cents == 0 {
            d == DecisionReglement::EnvoiNonConfigure
        } else if !carte_vraisemblable(garder_chiffres(carte)) {
            d == DecisionReglement::CarteInvalide
        } else {
            d matches DecisionReglement::Preautoriser(chiffres) && chiffres@ == garder_chiffres(carte)
        },
    }
}

/// Contrôle d'une demande de règlement par le payeur.
pub fn decider_reglement(
    paiement: Option<&PaiementDu>,
    statut_troc: &str,
    delivery_mode: &str,
    card_number: &str,
    now: i128,
) -> (r: DecisionReglement)
    ensures
        decision_conforme(
            match paiement { Some(p) => Some(*p), None => None },
            statut_troc@,
            delivery_mode@,
            card_number@,
            now,
            r,
        ),
{
    let p = match paiement {
        None => {
            return DecisionReglement::PasLePayeur;
        },
        Some(p) => p,
    };
    if meme_texte(p.status.as_str(), "sequestre") || meme_texte(p.status.as_str(), "capture") {
        return DecisionReglement::DejaRegle;
    }
    if !meme_texte(statut_troc, "attente_paiement") || !payment::peut_tenter_preautorisation(p.status.as_str()) {
        return DecisionReglement::TrocClos;
    }
    if p.deadline < now {
        return DecisionReglement::DelaiDepasse;
    }
    if meme_texte(delivery_mode, "envoi") && p.shipping_cents == 0 {
        return DecisionReglement::EnvoiNonConfigure;
    }
    let chiffres = chiffres_seuls(card_number);
    if !payment::carte_plausible(chiffres.as_str()) {
        return DecisionReglement::CarteInvalide;
    }
    DecisionReglement::Preautoriser(chiffres)
}

/// La réponse d'erreur d'une décision de règlement (aucune pour
/// `DejaRegle` et `Preautoriser`).
pub open spec fn reponse_reglement(d: DecisionReglement, r: Option<ApiError>) -> bool {
    match d {
        DecisionReglement::PasLePayeur => r matches Some(e) && est_erreur(e, GenreErreur::RequeteInvalide,
            "pas_le_payeur"@, "Tu n'as rien à régler sur ce troc."@),
        DecisionReglement::TrocClos => r matches Some(e) && est_erreur(e, GenreErreur::RequeteInvalide,
            "troc_clos"@, "Ce troc n'attend plus de paiement."@),
        DecisionReglement::DelaiDepasse => r matches Some(e) && est_erreur(e, GenreErreur::RequeteInvalide,
            "paiement_expire"@, "Le délai de paiement est dépassé : le troc a été annulé et les objets libérés."@),
        DecisionReglement::EnvoiNonConfigure => r matches Some(e) && est_erreur(e, GenreErreur::RequeteInvalide,
            "envoi_non_configure"@, "Choisis d'abord le format de ton colis et ton point relais."@),
        DecisionReglement::CarteInvalide => r matches Some(e) && est_erreur(e, GenreErreur::RequeteInvalide,
            "carte_invalide"@, "Ce numéro de carte ne ressemble pas à un numéro valide."@),
        DecisionReglement::DejaRegle => r is None,
        DecisionReglement::Preautoriser(_) => r is None,
    }
}

pub fn erreur_reglement(d: &DecisionReglement) -> (r: Option<ApiError>)
    ensures
        reponse_reglement(*d, r),
{
    match d {
        DecisionReglement::PasLePayeur => Some(ApiError::bad_request(
            "pas_le_payeur",
            "Tu n'as rien à régler sur ce troc.",
        )),
        DecisionReglement::TrocClos => Some(ApiError::bad_request("troc_clos", "Ce troc n'attend plus de paiement.")),
        DecisionReglement::DelaiDepasse => Some(ApiError::bad_request(
            "paiement_expire",
            "Le délai de paiement est dépassé : le troc a été annulé et les objets libérés.",
        )),
        DecisionReglement::EnvoiNonConfigure => Some(ApiError::bad_request(
            "envoi_non_configure",
            "Choisis d'abord le format de ton colis et ton point relais.",
        )),
        DecisionReglement::CarteInvalide => Some(ApiError::bad_request(
            "carte_invalide",
            "Ce numéro de carte ne ressemble pas à un numéro valide.",
        )),
        DecisionReglement::DejaRegle => None,
        DecisionReglement::Preautoriser(_) => None,
    }
}

/// Le refus de la banque, expliqué selon son motif.
pub open spec fn reponse_refus_preautorisation(motif: Seq<char>, r: ApiError) -> bool {
    if motif == "provision_insuffisante"@ {
        est_erreur(r, GenreErreur::RequeteInvalide, "paiement_refuse"@,
            "Provision insuffisante : la banque n'a pas pu bloquer le montant. Réessaie avec une autre carte."@)
    } else {
        est_erreur(r, GenreErreur::RequeteInvalide, "paiement_refuse"@,
            "Ta banque a refusé la préautorisation. Vérifie ta carte et réessaie."@)
    }
}

pub fn erreur_refus_preautorisation(motif: &str) -> (r: ApiError)
    ensures
        reponse_refus_preautorisation(motif@, r),
{
    if meme_texte(motif, "provision_insuffisante") {
        ApiError::bad_request(
            "paiement_refuse",
            "Provision insuffisante : la banque n'a pas pu bloquer le montant. Réessaie avec une autre carte.",
        )
    } else {
        ApiError::bad_request(
            "paiement_refuse",
            "Ta banque a refusé la préautorisation. Vérifie ta carte et réessaie.",
        )
    }
}

/// Un paiement encore retentable a dépassé sa date limite.
pub open spec fn en_retard(paiements: Seq<PaiementDu>, now: i128) -> bool {
    exists|i: int| 0 <= i < paiements.len() && tentable((#[trigger] paiements[i]).status@) && paiements[i].deadline < now
}

/// Le troc doit-il être annulé faute de paiement dans les temps ?
pub fn paiement_en_retard(paiements: &Vec<PaiementDu>, now: i128) -> (r: bool)
    ensures
        r == en_retard(paiements@, now),
        r == exists|i: int| 0 <= i < paiements@.len()
            && ((#[trigger] paiements@[i]).status@ == "en_attente"@ || paiements@[i].status@ == "echoue"@)
            && paiements@[i].deadline < now,
{
    let mut i: usize = 0;
    while i < paiements.len()
        invariant
            i <= paiements@.len(),
            forall|j: int| 0 <= j < i ==> !(tentable((#[trigger] paiements@[j]).status@) && paiements@[j].deadline < now),
        decreases paiements.len() - i,
    {
        if payment::peut_expirer(paiements[i].status.as_str()) && paiements[i].deadline < now {
            return true;
        }
        i = i + 1;
    }
    false
}

/// Un troc est en retard de paiement exactement quand un de ses paiements
/// n'est ni réglé ni abandonné — encore en attente, ou refusé par la
/// banque — et que sa date limite est passée. Un paiement séquestré ou
/// capturé, ou dont la date limite n'est pas passée, ne met jamais le troc
/// en retard.
pub proof fn retard_de_paiement(paiements: Seq<PaiementDu>, now: i128, k: int)
    requires
        0 <= k < paiements.len(),
    ensures
        (paiements[k].status@ == "en_attente"@ && paiements[k].deadline < now) ==> en_retard(paiements, now),
        (paiements[k].status@ == "echoue"@ && paiements[k].deadline < now) ==> en_retard(paiements, now),
        en_retard(paiements, now) <==> exists|i: int| 0 <= i < paiements.len()
            && ((#[trigger] paiements[i]).status@ == "en_attente"@ || paiements[i].status@ == "echoue"@)
            && paiements[i].deadline < now,
        (forall|i: int| 0 <= i < paiements.len() ==> (#[trigger] paiements[i]).deadline >= now)
            ==> !en_retard(paiements, now),
        (forall|i: int| 0 <= i < paiements.len() ==> (#[trigger] paiements[i]).status@ == "sequestre"@
            || paiements[i].status@ == "capture"@) ==> !en_retard(paiements, now),
{
    reveal_strlit("en_attente");
    reveal_strlit("echoue");
    reveal_strlit("sequestre");
    reveal_strlit("capture");
    assert("sequestre"@.len() != "en_attente"@.len() && "sequestre"@.len() != "echoue"@.len());
    assert("capture"@.len() != "en_attente"@.len() && "capture"@.len() != "echoue"@.len());
    if paiements[k].deadline < now && (paiements[k].status@ == "en_attente"@ || paiements[k].status@ == "echoue"@) {
        assert(tentable(paiements[k].status@));
    }
}

/// Un règlement n'est préautorisé que pour un troc en attente de paiement,
/// sur un paiement retentable, avant sa date limite, avec un numéro de 12 à
/// 19 chiffres.
pub proof fn preautorisation_sous_conditions(
    paiement: Option<PaiementDu>,
    statut_troc: Seq<char>,
    mode: Seq<char>,
    carte: Seq<char>,
    now: i128,
    chiffres: String,
)
    requires
        decision_conforme(paiement, statut_troc, mode, carte, now, DecisionReglement::Preautoriser(chiffres)),
    ensures
        paiement is Some,
        statut_troc == "attente_paiement"@,
        tentable(paiement.unwrap().status@),
        paiement.unwrap().deadline >= now,
        carte_vraisemblable(chiffres@),
{
}

/// Ce qui décide une préautorisation, dans les termes du règlement : un
/// paiement du lecteur encore retentable, un troc en attente de paiement,
/// la date limite non dépassée, l'envoi configuré s'il y a envoi, et des
/// chiffres de carte vraisemblables.
pub open spec fn preautorisation_due(
    paiement: Option<PaiementDu>,
    statut_troc: Seq<char>,
    mode: Seq<char>,
    carte: Seq<char>,
    now: i128,
) -> bool {
    &&& paiement matches Some(p)
    &&& tentable(p.status@)
    &&& statut_troc == "attente_paiement"@
    &&& p.deadline >= now
    &&& !(mode == "envoi"@ && p.shipping_cents == 0)
    &&& carte_vraisemblable(garder_chiffres(carte))
}

/// La banque n'est sollicitée que dans ce cas, et toujours dans ce cas : la
/// décision de règlement est une préautorisation exactement quand elle est
/// due, et elle porte alors les chiffres de la carte saisie.
pub proof fn preautorisation_ssi_due(
    paiement: Option<PaiementDu>,
    statut_troc: Seq<char>,
    mode: Seq<char>,
    carte: Seq<char>,
    now: i128,
    d: DecisionReglement,
)
    requires
        decision_conforme(paiement, statut_troc, mode, carte, now, d),
    ensures
        (d is Preautoriser) <==> preautorisation_due(paiement, statut_troc, mode, carte, now),
        d matches DecisionReglement::Preautoriser(chiffres) ==> chiffres@ == garder_chiffres(carte),
{
    reveal_strlit("sequestre");
    reveal_strlit("capture");
    reveal_strlit("en_attente");
    reveal_strlit("echoue");
    assert("en_attente"@.len() != "sequestre"@.len() && "en_attente"@.len() != "capture"@.len());
    assert("echoue"@.len() != "sequestre"@.len() && "echoue"@.len() != "capture"@.len());
    if let Some(p) = paiement {
        if tentable(p.status@) {
            assert(!deja_regle(p.status@));
        }
    }
}

/// La demande de préautorisation envoyée au prestataire de paiement.
pub struct DemandePreautorisation {
    /// `payment-` suivi de l'identifiant du paiement écrit en UUID.
    pub reference: String,
    pub amount_cents: i32,
    /// Les seuls chiffres de la carte saisie.
    pub card_number: String,
}

/// La demande envoyée à la banque pour une décision de règlement : rien
/// sauf pour une préautorisation, qui porte la référence du paiement, son
/// montant et les chiffres retenus.
pub fn demande_preautorisation(decision: DecisionReglement, paiement_id: u128, amount_cents: i32) -> (r: Option<DemandePreautorisation>)
    ensures
        match decision {
            DecisionReglement::Preautoriser(chiffres) => r matches Some(d)
                && d.reference@ == "payment-"@ + forme_uuid(paiement_id)
                && d.amount_cents == amount_cents
                && d.card_number@ == chiffres@,
            _ => r is None,
        },
{
    match decision {
        DecisionReglement::Preautoriser(chiffres) => {
            let id = texte_uuid(paiement_id);
            let reference = concatener("payment-", id.as_str());
            Some(DemandePreautorisation { reference, amount_cents, card_number: chiffres })
        },
        _ => None,
    }
}

// ————— Ouverture aux propositions —————

pub open spec fn erreur_propositions_fermees(e: ApiError) -> bool {
    est_erreur(e, GenreErreur::Interdit, "propositions_fermees"@, "Ce troqueur n'accepte pas de nouvelles propositions."@)
}

pub open spec fn erreur_compte_restreint(e: ApiError) -> bool {
    est_erreur(
        e,
        GenreErreur::Interdit,
        "compte_restreint"@,
        "Ton compte est restreint : pas de nouvelles propositions pour le moment. Tes trocs en cours continuent normalement."@,
    )
}

/// Avant d'envoyer une proposition : un blocage entre les deux membres
/// (dans un sens ou l'autre) la ferme, sans dire qui a bloqué ; puis une
/// restriction en cours de l'auteur.
pub fn verifier_ouverture(bloque: bool, restricted_until: Option<i128>, now: i128) -> (r: Result<(), ApiError>)
    ensures
        r is Ok <==> !bloque && !restreint(restricted_until, now),
        r matches Err(e) ==> if bloque { erreur_propositions_fermees(e) } else { erreur_compte_restreint(e) },
{
    if bloque {
        return Err(ApiError::forbidden("propositions_fermees", "Ce troqueur n'accepte pas de nouvelles propositions."));
    }
    if compte_restreint(restricted_until, now) {
        return Err(ApiError::forbidden(
            "compte_restreint",
            "Ton compte est restreint : pas de nouvelles propositions pour le moment. Tes trocs en cours continuent normalement.",
        ));
    }
    Ok(())
}

/// Longueur gardée du mot joint à une proposition.
pub const MOT_MAX: usize = 500;

/// La direction de soulte envoyée, `aucune` par défaut.
pub fn direction_soulte(direction: Option<&str>) -> (r: &str)
    ensures
        r@ == (match direction {
            Some(d) => d@,
            None => "aucune"@,
        }),
{
    match direction {
        Some(d) => d,
        None => "aucune",
    }
}

/// Le mot joint à une proposition : rogné, ignoré s'il est vide, tronqué à
/// 500 caractères.
pub fn mot_de_proposition(mot: Option<&str>) -> (r: Option<String>)
    ensures
        r.is_some() == texte_facultatif(vue_facultative(mot), MOT_MAX as nat).is_some(),
        r matches Some(t) ==> texte_facultatif(vue_facultative(mot), MOT_MAX as nat) == Some(t@),
{
    texte_facultatif_exec(mot, MOT_MAX)
}

/// L'échéance d'une proposition envoyée maintenant : sept jours.
pub fn echeance_proposition(now: i128) -> (r: i128)
    requires
        now + crate::trade::EXPIRATION_JOURS * 1440 * NANOS_PAR_MINUTE <= i128::MAX,
    ensures
        r == now + crate::trade::EXPIRATION_JOURS * 1440 * NANOS_PAR_MINUTE,
{
    now + (crate::trade::EXPIRATION_JOURS as i128) * 1440 * NANOS_PAR_MINUTE
}

// ————— Envoi d'une proposition : l'ordre des contrôles —————

/// Pourquoi une nouvelle proposition est refusée, contrôle par contrôle.
#[derive(Debug, Clone, Copy, PartialEq, Eq)]
pub enum RefusProposition {
    /// L'auteur n'a pas vérifié son e-mail.
    EmailNonVerifie,
    /// Les objets ne composent pas une proposition.
    Composition(RefusComposition),
    /// Un blocage existe entre les deux membres.
    Bloque,
    /// L'auteur est sous restriction.
    Restreint,
    /// Les règles du troc (nombre d'objets, soulte, plafond).
    Regle(TradeError),
}

/// Les valeurs figées des objets, dans l'ordre.
pub open spec fn valeurs(objets: Seq<ObjetPropose>) -> Seq<i32> {
    objets.map_values(|o: ObjetPropose| o.value_cents)
}

/// Les contrôles d'une nouvelle proposition, dans l'ordre : e-mail vérifié,
/// composition (qui désigne le destinataire), blocage avec ce destinataire,
/// restriction de l'auteur, règles du troc. En cas de succès : le
/// destinataire.
pub open spec fn regle_nouvelle_proposition(
    email_verifie: bool,
    user_id: u128,
    demandes_offertes: nat,
    offertes: Seq<ObjetPropose>,
    demandes_demandees: nat,
    demandees: Seq<ObjetPropose>,
    bloque: bool,
    restricted_until: Option<i128>,
    now: i128,
    cash_cents: i32,
    direction: Seq<char>,
) -> Result<u128, RefusProposition> {
    if !email_verifie {
        Err(RefusProposition::EmailNonVerifie)
    } else {
        match regle_composition(user_id, demandes_offertes, offertes, demandes_demandees, demandees) {
            Err(c) => Err(RefusProposition::Composition(c)),
            Ok(destinataire) => if bloque {
                Err(RefusProposition::Bloque)
            } else if restreint(restricted_until, now) {
                Err(RefusProposition::Restreint)
            } else {
                match crate::trade::regle_proposition(valeurs(offertes), valeurs(demandees), cash_cents, direction) {
                    Err(t) => Err(RefusProposition::Regle(t)),
                    Ok(()) => Ok(destinataire),
                }
            },
        }
    }
}

fn valeurs_exec(objets: &Vec<ObjetPropose>) -> (r: Vec<i32>)
    ensures
        r@ == valeurs(objets@),
{
    let mut r: Vec<i32> = Vec::new();
    let mut i: usize = 0;
    while i < objets.len()
        invariant
            i <= objets@.len(),
            r@ == valeurs(objets@.take(i as int)),
        decreases objets.len() - i,
    {
        r.push(objets[i].value_cents);
        assert(valeurs(objets@.take(i + 1)) =~= valeurs(objets@.take(i as int)).push(objets@[i as int].value_cents));
        i = i + 1;
    }
    assert(objets@.take(i as int) =~= objets@);
    r
}

/// La décision sur une nouvelle proposition, à partir des faits réunis :
/// le premier contrôle qui échoue, sinon le destinataire. `bloque` dit s'il
/// existe un blocage entre l'auteur et le propriétaire des objets demandés ;
/// il n'est lu qu'une fois la composition acceptée.
pub fn decider_proposition(
    email_verifie: bool,
    user_id: u128,
    demandes_offertes: usize,
    offertes: &Vec<ObjetPropose>,
    demandes_demandees: usize,
    demandees: &Vec<ObjetPropose>,
    bloque: bool,
    restricted_until: Option<i128>,
    now: i128,
    cash_cents: i32,
    cash_direction: &str,
) -> (r: Result<u128, RefusProposition>)
    ensures
        r == regle_nouvelle_proposition(email_verifie, user_id, demandes_offertes as nat, offertes@,
            demandes_demandees as nat, demandees@, bloque, restricted_until, now, cash_cents, cash_direction@),
{
    if !email_verifie {
        return Err(RefusProposition::EmailNonVerifie);
    }
    let destinataire = match verifier_composition(user_id, demandes_offertes, offertes, demandes_demandees, demandees) {
        Err(c) => {
            return Err(RefusProposition::Composition(c));
        },
        Ok(d) => d,
    };
    if bloque {
        return Err(RefusProposition::Bloque);
    }
    if compte_restreint(restricted_until, now) {
        return Err(RefusProposition::Restreint);
    }
    let vo = valeurs_exec(offertes);
    let vd = valeurs_exec(demandees);
    match crate::trade::valider_proposition(vo.as_slice(), vd.as_slice(), cash_cents, cash_direction) {
        Err(t) => Err(RefusProposition::Regle(t)),
        Ok(()) => Ok(destinataire),
    }
}

/// La réponse d'un refus de proposition.
pub open spec fn reponse_proposition(refus: RefusProposition, e: ApiError) -> bool {
    match refus {
        RefusProposition::EmailNonVerifie => crate::annonces::erreur_email_non_verifie(e),
        RefusProposition::Composition(c) => reponse_composition(c, e),
        RefusProposition::Bloque => erreur_propositions_fermees(e),
        RefusProposition::Restreint => erreur_compte_restreint(e),
        RefusProposition::Regle(t) => reponse_troc(t, e),
    }
}

pub fn erreur_proposition(refus: RefusProposition) -> (e: ApiError)
    ensures
        reponse_proposition(refus, e),
{
    match refus {
        RefusProposition::EmailNonVerifie => ApiError::forbidden(
            "email_non_verifie",
            "Vérifie ton e-mail pour publier — regarde ta boîte mail.",
        ),
        RefusProposition::Composition(c) => erreur_composition(c),
        RefusProposition::Bloque => ApiError::forbidden(
            "propositions_fermees",
            "Ce troqueur n'accepte pas de nouvelles propositions.",
        ),
        RefusProposition::Restreint => ApiError::forbidden(
            "compte_restreint",
            "Ton compte est restreint : pas de nouvelles propositions pour le moment. Tes trocs en cours continuent normalement.",
        ),
        RefusProposition::Regle(t) => map_trade_error(t),
    }
}

// ————— Acceptation —————

pub open spec fn erreur_remise_inconnue(e: ApiError) -> bool {
    est_erreur(e, GenreErreur::RequeteInvalide, "remise_inconnue"@, "Choisis main propre ou envoi."@)
}

/// Le mode de remise choisi à l'acceptation : main propre ou envoi.
pub fn verifier_remise_acceptation(mode: &str) -> (r: Result<(), ApiError>)
    ensures
        r is Ok <==> (mode@ == "main_propre"@ || mode@ == "envoi"@),
        r matches Err(e) ==> erreur_remise_inconnue(e),
{
    match crate::trade::valider_mode_remise(mode) {
        Ok(()) => Ok(()),
        Err(_) => Err(ApiError::bad_request("remise_inconnue", "Choisis main propre ou envoi.")),
    }
}

/// Ce que la base répond à une acceptation.
#[derive(Debug, Clone, Copy, PartialEq, Eq)]
pub enum IssueAcceptation {
    Introuvable,
    /// La proposition n'est plus ouverte ; `caduque` quand un autre troc l'a
    /// rendue caduque.
    NonOuverte { caduque: bool },
    /// Un des objets vient d'être réservé ailleurs.
    ObjetsIndisponibles,
    /// Double clic : le troc existe déjà.
    DejaAcceptee,
    Acceptee,
}

pub open spec fn reponse_acceptation(issue: IssueAcceptation, r: Option<ApiError>) -> bool {
    match issue {
        IssueAcceptation::Introuvable => r matches Some(e)
            && est_erreur(e, GenreErreur::Introuvable, "introuvable"@, "Cette proposition n'existe pas."@),
        IssueAcceptation::NonOuverte { caduque } => r matches Some(e) && if caduque {
            est_erreur(e, GenreErreur::Conflit, "objet_deja_reserve"@,
                "Trop tard : un des objets vient d'être réservé dans un autre troc. La proposition n'est plus valable."@)
        } else {
            reponse_troc(TradeError::TransitionInterdite, e)
        },
        IssueAcceptation::ObjetsIndisponibles => r matches Some(e)
            && est_erreur(e, GenreErreur::Conflit, "objet_deja_reserve"@,
                "Trop tard : un des objets vient d'être réservé dans un autre troc."@),
        IssueAcceptation::DejaAcceptee => r is None,
        IssueAcceptation::Acceptee => r is None,
    }
}

/// Le refus d'une acceptation, ou rien quand le troc existe.
pub fn erreur_acceptation(issue: IssueAcceptation) -> (r: Option<ApiError>)
    ensures
        reponse_acceptation(issue, r),
{
    match issue {
        IssueAcceptation::Introuvable => Some(ApiError::not_found("Cette proposition n'existe pas.")),
        IssueAcceptation::NonOuverte { caduque } => {
            if caduque {
                Some(ApiError::conflict(
                    "objet_deja_reserve",
                    "Trop tard : un des objets vient d'être réservé dans un autre troc. La proposition n'est plus valable.",
                ))
            } else {
                Some(map_trade_error(TradeError::TransitionInterdite))
            }
        },
        IssueAcceptation::ObjetsIndisponibles => Some(ApiError::conflict(
            "objet_deja_reserve",
            "Trop tard : un des objets vient d'être réservé dans un autre troc.",
        )),
        IssueAcceptation::DejaAcceptee => None,
        IssueAcceptation::Acceptee => None,
    }
}

/// Les contrôles d'une acceptation avant la transaction, dans l'ordre :
/// mode de remise connu, proposition adressée au lecteur, soulte dotée d'une
/// direction ; puis les paiements à créer.
pub fn decider_acceptation(
    delivery_mode: &str,
    adressee_au_lecteur: bool,
    proposer_id: u128,
    recipient_id: u128,
    accepteur_id: u128,
    cash_cents: i32,
    cash_direction: &str,
    fees_bps: u16,
    now: i128,
) -> (r: Result<Vec<NouveauPaiement>, ApiError>)
    requires
        delivery_mode@ == "envoi"@ ==> cash_cents <= i32::MAX - SERVICE_CENTS,
        now <= i128::MAX - payment::DELAI_PAIEMENT_AUTRE_MINUTES * NANOS_PAR_MINUTE,
    ensures
        !(delivery_mode@ == "main_propre"@ || delivery_mode@ == "envoi"@) ==> (r matches Err(e) && erreur_remise_inconnue(e)),
        (delivery_mode@ == "main_propre"@ || delivery_mode@ == "envoi"@) && !adressee_au_lecteur ==> (r matches Err(e)
            && est_erreur(e, GenreErreur::Introuvable, "introuvable"@, "Cette proposition n'existe pas."@)),
        (delivery_mode@ == "main_propre"@ || delivery_mode@ == "envoi"@) && adressee_au_lecteur ==> match plan(
            delivery_mode@ == "envoi"@, proposer_id, recipient_id, accepteur_id, cash_cents, cash_direction@, fees_bps, now) {
            None => r matches Err(e) && est_erreur(e, GenreErreur::Interne, "erreur_interne"@,
                "soulte sans direction — donnée corrompue"@),
            Some(p) => r matches Ok(v) && v@ == p,
        },
{
    verifier_remise_acceptation(delivery_mode)?;
    if !adressee_au_lecteur {
        return Err(ApiError::not_found("Cette proposition n'existe pas."));
    }
    match plan_paiements(delivery_mode, proposer_id, recipient_id, accepteur_id, cash_cents, cash_direction, fees_bps, now) {
        Some(v) => Ok(v),
        None => Err(ApiError::internal("soulte sans direction — donnée corrompue")),
    }
}

/// Le montant que l'autre partie doit régler : celui de son premier
/// paiement du plan, zéro s'il n'en a pas.
pub fn montant_du_par(paiements: &Vec<NouveauPaiement>, autre_id: u128) -> (r: i32)
    ensures
        (forall|j: int| 0 <= j < paiements@.len() ==> (#[trigger] paiements@[j]).payer_id != autre_id) ==> r == 0,
        (exists|j: int| 0 <= j < paiements@.len() && (#[trigger] paiements@[j]).payer_id == autre_id) ==>
            exists|j: int| 0 <= j < paiements@.len() && paiements@[j].payer_id == autre_id
                && r == paiements@[j].amount_cents
                && forall|x: int| 0 <= x < j ==> (#[trigger] paiements@[x]).payer_id != autre_id,
{
    let mut i: usize = 0;
    while i < paiements.len()
        invariant
            i <= paiements@.len(),
            forall|j: int| 0 <= j < i ==> (#[trigger] paiements@[j]).payer_id != autre_id,
        decreases paiements.len() - i,
    {
        if paiements[i].payer_id == autre_id {
            return paiements[i].amount_cents;
        }
        i = i + 1;
    }
    0
}

/// Un code de remise : six chiffres, complété par des zéros à gauche.
pub open spec fn code_a_six_chiffres(code: Seq<char>) -> bool {
    code.len() == 6 && que_des_chiffres(code)
}

/// Les `k` derniers chiffres décimaux de `n`, zéros de tête compris.
pub open spec fn chiffres_fixes(n: nat, k: nat) -> Seq<char>
    decreases k,
{
    if k == 0 {
        Seq::empty()
    } else {
        chiffres_fixes(n / 10, (k - 1) as nat).push(car_chiffre(n % 10))
    }
}

proof fn chiffres_fixes_sont_des_chiffres(n: nat, k: nat)
    ensures
        chiffres_fixes(n, k).len() == k,
        que_des_chiffres(chiffres_fixes(n, k)),
    decreases k,
{
    if k > 0 {
        chiffres_fixes_sont_des_chiffres(n / 10, (k - 1) as nat);
        let avant = chiffres_fixes(n / 10, (k - 1) as nat);
        let c = car_chiffre(n % 10);
        assert(est_chiffre(c));
        assert forall|i: int| 0 <= i < chiffres_fixes(n, k).len() implies #[trigger] est_chiffre(chiffres_fixes(n, k)[i]) by {
            if i < avant.len() {
                assert(chiffres_fixes(n, k)[i] == avant[i]);
            }
        }
    }
}

/// Le code de remise qui correspond au tirage `n` : `n` écrit sur six
/// chiffres, zéros à gauche.
pub fn code_de_remise_pour(n: u32) -> (code: String)
    requires
        n < 1_000_000,
    ensures
        code@ == chiffres_fixes(n as nat, 6),
        code_a_six_chiffres(code@),
{
    let mut reste: u32 = n;
    let mut chiffres: Vec<char> = Vec::new();
    let mut k: usize = 0;
    while k < 6
        invariant
            k <= 6,
            chiffres_fixes(n as nat, 6) == chiffres_fixes(reste as nat, (6 - k) as nat) + chiffres@,
        decreases 6 - k,
    {
        let d = (reste % 10) as u8;
        let c = (48u8 + d) as char;
        assert(c == car_chiffre((reste % 10) as nat));
        let ghost avant = chiffres@;
        let ghost tete = chiffres_fixes((reste / 10) as nat, (5 - k) as nat);
        chiffres.insert(0, c);
        assert(chiffres_fixes(reste as nat, (6 - k) as nat) == tete.push(c));
        assert(tete.push(c) + avant =~= tete + chiffres@);
        reste = reste / 10;
        k = k + 1;
    }
    assert(chiffres@ =~= chiffres_fixes(n as nat, 6));
    proof {
        chiffres_fixes_sont_des_chiffres(n as nat, 6);
    }
    chaine_de(&chiffres)
}

/// Le code de remise d'une partie, tiré au hasard entre 000000 et 999999.
pub fn code_de_remise() -> (code: String)
    ensures
        code_a_six_chiffres(code@),
        exists|n: nat| n < 1_000_000 && code@ == chiffres_fixes(n, 6),
{
    let n = crate::double_auth::tirage(1_000_000);
    let code = code_de_remise_pour(n as u32);
    assert(code@ == chiffres_fixes((n as u32) as nat, 6));
    code
}

} // verus!

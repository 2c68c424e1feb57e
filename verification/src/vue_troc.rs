//! L'écran d'un troc vu par l'une des parties : quel code montrer, quel
//! paiement afficher, quels colis et quelles évaluations révéler.
//!
//! Identifiants : entiers 128 bits ; instants : nanosecondes depuis l'époque.

use vstd::prelude::*;
use crate::dispute::NANOS_PAR_HEURE;
use crate::shipping::CONFIRMATION_HEURES;
use crate::texte::meme_texte;

verus! {

/// Ce que l'écran lit d'un troc.
pub struct TrocLu {
    pub proposer_id: u128,
    pub recipient_id: u128,
    pub status: String,
    pub delivery_mode: String,
    pub proposer_code: Option<String>,
    pub recipient_code: Option<String>,
    /// Le proposant a saisi le code de l'autre.
    pub proposer_confirmed: bool,
    /// Le destinataire a saisi le code de l'autre.
    pub recipient_confirmed: bool,
    pub cancel_requested_by: Option<u128>,
}

/// Ce que l'écran lit d'un paiement du troc.
pub struct PaiementLu {
    pub payer_id: u128,
    pub status: String,
}

/// Les décisions de l'écran d'un troc.
pub struct VueTroc {
    /// Mon code de remise, montré seulement une fois la soulte séquestrée,
    /// et seulement en main propre.
    pub my_code: Option<String>,
    pub i_confirmed: bool,
    pub other_confirmed: bool,
    pub cancel_requested_by_me: bool,
    pub cancel_requested_by_other: bool,
    /// Le rang du paiement affiché : le mien, à défaut le premier.
    pub paiement_montre: Option<usize>,
    /// L'état du paiement de l'autre, quand j'ai moi-même un paiement.
    pub statut_paiement_autre: Option<String>,
}

pub open spec fn vue_option(t: Option<String>) -> Option<Seq<char>> {
    match t {
        Some(s) => Some(s@),
        None => None,
    }
}

/// Le code de remise n'a cours qu'en main propre, après le séquestre.
pub open spec fn code_actif(t: TrocLu) -> bool {
    t.status@ != "attente_paiement"@ && t.delivery_mode@ == "main_propre"@
}

pub open spec fn mon_code(t: TrocLu, moi: u128) -> Option<Seq<char>> {
    if !code_actif(t) {
        None
    } else if t.proposer_id == moi {
        vue_option(t.proposer_code)
    } else {
        vue_option(t.recipient_code)
    }
}

/// `i` est le premier rang de `paiements` payé par `moi`.
pub open spec fn premier_a_moi(paiements: Seq<PaiementLu>, moi: u128, i: int) -> bool {
    &&& 0 <= i < paiements.len()
    &&& paiements[i].payer_id == moi
    &&& forall|j: int| 0 <= j < i ==> (#[trigger] paiements[j]).payer_id != moi
}

/// `i` est le premier rang de `paiements` payé par un autre que `moi`.
pub open spec fn premier_autre(paiements: Seq<PaiementLu>, moi: u128, i: int) -> bool {
    &&& 0 <= i < paiements.len()
    &&& paiements[i].payer_id != moi
    &&& forall|j: int| 0 <= j < i ==> (#[trigger] paiements[j]).payer_id == moi
}

pub open spec fn a_un_paiement(paiements: Seq<PaiementLu>, moi: u128) -> bool {
    exists|i: int| 0 <= i < paiements.len() && (#[trigger] paiements[i]).payer_id == moi
}

pub open spec fn autre_a_un_paiement(paiements: Seq<PaiementLu>, moi: u128) -> bool {
    exists|i: int| 0 <= i < paiements.len() && (#[trigger] paiements[i]).payer_id != moi
}

/// Le contrat complet de l'écran : chaque champ de la vue en fonction du
/// troc, des paiements et du lecteur.
pub open spec fn vue_conforme(t: TrocLu, paiements: Seq<PaiementLu>, moi: u128, v: VueTroc) -> bool {
    let proposant = t.proposer_id == moi;
    &&& vue_option(v.my_code) == mon_code(t, moi)
    &&& v.i_confirmed == (if proposant { t.proposer_confirmed } else { t.recipient_confirmed })
    &&& v.other_confirmed == (if proposant { t.recipient_confirmed } else { t.proposer_confirmed })
    &&& v.cancel_requested_by_me == (t.cancel_requested_by == Some(moi))
    &&& v.cancel_requested_by_other == (t.cancel_requested_by is Some && t.cancel_requested_by != Some(moi))
    &&& (a_un_paiement(paiements, moi) ==> (v.paiement_montre matches Some(i) && premier_a_moi(paiements, moi, i as int)))
    &&& (!a_un_paiement(paiements, moi) && paiements.len() > 0 ==> v.paiement_montre == Some(0usize))
    &&& (paiements.len() == 0 ==> v.paiement_montre is None)
    &&& (a_un_paiement(paiements, moi) && autre_a_un_paiement(paiements, moi) ==>
            exists|i: int| premier_autre(paiements, moi, i) && vue_option(v.statut_paiement_autre) == Some(paiements[i].status@))
    &&& (!(a_un_paiement(paiements, moi) && autre_a_un_paiement(paiements, moi)) ==> v.statut_paiement_autre is None)
}

fn copie_option(t: &Option<String>) -> (r: Option<String>)
    ensures
        vue_option(r) == vue_option(*t),
{
    match t {
        Some(s) => Some(s.clone()),
        None => None,
    }
}

/// Ce que l'écran montre du troc à `moi`.
pub fn vue_troc(t: &TrocLu, paiements: &Vec<PaiementLu>, moi: u128) -> (v: VueTroc)
    ensures
        vue_conforme(*t, paiements@, moi, v),
{
    let proposant = t.proposer_id == moi;
    let actif = !meme_texte(t.status.as_str(), "attente_paiement") && meme_texte(t.delivery_mode.as_str(), "main_propre");
    let my_code = if !actif {
        None
    } else if proposant {
        copie_option(&t.proposer_code)
    } else {
        copie_option(&t.recipient_code)
    };

    let mut mien: Option<usize> = None;
    let mut autre: Option<usize> = None;
    let mut i: usize = 0;
    while i < paiements.len()
        invariant
            i <= paiements@.len(),
            match mien {
                Some(k) => premier_a_moi(paiements@, moi, k as int) && k < i,
                None => forall|j: int| 0 <= j < i ==> (#[trigger] paiements@[j]).payer_id != moi,
            },
            match autre {
                Some(k) => premier_autre(paiements@, moi, k as int) && k < i,
                None => forall|j: int| 0 <= j < i ==> (#[trigger] paiements@[j]).payer_id == moi,
            },
        decreases paiements.len() - i,
    {
        if paiements[i].payer_id == moi {
            if mien.is_none() {
                mien = Some(i);
            }
        } else {
            if autre.is_none() {
                autre = Some(i);
            }
        }
        i = i + 1;
    }
    let paiement_montre = match mien {
        Some(k) => Some(k),
        None => if paiements.len() > 0 { Some(0) } else { None },
    };
    let statut_paiement_autre = match (mien, autre) {
        (Some(_), Some(k)) => Some(paiements[k].status.clone()),
        _ => None,
    };
    proof {
        if mien is Some && autre is Some {
            assert(premier_autre(paiements@, moi, autre->0 as int));
        }
        if let None = mien {
            if a_un_paiement(paiements@, moi) {
                let j = choose|j: int| 0 <= j < paiements@.len() && (#[trigger] paiements@[j]).payer_id == moi;
                assert(paiements@[j].payer_id != moi);
            }
        }
        if let None = autre {
            if autre_a_un_paiement(paiements@, moi) {
                let j = choose|j: int| 0 <= j < paiements@.len() && (#[trigger] paiements@[j]).payer_id != moi;
                assert(paiements@[j].payer_id == moi);
            }
        }
    }
    VueTroc {
        my_code,
        i_confirmed: if proposant { t.proposer_confirmed } else { t.recipient_confirmed },
        other_confirmed: if proposant { t.recipient_confirmed } else { t.proposer_confirmed },
        cancel_requested_by_me: t.cancel_requested_by == Some(moi),
        cancel_requested_by_other: match t.cancel_requested_by {
            Some(by) => by != moi,
            None => false,
        },
        paiement_montre,
        statut_paiement_autre,
    }
}

/// La fenêtre de confirmation d'un colis retiré, en nanosecondes.
pub open spec fn fenetre_confirmation() -> int {
    CONFIRMATION_HEURES * NANOS_PAR_HEURE
}

/// Ce que l'écran montre d'un colis à `moi` : c'est le mien à envoyer ?
/// son code de dépôt (à l'expéditeur seul) ; l'échéance de confirmation,
/// 72 h après le retrait.
pub fn vue_colis(expediteur: u128, code_depot: &Option<String>, retire_a: Option<i128>, moi: u128)
    -> (r: (bool, Option<String>, Option<i128>))
    requires
        retire_a matches Some(t) ==> t + fenetre_confirmation() <= i128::MAX,
    ensures
        r.0 == (expediteur == moi),
        vue_option(r.1) == (if expediteur == moi { vue_option(*code_depot) } else { None }),
        r.2 == (match retire_a {
            Some(t) => Some((t + fenetre_confirmation()) as i128),
            None => None,
        }),
{
    let expediteur_moi = expediteur == moi;
    let code = if expediteur_moi { copie_option(code_depot) } else { None };
    let echeance = match retire_a {
        Some(t) => Some(t + (CONFIRMATION_HEURES as i128) * NANOS_PAR_HEURE),
        None => None,
    };
    (expediteur_moi, code, echeance)
}

/// Ce que l'écran lit d'une évaluation du troc.
pub struct AvisLu {
    pub reviewer_id: u128,
    pub reviewee_id: u128,
    pub publiee: bool,
}

/// `i` est la première évaluation écrite par `moi`.
pub open spec fn premier_avis_donne(avis: Seq<AvisLu>, moi: u128, i: int) -> bool {
    &&& 0 <= i < avis.len()
    &&& avis[i].reviewer_id == moi
    &&& forall|j: int| 0 <= j < i ==> (#[trigger] avis[j]).reviewer_id != moi
}

/// `i` est la première évaluation publiée qui me note.
pub open spec fn premier_avis_recu(avis: Seq<AvisLu>, moi: u128, i: int) -> bool {
    &&& 0 <= i < avis.len()
    &&& avis[i].reviewee_id == moi && avis[i].publiee
    &&& forall|j: int| 0 <= j < i ==> !((#[trigger] avis[j]).reviewee_id == moi && avis[j].publiee)
}

/// Les évaluations montrées : la mienne, toujours visible pour moi ; celle
/// qui me note, seulement une fois publiée (embargo anti-représailles).
pub fn avis_montres(avis: &Vec<AvisLu>, moi: u128) -> (r: (Option<usize>, Option<usize>))
    ensures
        match r.0 {
            Some(i) => premier_avis_donne(avis@, moi, i as int),
            None => forall|j: int| 0 <= j < avis@.len() ==> (#[trigger] avis@[j]).reviewer_id != moi,
        },
        match r.1 {
            Some(i) => premier_avis_recu(avis@, moi, i as int),
            None => forall|j: int| 0 <= j < avis@.len() ==> !((#[trigger] avis@[j]).reviewee_id == moi && avis@[j].publiee),
        },
{
    let mut donne: Option<usize> = None;
    let mut recu: Option<usize> = None;
    let mut i: usize = 0;
    while i < avis.len()
        invariant
            i <= avis@.len(),
            match donne {
                Some(k) => premier_avis_donne(avis@, moi, k as int),
                None => forall|j: int| 0 <= j < i ==> (#[trigger] avis@[j]).reviewer_id != moi,
            },
            match recu {
                Some(k) => premier_avis_recu(avis@, moi, k as int),
                None => forall|j: int| 0 <= j < i ==> !((#[trigger] avis@[j]).reviewee_id == moi && avis@[j].publiee),
            },
        decreases avis.len() - i,
    {
        if donne.is_none() && avis[i].reviewer_id == moi {
            donne = Some(i);
        }
        if recu.is_none() && avis[i].reviewee_id == moi && avis[i].publiee {
            recu = Some(i);
        }
        i = i + 1;
    }
    (donne, recu)
}

/// Les colis ne sont chargés que pour un troc envoi.
pub fn colis_a_charger(delivery_mode: &str) -> (r: bool)
    ensures
        r == (delivery_mode@ == "envoi"@),
{
    meme_texte(delivery_mode, "envoi")
}

/// Les évaluations ne sont chargées que pour un troc finalisé.
pub fn avis_a_charger(status: &str) -> (r: bool)
    ensures
        r == (status@ == "finalise"@),
{
    meme_texte(status, "finalise")
}

/// Consulter un troc qui attend son paiement vérifie d'abord l'échéance.
pub fn expiration_a_verifier(status: &str) -> (r: bool)
    ensures
        r == (status@ == "attente_paiement"@),
{
    meme_texte(status, "attente_paiement")
}

// ————— Paiements affichés —————

/// Un paiement du troc tel que la base le renvoie.
pub struct PaiementEnregistre {
    pub payer_id: u128,
    pub status: String,
    pub amount_cents: i32,
    pub shipping_cents: i32,
    pub service_cents: i32,
    /// Part soulte du montant.
    pub cash_cents: i32,
    pub fees_cents: i32,
    pub deadline: i128,
    pub failure_reason: Option<String>,
}

/// L'état d'un paiement du troc, tel que l'écran le montre.
pub struct PaymentInfo {
    pub status: String,
    /// Total à préautoriser (transport + service + soulte).
    pub amount_cents: i32,
    pub shipping_cents: i32,
    pub service_cents: i32,
    pub cash_cents: i32,
    pub fees_cents: i32,
    /// Ce que le bénéficiaire reçoit.
    pub net_cents: i32,
    /// Le lecteur est-il celui qui paie ?
    pub i_am_payer: bool,
    pub deadline: i128,
    pub failure_reason: Option<String>,
    /// Authentification forte à ouvrir (jamais renseignée ici).
    pub secure_mode_url: Option<String>,
}

/// Le paiement vu par `user_id` : ses montants, le net du bénéficiaire
/// (soulte moins commission, jamais négatif), et s'il en est le payeur.
pub fn payment_info(p: &PaiementEnregistre, user_id: u128) -> (r: PaymentInfo)
    requires
        i32::MIN <= p.cash_cents - p.fees_cents <= i32::MAX,
    ensures
        r.status@ == p.status@,
        r.amount_cents == p.amount_cents,
        r.shipping_cents == p.shipping_cents,
        r.service_cents == p.service_cents,
        r.cash_cents == p.cash_cents,
        r.fees_cents == p.fees_cents,
        r.net_cents == (if p.cash_cents - p.fees_cents > 0 { p.cash_cents - p.fees_cents } else { 0 }),
        r.i_am_payer == (p.payer_id == user_id),
        r.deadline == p.deadline,
        vue_option(r.failure_reason) == vue_option(p.failure_reason),
        r.secure_mode_url is None,
{
    PaymentInfo {
        status: p.status.clone(),
        amount_cents: p.amount_cents,
        shipping_cents: p.shipping_cents,
        service_cents: p.service_cents,
        cash_cents: p.cash_cents,
        fees_cents: p.fees_cents,
        net_cents: crate::payment::net_beneficiaire_cents(p.cash_cents, p.fees_cents),
        i_am_payer: p.payer_id == user_id,
        deadline: p.deadline,
        failure_reason: copie_option(&p.failure_reason),
        secure_mode_url: None,
    }
}

} // verus!

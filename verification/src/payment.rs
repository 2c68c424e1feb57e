//! Règles du paiement de soulte : séquestre par préautorisation carte,
//! capture à la remise, libération si le troc échoue.

use vstd::prelude::*;
use crate::texte::{meme_texte, octets_des_chiffres, octets_utf8, que_des_chiffres, que_des_chiffres_exec};
use crate::trade::quotient_tronque;

verus! {

/// Qui doit la soulte.
#[derive(Debug, Clone, Copy, PartialEq, Eq)]
pub enum Payeur {
    Proposant,
    Destinataire,
}

/// Le payeur d'une soulte selon la direction portée par la proposition.
pub open spec fn payeur_de(direction: Seq<char>) -> Option<Payeur> {
    if direction == "du_proposant"@ {
        Some(Payeur::Proposant)
    } else if direction == "du_destinataire"@ {
        Some(Payeur::Destinataire)
    } else {
        None
    }
}

/// Le payeur d'une soulte, d'après la direction portée par la proposition.
pub fn payeur(cash_direction: &str) -> (r: Option<Payeur>)
    ensures
        r == payeur_de(cash_direction@),
{
    if meme_texte(cash_direction, "du_proposant") {
        Some(Payeur::Proposant)
    } else if meme_texte(cash_direction, "du_destinataire") {
        Some(Payeur::Destinataire)
    } else {
        None
    }
}

/// Le payeur est devant son écran quand il accepte : il règle tout de suite.
pub const DELAI_PAIEMENT_ACCEPTEUR_MINUTES: i64 = 30;
/// Le payeur n'est pas celui qui accepte : on lui laisse une journée.
pub const DELAI_PAIEMENT_AUTRE_MINUTES: i64 = 1440;

/// Délai accordé au payeur pour préautoriser la soulte, en minutes.
pub fn delai_paiement_minutes(payeur_est_accepteur: bool) -> (r: i64)
    ensures
        r == (if payeur_est_accepteur { DELAI_PAIEMENT_ACCEPTEUR_MINUTES } else { DELAI_PAIEMENT_AUTRE_MINUTES }),
{
    if payeur_est_accepteur {
        DELAI_PAIEMENT_ACCEPTEUR_MINUTES
    } else {
        DELAI_PAIEMENT_AUTRE_MINUTES
    }
}

/// Commission exacte en centimes : `montant × bps / 10 000`, tronquée vers zéro.
pub open spec fn commission(montant: int, bps: int) -> int {
    quotient_tronque(montant * bps, 10_000)
}

/// Commission de la plateforme, en basis points (100 bps = 1 %). Prélevée sur
/// le montant capturé, jamais ajoutée au payeur.
pub fn commission_cents(amount_cents: i32, fees_bps: u16) -> (r: i32)
    ensures
        r == #[verifier::truncate] (commission(amount_cents as int, fees_bps as int) as i32),
        fees_bps <= 10_000 ==> r == commission(amount_cents as int, fees_bps as int),
{
    assert(-0x8000_0000 * 0xffff <= (amount_cents as int) * (fees_bps as int) <= 0x7fff_ffff * 0xffff)
        by (nonlinear_arith)
        requires
            -0x8000_0000 <= amount_cents <= 0x7fff_ffff,
            0 <= fees_bps <= 0xffff;
    let produit: i64 = (amount_cents as i64) * (fees_bps as i64);
    proof {
        if fees_bps <= 10_000 {
            let q = commission(amount_cents as int, fees_bps as int);
            if amount_cents >= 0 {
                assert(amount_cents * fees_bps <= amount_cents * 10_000) by (nonlinear_arith)
                    requires
                        amount_cents >= 0,
                        fees_bps <= 10_000;
                assert(0 <= q <= amount_cents);
            } else {
                assert((-amount_cents) * fees_bps <= (-amount_cents) * 10_000) by (nonlinear_arith)
                    requires
                        amount_cents < 0,
                        fees_bps <= 10_000;
                assert(-(amount_cents * fees_bps) == (-amount_cents) * fees_bps) by (nonlinear_arith);
                assert((-amount_cents) * fees_bps >= 0) by (nonlinear_arith)
                    requires
                        amount_cents < 0,
                        fees_bps >= 0;
                assert(amount_cents <= q <= 0);
            }
        }
    }
    #[verifier::truncate] ((produit / 10_000) as i32)
}

/// Ce que le bénéficiaire recevra une fois la commission prélevée (jamais négatif).
pub fn net_beneficiaire_cents(amount_cents: i32, fees_cents: i32) -> (r: i32)
    requires
        i32::MIN <= amount_cents - fees_cents <= i32::MAX,
    ensures
        r == (if amount_cents - fees_cents > 0 { amount_cents - fees_cents } else { 0 }),
{
    let net = amount_cents - fees_cents;
    if net > 0 {
        net
    } else {
        0
    }
}

/// Statuts de paiement : `en_attente` → `sequestre` | `echoue` | `expire`,
/// puis `sequestre` → `capture` (remise confirmée) | `annule` (troc annulé).
/// Un paiement `echoue` reste retentable jusqu'à la date limite.
pub const STATUTS_PAIEMENT: [&'static str; 6] = [
    "en_attente",
    "echoue",
    "sequestre",
    "capture",
    "annule",
    "expire",
];

/// La préautorisation peut être (re)tentée : paiement en attente ou échoué.
pub open spec fn tentable(statut: Seq<char>) -> bool {
    statut == "en_attente"@ || statut == "echoue"@
}

/// Paiement séquestré.
pub open spec fn capturable(statut: Seq<char>) -> bool {
    statut == "sequestre"@
}

/// Paiement encore libérable : en attente, échoué ou séquestré.
pub open spec fn annulable(statut: Seq<char>) -> bool {
    tentable(statut) || capturable(statut)
}

/// La préautorisation peut être (re)tentée.
pub fn peut_tenter_preautorisation(statut: &str) -> (r: bool)
    ensures
        r == tentable(statut@),
{
    meme_texte(statut, "en_attente") || meme_texte(statut, "echoue")
}

/// Le séquestre peut être enregistré.
pub fn peut_sequestrer(statut: &str) -> (r: bool)
    ensures
        r == tentable(statut@),
{
    peut_tenter_preautorisation(statut)
}

/// La capture n'a de sens que sur un paiement séquestré.
pub fn peut_capturer(statut: &str) -> (r: bool)
    ensures
        r == capturable(statut@),
{
    meme_texte(statut, "sequestre")
}

/// La préautorisation peut être libérée (troc annulé).
pub fn peut_annuler_paiement(statut: &str) -> (r: bool)
    ensures
        r == annulable(statut@),
{
    meme_texte(statut, "en_attente") || meme_texte(statut, "echoue") || meme_texte(statut, "sequestre")
}

/// Le paiement peut expirer (date limite dépassée sans séquestre).
pub fn peut_expirer(statut: &str) -> (r: bool)
    ensures
        r == tentable(statut@),
{
    peut_tenter_preautorisation(statut)
}

/// Un numéro de carte plausible : 12 à 19 chiffres (les espaces sont ignorés
/// par l'appelant). La validité réelle est l'affaire du PSP.
pub open spec fn carte_vraisemblable(chiffres: Seq<char>) -> bool {
    12 <= octets_utf8(chiffres) <= 19 && que_des_chiffres(chiffres)
}

pub fn carte_plausible(digits: &str) -> (r: bool)
    ensures
        r == carte_vraisemblable(digits@),
{
    if !que_des_chiffres_exec(digits) {
        return false;
    }
    proof {
        octets_des_chiffres(digits@);
    }
    let n = digits.unicode_len();
    12 <= n && n <= 19
}

/// La machine à états du paiement : un paiement séquestré se capture ou se
/// libère mais ne se retente plus ; un paiement retentable se libère mais ne
/// se capture pas ; les statuts terminaux (`capture`, `annule`, `expire`)
/// n'admettent plus aucune transition.
pub proof fn machine_a_etats_du_paiement(statut: Seq<char>)
    ensures
        capturable(statut) ==> annulable(statut) && !tentable(statut),
        tentable(statut) ==> annulable(statut) && !capturable(statut),
        (statut == "capture"@ || statut == "annule"@ || statut == "expire"@)
            ==> !tentable(statut) && !capturable(statut) && !annulable(statut),
{
    reveal_strlit("en_attente");
    reveal_strlit("echoue");
    reveal_strlit("sequestre");
    reveal_strlit("capture");
    reveal_strlit("annule");
    reveal_strlit("expire");
    assert("sequestre"@.len() != "en_attente"@.len());
    assert("sequestre"@[0] != "echoue"@[0]);
    assert("capture"@.len() != "en_attente"@.len());
    assert("capture"@.len() != "echoue"@.len());
    assert("capture"@.len() != "sequestre"@.len());
    assert("annule"@[0] != "echoue"@[0]);
    assert("annule"@.len() != "en_attente"@.len());
    assert("annule"@.len() != "sequestre"@.len());
    assert("expire"@[1] != "echoue"@[1]);
    assert("expire"@.len() != "en_attente"@.len());
    assert("expire"@.len() != "sequestre"@.len());
}

/// Le prélèvement ne crée ni ne détruit d'argent : pour une commission entre
/// zéro et le montant, le net et la commission reconstituent le montant ; et
/// le net n'est jamais négatif.
pub proof fn net_plus_commission(montant: int, frais: int)
    requires
        0 <= frais <= montant,
    ensures
        (if montant - frais > 0 { montant - frais } else { 0 }) + frais == montant,
{
}

/// Avec un taux d'au plus 100 %, la commission d'un montant positif reste
/// entre zéro et ce montant.
pub proof fn commission_bornee(montant: int, bps: int)
    requires
        0 <= montant,
        0 <= bps <= 10_000,
    ensures
        0 <= commission(montant, bps) <= montant,
{
    assert(montant * bps <= montant * 10_000) by (nonlinear_arith)
        requires
            0 <= montant,
            bps <= 10_000;
    assert(0 <= montant * bps) by (nonlinear_arith)
        requires
            0 <= montant,
            0 <= bps;
}

} // verus!

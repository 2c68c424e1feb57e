//! Règles du troc : plafond de soulte et machine à états des propositions.

use vstd::prelude::*;
use crate::texte::meme_texte;

verus! {

/// Erreurs métier d'une proposition de troc.
#[derive(Debug, Clone, Copy, PartialEq, Eq)]
pub enum TradeError {
    /// Il faut au moins un objet de chaque côté.
    ObjetsManquants,
    /// Trop d'objets d'un côté (garde-fou anti-abus).
    TropDObjets,
    /// La soulte dépasse le plafond autorisé (valeur = plafond en centimes).
    SoulteTropHaute(i32),
    /// Une soulte sans direction (ou l'inverse) n'a pas de sens.
    SoulteIncoherente,
    /// Transition de statut interdite.
    TransitionInterdite,
}

pub const OBJETS_MAX_PAR_COTE: usize = 10;
/// Durée de vie d'une proposition sans réponse : 7 jours.
pub const EXPIRATION_JOURS: i64 = 7;

/// Directions possibles d'une soulte.
pub const DIRECTIONS_SOULTE: [&'static str; 3] = ["aucune", "du_proposant", "du_destinataire"];

/// Quotient d'une division entière tronquée vers zéro (celle de Rust).
pub open spec fn quotient_tronque(a: int, b: int) -> int
    recommends
        b > 0,
{
    if a >= 0 {
        a / b
    } else {
        -((-a) / b)
    }
}

/// Valeur du meilleur objet (0 sans objet).
pub open spec fn meilleure_valeur(valeurs: Seq<i32>) -> int
    decreases valeurs.len(),
{
    if valeurs.len() == 0 {
        0
    } else if valeurs.len() == 1 {
        valeurs[0] as int
    } else {
        let reste = meilleure_valeur(valeurs.drop_last());
        if reste >= valeurs.last() {
            reste
        } else {
            valeurs.last() as int
        }
    }
}

/// Plafond de soulte : la moitié (arrondie vers zéro) du meilleur objet.
pub open spec fn plafond(valeurs: Seq<i32>) -> int {
    quotient_tronque(meilleure_valeur(valeurs), 2)
}

/// Direction de soulte reconnue.
pub open spec fn direction_connue(d: Seq<char>) -> bool {
    d == "aucune"@ || d == "du_proposant"@ || d == "du_destinataire"@
}

/// Réponse de la validation d'une proposition, dans l'ordre des contrôles :
/// objets de chaque côté, nombre d'objets, direction, cohérence de la soulte,
/// plafond calculé sur tous les objets des deux côtés.
pub open spec fn regle_proposition(
    offertes: Seq<i32>,
    demandees: Seq<i32>,
    soulte: i32,
    direction: Seq<char>,
) -> Result<(), TradeError> {
    if offertes.len() == 0 || demandees.len() == 0 {
        Err(TradeError::ObjetsManquants)
    } else if offertes.len() > OBJETS_MAX_PAR_COTE || demandees.len() > OBJETS_MAX_PAR_COTE {
        Err(TradeError::TropDObjets)
    } else if !direction_connue(direction) {
        Err(TradeError::SoulteIncoherente)
    } else if soulte == 0 && direction == "aucune"@ {
        Ok(())
    } else if soulte == 0 || direction == "aucune"@ {
        Err(TradeError::SoulteIncoherente)
    } else if soulte < 0 {
        Err(TradeError::SoulteIncoherente)
    } else if soulte > plafond(offertes + demandees) {
        Err(TradeError::SoulteTropHaute(plafond(offertes + demandees) as i32))
    } else {
        Ok(())
    }
}

/// Statuts d'une proposition encore ouverte.
pub open spec fn proposition_ouverte(statut: Seq<char>) -> bool {
    statut == "envoyee"@ || statut == "vue"@
}

/// Réponse des contrôles d'ouverture (refus, acceptation, contre-proposition).
pub open spec fn regle_ouverte(statut: Seq<char>) -> Result<(), TradeError> {
    if proposition_ouverte(statut) {
        Ok(())
    } else {
        Err(TradeError::TransitionInterdite)
    }
}

/// Modes de remise d'un troc.
pub open spec fn mode_remise_connu(mode: Seq<char>) -> bool {
    mode == "main_propre"@ || mode == "envoi"@
}

/// Le meilleur objet : au moins aussi cher que chacun, et l'un d'eux.
pub proof fn meilleure_valeur_est_le_maximum(valeurs: Seq<i32>)
    ensures
        forall|i: int| 0 <= i < valeurs.len() ==> valeurs[i] <= meilleure_valeur(valeurs),
        valeurs.len() > 0 ==> exists|i: int| 0 <= i < valeurs.len() && valeurs[i] == meilleure_valeur(valeurs),
    decreases valeurs.len(),
{
    if valeurs.len() > 1 {
        let avant = valeurs.drop_last();
        meilleure_valeur_est_le_maximum(avant);
        assert forall|i: int| 0 <= i < valeurs.len() implies valeurs[i] <= meilleure_valeur(valeurs) by {
            if i < valeurs.len() - 1 {
                assert(valeurs[i] == avant[i]);
            }
        }
        if meilleure_valeur(avant) >= valeurs.last() {
            let j = choose|j: int| 0 <= j < avant.len() && avant[j] == meilleure_valeur(avant);
            assert(valeurs[j] == avant[j]);
        } else {
            assert(valeurs[valeurs.len() - 1] == valeurs.last());
        }
    } else if valeurs.len() == 1 {
        assert(valeurs[0] == meilleure_valeur(valeurs));
    }
}

/// Plafond de soulte : 50 % de la valeur indicative du meilleur objet de la
/// proposition, tous côtés confondus (meilleur objet 100 € → 50 €).
pub fn plafond_soulte_cents(valeurs_cents: &[i32]) -> (r: i32)
    ensures
        r == plafond(valeurs_cents@),
{
    let n = valeurs_cents.len();
    if n == 0 {
        return 0;
    }
    let mut meilleur: i32 = valeurs_cents[0];
    let mut i: usize = 1;
    while i < n
        invariant
            n == valeurs_cents@.len(),
            1 <= i <= n,
            meilleur == meilleure_valeur(valeurs_cents@.take(i as int)),
        decreases n - i,
    {
        assert(valeurs_cents@.take(i + 1).drop_last() =~= valeurs_cents@.take(i as int));
        if valeurs_cents[i] > meilleur {
            meilleur = valeurs_cents[i];
        }
        i = i + 1;
    }
    assert(valeurs_cents@.take(n as int) =~= valeurs_cents@);
    meilleur / 2
}

/// Valide la composition d'une proposition : au moins un objet par côté,
/// pas trop d'objets, soulte cohérente et sous le plafond.
pub fn valider_proposition(
    valeurs_offertes_cents: &[i32],
    valeurs_demandees_cents: &[i32],
    cash_cents: i32,
    cash_direction: &str,
) -> (r: Result<(), TradeError>)
    ensures
        r == regle_proposition(valeurs_offertes_cents@, valeurs_demandees_cents@, cash_cents, cash_direction@),
{
    if valeurs_offertes_cents.len() == 0 || valeurs_demandees_cents.len() == 0 {
        return Err(TradeError::ObjetsManquants);
    }
    if valeurs_offertes_cents.len() > OBJETS_MAX_PAR_COTE
        || valeurs_demandees_cents.len() > OBJETS_MAX_PAR_COTE
    {
        return Err(TradeError::TropDObjets);
    }
    let aucune = meme_texte(cash_direction, "aucune");
    if !(aucune || meme_texte(cash_direction, "du_proposant") || meme_texte(cash_direction, "du_destinataire")) {
        return Err(TradeError::SoulteIncoherente);
    }
    if cash_cents == 0 && aucune {
        return Ok(());
    }
    if cash_cents == 0 || aucune {
        return Err(TradeError::SoulteIncoherente);
    }
    if cash_cents < 0 {
        return Err(TradeError::SoulteIncoherente);
    }
    let mut toutes: Vec<i32> = Vec::new();
    let mut i: usize = 0;
    while i < valeurs_offertes_cents.len()
        invariant
            i <= valeurs_offertes_cents@.len(),
            toutes@ == valeurs_offertes_cents@.take(i as int),
        decreases valeurs_offertes_cents.len() - i,
    {
        toutes.push(valeurs_offertes_cents[i]);
        i = i + 1;
        assert(toutes@ =~= valeurs_offertes_cents@.take(i as int));
    }
    let mut j: usize = 0;
    while j < valeurs_demandees_cents.len()
        invariant
            i == valeurs_offertes_cents@.len(),
            j <= valeurs_demandees_cents@.len(),
            toutes@ == valeurs_offertes_cents@ + valeurs_demandees_cents@.take(j as int),
        decreases valeurs_demandees_cents.len() - j,
    {
        toutes.push(valeurs_demandees_cents[j]);
        j = j + 1;
        assert(toutes@ =~= valeurs_offertes_cents@ + valeurs_demandees_cents@.take(j as int));
    }
    assert(valeurs_demandees_cents@.take(j as int) =~= valeurs_demandees_cents@);
    let plafond = plafond_soulte_cents(toutes.as_slice());
    if cash_cents > plafond {
        Err(TradeError::SoulteTropHaute(plafond))
    } else {
        Ok(())
    }
}

/// Le destinataire peut refuser une proposition encore ouverte.
pub fn peut_refuser(statut: &str) -> (r: Result<(), TradeError>)
    ensures
        r == regle_ouverte(statut@),
{
    if meme_texte(statut, "envoyee") || meme_texte(statut, "vue") {
        Ok(())
    } else {
        Err(TradeError::TransitionInterdite)
    }
}

/// Le destinataire peut accepter une proposition encore ouverte.
pub fn peut_accepter(statut: &str) -> (r: Result<(), TradeError>)
    ensures
        r == regle_ouverte(statut@),
{
    peut_refuser(statut)
}

/// Le destinataire peut contre-proposer sur une proposition encore ouverte.
pub fn peut_contre_proposer(statut: &str) -> (r: Result<(), TradeError>)
    ensures
        r == regle_ouverte(statut@),
{
    peut_refuser(statut)
}

/// Modes de remise possibles d'un troc (choisis à l'acceptation).
pub fn valider_mode_remise(mode: &str) -> (r: Result<(), TradeError>)
    ensures
        r is Ok <==> mode_remise_connu(mode@),
        r matches Err(e) ==> e == TradeError::TransitionInterdite,
{
    if meme_texte(mode, "main_propre") || meme_texte(mode, "envoi") {
        Ok(())
    } else {
        Err(TradeError::TransitionInterdite)
    }
}

/// Une proposition passe à `vue` uniquement depuis `envoyee`.
pub fn peut_marquer_vue(statut: &str) -> (r: bool)
    ensures
        r == (statut@ == "envoyee"@),
{
    meme_texte(statut, "envoyee")
}

/// Une proposition acceptée par la validation respecte le contrat du troc :
/// un à dix objets par côté, une soulte positive avec une direction, ou nulle
/// sans direction, et jamais au-delà de la moitié du meilleur objet proposé :
/// un des objets vaut au moins le double de la soulte.
pub proof fn proposition_valide_sous_le_plafond(
    offertes: Seq<i32>,
    demandees: Seq<i32>,
    soulte: i32,
    direction: Seq<char>,
)
    requires
        regle_proposition(offertes, demandees, soulte, direction) is Ok,
    ensures
        1 <= offertes.len() <= OBJETS_MAX_PAR_COTE,
        1 <= demandees.len() <= OBJETS_MAX_PAR_COTE,
        direction_connue(direction),
        (soulte == 0) <==> (direction == "aucune"@),
        0 <= soulte,
        soulte > 0 ==> soulte <= plafond(offertes + demandees),
        soulte > 0 ==> exists|j: int|
            0 <= j < (offertes + demandees).len() && 2 * soulte <= #[trigger] (offertes + demandees)[j],
{
    let toutes = offertes + demandees;
    meilleure_valeur_est_le_maximum(toutes);
    if soulte > 0 {
        let j = choose|j: int| 0 <= j < toutes.len() && toutes[j] == meilleure_valeur(toutes);
        assert(2 * soulte <= toutes[j]);
    }
}

/// Marquer une proposition comme vue n'arrive que sur une proposition ouverte,
/// que le destinataire peut encore refuser, accepter ou contrer.
pub proof fn vue_seulement_si_ouverte(statut: Seq<char>)
    requires
        statut == "envoyee"@,
    ensures
        regle_ouverte(statut) is Ok,
{
}

} // verus!

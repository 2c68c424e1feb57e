//! Décisions des tâches de maintenance : dédoublonnage des trocs annulés,
//! paliers des rappels de dépôt, sort d'un troc envoi au dépôt en retard.

use vstd::prelude::*;
use crate::shipping::RAPPEL_DEPOT_JOURS;

verus! {

broadcast use vstd::seq_lib::group_seq_properties, vstd::set::group_set_axioms;

/// La ligne `i` porte un troc qui n'apparaît pas plus haut dans la liste.
pub open spec fn premiere_occurrence(ids: Seq<u128>, i: int) -> bool {
    !ids.take(i).contains(ids[i])
}

/// Les trocs annulés arrivent une ligne par partie prévenue. Pour chaque
/// ligne : `true` si son troc n'est pas encore apparu plus haut (l'annulation
/// est alors tracée et les paiements libérés) ; et le nombre de trocs
/// distincts, celui du bilan.
pub fn premieres_occurrences(ids: &Vec<u128>) -> (r: (Vec<bool>, usize))
    ensures
        r.0@.len() == ids@.len(),
        forall|i: int| 0 <= i < ids@.len() ==> r.0@[i] == premiere_occurrence(ids@, i),
        r.1 == ids@.to_set().len(),
{
    let mut drapeaux: Vec<bool> = Vec::new();
    let mut n: usize = 0;
    let mut i: usize = 0;
    assert(ids@.take(0).to_set() =~= Set::<u128>::empty());
    while i < ids.len()
        invariant
            i <= ids@.len(),
            drapeaux@.len() == i,
            forall|k: int| 0 <= k < i ==> drapeaux@[k] == premiere_occurrence(ids@, k),
            n == ids@.take(i as int).to_set().len(),
            n <= i,
        decreases ids.len() - i,
    {
        let x = ids[i];
        let mut vu = false;
        let mut j: usize = 0;
        while j < i
            invariant
                j <= i,
                i < ids@.len(),
                x == ids@[i as int],
                vu <==> exists|k: int| 0 <= k < j && ids@[k] == x,
            decreases i - j,
        {
            if ids[j] == x {
                vu = true;
            }
            j = j + 1;
        }
        let ghost avant = ids@.take(i as int);
        assert(ids@.take(i + 1) =~= avant.push(x));
        assert(vu <==> avant.contains(x)) by {
            if vu {
                let k = choose|k: int| 0 <= k < i && ids@[k] == x;
                assert(avant[k] == x);
            }
            if avant.contains(x) {
                let k = choose|k: int| 0 <= k < avant.len() && avant[k] == x;
                assert(ids@[k] == x);
            }
        }
        proof {
            avant.lemma_push_to_set_commute(x);
            vstd::seq_lib::seq_to_set_is_finite(avant);
        }
        drapeaux.push(!vu);
        if !vu {
            n = n + 1;
        }
        i = i + 1;
    }
    assert(ids@.take(i as int) =~= ids@);
    (drapeaux, n)
}

/// Le palier `k` (à partir de 0) des rappels de dépôt : le nombre de jours
/// après l'acceptation et le niveau du rappel, qui compte à partir de 1.
pub open spec fn palier(k: int) -> (i64, i32) {
    (RAPPEL_DEPOT_JOURS[k], (k + 1) as i32)
}

/// Les paliers des rappels de dépôt, dans l'ordre : J+2 niveau 1, J+4 niveau 2.
pub fn paliers_rappel_depot() -> (r: Vec<(i64, i32)>)
    ensures
        r@.len() == RAPPEL_DEPOT_JOURS@.len(),
        forall|k: int| 0 <= k < r@.len() ==> r@[k] == palier(k),
{
    let mut r: Vec<(i64, i32)> = Vec::new();
    let mut k: usize = 0;
    while k < RAPPEL_DEPOT_JOURS.len()
        invariant
            k <= RAPPEL_DEPOT_JOURS@.len(),
            r@.len() == k,
            forall|j: int| 0 <= j < k ==> r@[j] == palier(j),
        decreases RAPPEL_DEPOT_JOURS@.len() - k,
    {
        let niveau: i32 = (k + 1) as i32;
        r.push((RAPPEL_DEPOT_JOURS[k], niveau));
        k = k + 1;
    }
    r
}

/// Le rappel de ce niveau est-il le second, celui qui prévient de l'échéance ?
pub fn rappel_insistant(niveau: i32) -> (r: bool)
    ensures
        r == (niveau == 2),
{
    niveau == 2
}

/// Ce que devient un troc envoi dont le dépôt n'est pas fait à l'échéance.
#[derive(Debug, Clone, Copy, PartialEq, Eq)]
pub enum IssueDepotManque {
    /// Personne n'a expédié : annulation simple, paiements libérés.
    Annulation,
    /// Un seul colis est parti : gel, dossier système et sanction du fautif.
    Gel,
}

/// Aucun colis déposé : annulation ; au moins un : gel pour examen.
pub fn issue_depot_manque(colis_deposes: i64) -> (r: IssueDepotManque)
    ensures
        (r == IssueDepotManque::Annulation) == (colis_deposes == 0),
{
    if colis_deposes == 0 {
        IssueDepotManque::Annulation
    } else {
        IssueDepotManque::Gel
    }
}

/// Pourquoi la maintenance gèle un troc envoi.
#[derive(Debug, Clone, Copy, PartialEq, Eq)]
pub enum CauseGel {
    /// Un seul colis déposé à l'échéance de dépôt.
    DepotPartiel,
    /// Troc envoi toujours ouvert au filet de sécurité.
    TrocBloque,
}

/// Les textes qu'un gel laisse derrière lui : l'événement du journal de
/// litige et son détail, la description du dossier système (motif
/// `non_depot`), et le détail de l'alerte envoyée aux parties.
pub struct TracesGel {
    pub evenement: &'static str,
    pub detail: &'static str,
    pub description: &'static str,
    pub alerte: &'static str,
}

pub open spec fn traces_attendues(cause: CauseGel, t: TracesGel) -> bool {
    match cause {
        CauseGel::DepotPartiel => {
            &&& t.evenement@ == "non_depot"@
            &&& t.detail@ == "un seul colis expédié à J+5"@
            &&& t.description@ == "Dossier créé automatiquement : un seul colis déposé à J+5."@
            &&& t.alerte@ == "un seul colis expédié à J+5"@
        },
        CauseGel::TrocBloque => {
            &&& t.evenement@ == "troc_envoi_bloque"@
            &&& t.detail@ == "toujours ouvert à J+21"@
            &&& t.description@ == "Dossier créé automatiquement : troc envoi toujours ouvert à J+21."@
            &&& t.alerte@ == "troc envoi toujours ouvert à J+21"@
        },
    }
}

/// Les traces d'un gel, selon sa cause.
pub fn traces_gel(cause: CauseGel) -> (t: TracesGel)
    ensures
        traces_attendues(cause, t),
{
    match cause {
        CauseGel::DepotPartiel => TracesGel {
            evenement: "non_depot",
            detail: "un seul colis expédié à J+5",
            description: "Dossier créé automatiquement : un seul colis déposé à J+5.",
            alerte: "un seul colis expédié à J+5",
        },
        CauseGel::TrocBloque => TracesGel {
            evenement: "troc_envoi_bloque",
            detail: "toujours ouvert à J+21",
            description: "Dossier créé automatiquement : troc envoi toujours ouvert à J+21.",
            alerte: "troc envoi toujours ouvert à J+21",
        },
    }
}

} // verus!

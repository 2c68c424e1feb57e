//! Statut de santé de l'application, dérivé de l'état de ses dépendances.

use vstd::prelude::*;

verus! {

/// État d'une dépendance (base de données, etc. ; `Reachable` se publie `ok`).
#[derive(Debug, Clone, Copy, PartialEq, Eq)]
pub enum DependencyStatus {
    Reachable,
    Unreachable,
}

/// Statut global de l'API (`Healthy` se publie `ok`).
#[derive(Debug, Clone, Copy, PartialEq, Eq)]
pub enum HealthStatus {
    Healthy,
    Degraded,
}

/// Statut global exposé par l'endpoint de santé.
#[derive(Debug, Clone, Copy, PartialEq, Eq)]
pub enum ApiStatus {
    Healthy,
    Degraded,
}

/// État de la base exposé par l'endpoint de santé.
#[derive(Debug, Clone, Copy, PartialEq, Eq)]
pub enum DbStatus {
    Reachable,
    Unreachable,
}

/// Toutes les dépendances répondent.
pub open spec fn toutes_ok(deps: Seq<DependencyStatus>) -> bool {
    forall|i: int| 0 <= i < deps.len() ==> #[trigger] deps[i] == DependencyStatus::Reachable
}

/// Règle métier : l'API est `Ok` si et seulement si toutes ses dépendances le sont.
pub fn overall_status(dependencies: &[DependencyStatus]) -> (r: HealthStatus)
    ensures
        r == (if toutes_ok(dependencies@) { HealthStatus::Healthy } else { HealthStatus::Degraded }),
{
    let mut i: usize = 0;
    while i < dependencies.len()
        invariant
            i <= dependencies@.len(),
            forall|j: int| 0 <= j < i ==> #[trigger] dependencies@[j] == DependencyStatus::Reachable,
        decreases dependencies.len() - i,
    {
        match dependencies[i] {
            DependencyStatus::Reachable => {},
            DependencyStatus::Unreachable => {
                return HealthStatus::Degraded;
            },
        }
        i = i + 1;
    }
    HealthStatus::Healthy
}

/// Le statut de santé tel que l'endpoint le publie.
pub fn statut_api(value: HealthStatus) -> (r: ApiStatus)
    ensures
        (r == ApiStatus::Healthy) <==> (value == HealthStatus::Healthy),
{
    match value {
        HealthStatus::Healthy => ApiStatus::Healthy,
        HealthStatus::Degraded => ApiStatus::Degraded,
    }
}

/// L'état d'une dépendance tel que l'endpoint le publie pour la base.
pub fn statut_base(value: DependencyStatus) -> (r: DbStatus)
    ensures
        (r == DbStatus::Reachable) <==> (value == DependencyStatus::Reachable),
{
    match value {
        DependencyStatus::Reachable => DbStatus::Reachable,
        DependencyStatus::Unreachable => DbStatus::Unreachable,
    }
}

/// Ajouter une dépendance en panne dégrade toujours le statut, quelle que
/// soit la liste de départ ; ajouter une dépendance saine ne change rien.
pub proof fn une_panne_suffit(deps: Seq<DependencyStatus>)
    ensures
        !toutes_ok(deps.push(DependencyStatus::Unreachable)),
        toutes_ok(deps.push(DependencyStatus::Reachable)) == toutes_ok(deps),
        toutes_ok(Seq::<DependencyStatus>::empty()),
{
    assert(deps.push(DependencyStatus::Unreachable)[deps.len() as int] == DependencyStatus::Unreachable);
    if toutes_ok(deps.push(DependencyStatus::Reachable)) {
        assert forall|i: int| 0 <= i < deps.len() implies #[trigger] deps[i] == DependencyStatus::Reachable by {
            assert(deps.push(DependencyStatus::Reachable)[i] == deps[i]);
        }
    }
}

/// L'état de la base selon la réponse à la sonde.
pub fn etat_base(sonde_ok: bool) -> (r: DependencyStatus)
    ensures
        (r == DependencyStatus::Reachable) == sonde_ok,
{
    if sonde_ok {
        DependencyStatus::Reachable
    } else {
        DependencyStatus::Unreachable
    }
}

/// Réponse du endpoint de santé.
pub struct HealthResponse {
    /// Statut global de l'API.
    pub status: ApiStatus,
    /// Version du build (crate + SHA court du commit).
    pub version: String,
    /// État de la connexion à la base.
    pub db: DbStatus,
}

/// La réponse de santé une fois la base sondée : la base est joignable
/// si la sonde a répondu, et l'API n'est saine que si la base l'est.
pub fn reponse_sante(sonde_ok: bool, version: String) -> (r: HealthResponse)
    ensures
        (r.db == DbStatus::Reachable) == sonde_ok,
        (r.status == ApiStatus::Healthy) == sonde_ok,
        r.version@ == version@,
{
    let db = etat_base(sonde_ok);
    let deps = [db];
    let global = overall_status(&deps);
    proof {
        if !sonde_ok {
            assert(deps@[0] == DependencyStatus::Unreachable);
        }
    }
    HealthResponse { status: statut_api(global), version, db: statut_base(db) }
}

} // verus!

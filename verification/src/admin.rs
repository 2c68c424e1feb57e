//! Rôles d'administration et règles d'habilitation.
//!
//! Trois niveaux : `utilisateur` (aucun accès), `admin` (traitement
//! quotidien : litiges, signalements, journal) et `super_admin` (actions
//! sensibles : rôles, sanctions, recherche transverse, indicateurs).
//! Le compte maître est un super-admin que personne ne peut rétrograder
//! ni sanctionner.

use vstd::prelude::*;
use crate::texte::meme_texte;

verus! {

pub const ROLE_UTILISATEUR: &'static str = "utilisateur";
pub const ROLE_ADMIN: &'static str = "admin";
pub const ROLE_SUPER_ADMIN: &'static str = "super_admin";

pub const ROLES: [&'static str; 3] = [ROLE_UTILISATEUR, ROLE_ADMIN, ROLE_SUPER_ADMIN];

#[derive(Debug, Clone, Copy, PartialEq, Eq)]
pub enum AdminError {
    /// Rôle inconnu.
    RoleInvalide,
    /// L'auteur n'a pas le niveau requis.
    NiveauInsuffisant,
    /// Le compte maître ne se touche pas.
    CompteMaitre,
    /// On ne modifie pas son propre rôle (anti-verrouillage et anti-escalade).
    SoiMeme,
}

/// Un des trois rôles connus.
pub open spec fn role_connu(role: Seq<char>) -> bool {
    role == ROLE_UTILISATEUR@ || role == ROLE_ADMIN@ || role == ROLE_SUPER_ADMIN@
}

/// Accès au panneau d'administration.
pub open spec fn administre(role: Seq<char>) -> bool {
    role == ROLE_ADMIN@ || role == ROLE_SUPER_ADMIN@
}

/// Niveau super-administrateur.
pub open spec fn super_admin(role: Seq<char>) -> bool {
    role == ROLE_SUPER_ADMIN@
}

/// Réponse de la règle de changement de rôle, dans l'ordre des contrôles :
/// niveau de l'auteur, rôle demandé, compte maître, soi-même.
pub open spec fn regle_changement_role(
    role_acteur: Seq<char>,
    acteur_est_la_cible: bool,
    cible_est_maitre: bool,
    nouveau_role: Seq<char>,
) -> Result<(), AdminError> {
    if !super_admin(role_acteur) {
        Err(AdminError::NiveauInsuffisant)
    } else if !role_connu(nouveau_role) {
        Err(AdminError::RoleInvalide)
    } else if cible_est_maitre {
        Err(AdminError::CompteMaitre)
    } else if acteur_est_la_cible {
        Err(AdminError::SoiMeme)
    } else {
        Ok(())
    }
}

/// Réponse de la règle de sanction : niveau de l'auteur, puis compte maître.
pub open spec fn regle_sanction(role_acteur: Seq<char>, cible_est_maitre: bool) -> Result<(), AdminError> {
    if !super_admin(role_acteur) {
        Err(AdminError::NiveauInsuffisant)
    } else if cible_est_maitre {
        Err(AdminError::CompteMaitre)
    } else {
        Ok(())
    }
}

pub fn role_valide(role: &str) -> (r: bool)
    ensures
        r == role_connu(role@),
{
    meme_texte(role, ROLE_UTILISATEUR) || meme_texte(role, ROLE_ADMIN) || meme_texte(role, ROLE_SUPER_ADMIN)
}

/// Accès au panneau d'administration (lecture et traitement courant).
pub fn peut_administrer(role: &str) -> (r: bool)
    ensures
        r == administre(role@),
{
    meme_texte(role, ROLE_ADMIN) || meme_texte(role, ROLE_SUPER_ADMIN)
}

/// Actions sensibles : gestion des rôles, sanctions, vue globale.
pub fn est_super_admin(role: &str) -> (r: bool)
    ensures
        r == super_admin(role@),
{
    meme_texte(role, ROLE_SUPER_ADMIN)
}

/// Peut-on attribuer `nouveau_role` à cette cible ?
///
/// Seul un super-admin promeut ou rétrograde. Le compte maître est
/// intouchable, et personne ne change son propre rôle.
pub fn peut_changer_role(
    role_acteur: &str,
    acteur_est_la_cible: bool,
    cible_est_maitre: bool,
    nouveau_role: &str,
) -> (r: Result<(), AdminError>)
    ensures
        r == regle_changement_role(role_acteur@, acteur_est_la_cible, cible_est_maitre, nouveau_role@),
{
    if !est_super_admin(role_acteur) {
        return Err(AdminError::NiveauInsuffisant);
    }
    if !role_valide(nouveau_role) {
        return Err(AdminError::RoleInvalide);
    }
    if cible_est_maitre {
        return Err(AdminError::CompteMaitre);
    }
    if acteur_est_la_cible {
        return Err(AdminError::SoiMeme);
    }
    Ok(())
}

/// Peut-on sanctionner (bannir, restreindre, lever) ce compte ?
pub fn peut_sanctionner(role_acteur: &str, cible_est_maitre: bool) -> (r: Result<(), AdminError>)
    ensures
        r == regle_sanction(role_acteur@, cible_est_maitre),
{
    if !est_super_admin(role_acteur) {
        return Err(AdminError::NiveauInsuffisant);
    }
    if cible_est_maitre {
        return Err(AdminError::CompteMaitre);
    }
    Ok(())
}

/// Les niveaux sont emboîtés : un super-admin administre, et quiconque
/// administre a un rôle connu.
pub proof fn niveaux_emboites(role: Seq<char>)
    ensures
        super_admin(role) ==> administre(role),
        administre(role) ==> role_connu(role),
{
}

/// Seul un super-admin obtient un feu vert, pour changer un rôle comme pour
/// sanctionner ; et le rôle attribué est toujours un rôle connu.
pub proof fn seul_un_super_admin_agit(
    role_acteur: Seq<char>,
    acteur_est_la_cible: bool,
    cible_est_maitre: bool,
    nouveau_role: Seq<char>,
)
    ensures
        regle_changement_role(role_acteur, acteur_est_la_cible, cible_est_maitre, nouveau_role) is Ok
            ==> super_admin(role_acteur) && role_connu(nouveau_role),
        regle_sanction(role_acteur, cible_est_maitre) is Ok ==> super_admin(role_acteur),
{
}

/// Le compte maître est intouchable : aucune demande de changement de rôle
/// ni de sanction le visant n'est acceptée, quel qu'en soit l'auteur.
pub proof fn compte_maitre_intouchable(role_acteur: Seq<char>, acteur_est_la_cible: bool, nouveau_role: Seq<char>)
    ensures
        regle_changement_role(role_acteur, acteur_est_la_cible, true, nouveau_role) is Err,
        regle_sanction(role_acteur, true) is Err,
{
}

/// Personne ne change son propre rôle.
pub proof fn pas_de_changement_pour_soi(role_acteur: Seq<char>, cible_est_maitre: bool, nouveau_role: Seq<char>)
    ensures
        regle_changement_role(role_acteur, true, cible_est_maitre, nouveau_role) is Err,
{
}

} // verus!

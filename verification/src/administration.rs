//! Back-office : qui entre, ce qui est montré, et les textes que chaque
//! action laisse au journal d'audit ou envoie au membre concerné.

use vstd::prelude::*;
use crate::admin::{administre, est_super_admin, peut_administrer, super_admin};
use crate::erreurs::{decimal, est_erreur, texte_naturel, ApiError, GenreErreur};
use crate::texte::{concatener, meme_texte, nettoye, nettoyer, vue_facultative, vue_possedee};
use vstd::string::StringSliceAdditionalSpecFns;

verus! {

pub open spec fn erreur_super_admin_requis(e: ApiError) -> bool {
    est_erreur(
        e,
        GenreErreur::Interdit,
        "super_admin_requis"@,
        "Cette action est réservée aux super-administrateurs."@,
    )
}

/// Les actions sensibles (vue globale, modération, équipe) sont réservées
/// aux super-administrateurs.
pub fn exiger_super_admin(role: &str) -> (r: Result<(), ApiError>)
    ensures
        r is Ok <==> super_admin(role@),
        r matches Err(e) ==> erreur_super_admin_requis(e),
{
    if est_super_admin(role) {
        Ok(())
    } else {
        Err(ApiError::forbidden("super_admin_requis", "Cette action est réservée aux super-administrateurs."))
    }
}

pub open spec fn erreur_acces_refuse(e: ApiError) -> bool {
    est_erreur(e, GenreErreur::Interdit, "acces_refuse"@, "Accès réservé à l'administration."@)
}

/// Une session connectée n'entre au back-office qu'avec un rôle
/// d'administration ; `None` : le compte n'a pas de rôle connu.
pub fn acces_administration(role: Option<&str>) -> (r: Result<(), ApiError>)
    ensures
        r is Ok <==> (role matches Some(x) && administre(x@)),
        r matches Err(e) ==> erreur_acces_refuse(e),
{
    match role {
        Some(x) => if peut_administrer(x) {
            Ok(())
        } else {
            Err(ApiError::forbidden("acces_refuse", "Accès réservé à l'administration."))
        },
        None => Err(ApiError::forbidden("acces_refuse", "Accès réservé à l'administration.")),
    }
}

/// La clé de service fournie est-elle exactement la clé attendue ? La
/// comparaison parcourt tous les octets sans s'arrêter au premier écart :
/// sa durée ne dit rien de la clé.
pub fn cle_de_service_valide(fourni: &str, attendu: &str) -> (r: bool)
    ensures
        r == (fourni.spec_bytes() == attendu.spec_bytes()),
{
    let a = fourni.as_bytes();
    let b = attendu.as_bytes();
    if a.len() != b.len() {
        return false;
    }
    let mut acc: u8 = 0;
    let mut i: usize = 0;
    while i < a.len()
        invariant
            a@ == fourni.spec_bytes(),
            b@ == attendu.spec_bytes(),
            a@.len() == b@.len(),
            i <= a@.len(),
            acc == 0 <==> forall|j: int| 0 <= j < i ==> a@[j] == b@[j],
        decreases a.len() - i,
    {
        let x = a[i];
        let y = b[i];
        let suivant = acc | (x ^ y);
        assert(suivant == 0 <==> (acc == 0 && x == y)) by (bit_vector)
            requires
                suivant == acc | (x ^ y),
        ;
        proof {
            if suivant == 0 {
                assert forall|j: int| 0 <= j < i + 1 implies a@[j] == b@[j] by {
                    if j < i {
                    }
                }
            }
        }
        acc = suivant;
        i = i + 1;
    }
    if acc == 0 {
        assert(a@ =~= b@);
        true
    } else {
        false
    }
}

/// Une recherche du back-office : la saisie rognée ; vide, rien n'est cherché.
pub fn requete_admin(q: &str) -> (r: Option<String>)
    ensures
        vue_possedee(r) == nettoye(Some(q@)),
{
    nettoyer(Some(q))
}

/// Un filtre facultatif de la liste des annonces : rogné, ignoré s'il est vide.
pub fn filtre_admin(v: Option<&str>) -> (r: Option<String>)
    ensures
        vue_possedee(r) == nettoye(vue_facultative(v)),
{
    nettoyer(v)
}

/// Le statut affiché d'une annonce : `supprime` si elle a été supprimée.
pub fn statut_annonce(supprimee: bool, status: &str) -> (r: String)
    ensures
        r@ == (if supprimee { "supprime"@ } else { status@ }),
{
    if supprimee {
        "supprime".to_owned()
    } else {
        status.to_owned()
    }
}

// ————— Signalements —————

/// L'issue d'un signalement : fondé ou rejeté.
pub open spec fn issue_signalement(outcome: Seq<char>) -> bool {
    outcome == "fonde"@ || outcome == "rejete"@
}

pub open spec fn erreur_issue_signalement(e: ApiError) -> bool {
    est_erreur(e, GenreErreur::RequeteInvalide, "issue_invalide"@, "L'issue est fonde ou rejete."@)
}

pub fn verifier_issue_signalement(outcome: &str) -> (r: Result<(), ApiError>)
    ensures
        r is Ok <==> issue_signalement(outcome@),
        r matches Err(e) ==> erreur_issue_signalement(e),
{
    if meme_texte(outcome, "fonde") || meme_texte(outcome, "rejete") {
        Ok(())
    } else {
        Err(ApiError::bad_request("issue_invalide", "L'issue est fonde ou rejete."))
    }
}

pub open spec fn erreur_deja_traite(e: ApiError) -> bool {
    est_erreur(e, GenreErreur::RequeteInvalide, "deja_traite"@, "Ce signalement n'existe pas ou est déjà traité."@)
}

/// Le refus quand le signalement n'existe pas ou est déjà clos.
pub fn signalement_deja_traite() -> (e: ApiError)
    ensures
        erreur_deja_traite(e),
{
    ApiError::bad_request("deja_traite", "Ce signalement n'existe pas ou est déjà traité.")
}

/// Un signalement de membre jugé fondé pèse sur son score de fiabilité.
pub fn signalement_a_sanctionner(outcome: &str, target_type: &str) -> (r: bool)
    ensures
        r == (outcome@ == "fonde"@ && target_type@ == "utilisateur"@),
{
    meme_texte(outcome, "fonde") && meme_texte(target_type, "utilisateur")
}

/// Le détail de l'événement de score : « signalement {motif} fondé ».
pub fn detail_signalement_fonde(reason: &str) -> (r: String)
    ensures
        r@ == "signalement "@ + reason@ + " fondé"@,
{
    let a = concatener("signalement ", reason);
    concatener(a.as_str(), " fondé")
}

/// Le détail d'audit de la clôture : « {motif} → {issue} ».
pub fn detail_cloture(reason: &str, outcome: &str) -> (r: String)
    ensures
        r@ == reason@ + " → "@ + outcome@,
{
    let a = concatener(reason, " → ");
    concatener(a.as_str(), outcome)
}

// ————— Rôles —————

/// Attribuer à quelqu'un le rôle qu'il a déjà ne change rien et ne laisse
/// pas de trace.
pub fn role_inchange(ancien: &str, nouveau: &str) -> (r: bool)
    ensures
        r == (ancien@ == nouveau@),
{
    meme_texte(ancien, nouveau)
}

/// Le détail d'audit d'un changement de rôle : « {pseudo} : {ancien} → {nouveau} ».
pub fn detail_changement_role(pseudo: &str, ancien: &str, nouveau: &str) -> (r: String)
    ensures
        r@ == pseudo@ + " : "@ + ancien@ + " → "@ + nouveau@,
{
    let a = concatener(pseudo, " : ");
    let b = concatener(a.as_str(), ancien);
    let c = concatener(b.as_str(), " → ");
    concatener(c.as_str(), nouveau)
}

// ————— Modération d'une annonce —————

/// Ce que laisse la modération d'une annonce : l'action d'audit et son
/// détail, le titre et le corps de la notification au propriétaire.
pub struct TextesModeration {
    pub action: String,
    pub details: String,
    pub titre_notif: String,
    pub corps: String,
}

pub open spec fn textes_moderation_attendus(masquer: bool, titre: Seq<char>, motif: Option<Seq<char>>, t: TextesModeration) -> bool {
    let motif = nettoye(motif);
    &&& t.action@ == (if masquer { "item_masque"@ } else { "item_restaure"@ })
    &&& t.details@ == titre + " — "@ + (match motif {
        Some(m) => m,
        None => "sans motif précisé"@,
    })
    &&& t.titre_notif@ == (if masquer { "Ton annonce a été retirée"@ } else { "Ton annonce est de nouveau en ligne"@ })
    &&& t.corps@ == (if masquer {
        "« "@ + titre + " » n'est plus visible : "@ + (match motif {
            Some(m) => m,
            None => "elle ne respecte pas les règles de la plateforme"@,
        }) + ". Tu peux la corriger puis nous écrire."@
    } else {
        "« "@ + titre + " » est de nouveau visible par les autres membres."@
    })
}

/// Les textes de la modération d'une annonce, masquée ou restaurée. Le
/// motif est rogné ; vide ou absent, un texte par défaut le remplace.
pub fn textes_moderation(masquer: bool, titre: &str, motif: Option<&str>) -> (t: TextesModeration)
    ensures
        textes_moderation_attendus(masquer, titre@, vue_facultative(motif), t),
{
    let motif = nettoyer(motif);
    let action = if masquer { "item_masque".to_owned() } else { "item_restaure".to_owned() };
    let details = {
        let a = concatener(titre, " — ");
        match &motif {
            Some(m) => concatener(a.as_str(), m.as_str()),
            None => concatener(a.as_str(), "sans motif précisé"),
        }
    };
    let titre_notif = if masquer {
        "Ton annonce a été retirée".to_owned()
    } else {
        "Ton annonce est de nouveau en ligne".to_owned()
    };
    let a = concatener("« ", titre);
    let corps = if masquer {
        let b = concatener(a.as_str(), " » n'est plus visible : ");
        let c = match &motif {
            Some(m) => concatener(b.as_str(), m.as_str()),
            None => concatener(b.as_str(), "elle ne respecte pas les règles de la plateforme"),
        };
        concatener(c.as_str(), ". Tu peux la corriger puis nous écrire.")
    } else {
        concatener(a.as_str(), " » est de nouveau visible par les autres membres.")
    };
    TextesModeration { action, details, titre_notif, corps }
}

/// Le détail d'audit de la consultation d'un fil : « {a} ↔ {b} ({n} messages) ».
pub fn detail_consultation(proposant: &str, destinataire: &str, messages: u64) -> (r: String)
    ensures
        r@ == proposant@ + " ↔ "@ + destinataire@ + " ("@ + decimal(messages as nat) + " messages)"@,
{
    let a = concatener(proposant, " ↔ ");
    let b = concatener(a.as_str(), destinataire);
    let c = concatener(b.as_str(), " (");
    let n = texte_naturel(messages);
    let d = concatener(c.as_str(), n.as_str());
    concatener(d.as_str(), " messages)")
}

} // verus!

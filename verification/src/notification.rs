//! Taxonomie des notifications — liste fermée. L'in-app est systématique ;
//! seul le canal e-mail se règle, et uniquement pour les types non critiques.

use vstd::prelude::*;
use crate::dto::EmailPrefsResponse;
use crate::jetons::{forme_uuid, texte_uuid};
use crate::texte::{concatener, meme_texte};

verus! {

/// Types de notification utilisateur.
pub const TYPES: [&'static str; 10] = [
    "proposition_recue",
    "proposition_acceptee",
    "proposition_cloturee",
    "message_recu",
    "paiement",
    "expedition",
    "remise",
    "evaluation",
    "litige",
    "favori",
];

/// Les seuls types dont l'e-mail est désactivable. Tout ce qui touche à
/// l'argent, au contrat en cours ou au juridique est verrouillé.
pub const TYPES_EMAIL_DESACTIVABLES: [&'static str; 5] = [
    "proposition_recue",
    "proposition_cloturee",
    "message_recu",
    "evaluation",
    "favori",
];

/// Purge des notifications au-delà de 90 jours.
pub const RETENTION_JOURS: i64 = 90;

/// Type de notification connu.
pub open spec fn type_connu(kind: Seq<char>) -> bool {
    ||| kind == "proposition_recue"@
    ||| kind == "proposition_acceptee"@
    ||| kind == "proposition_cloturee"@
    ||| kind == "message_recu"@
    ||| kind == "paiement"@
    ||| kind == "expedition"@
    ||| kind == "remise"@
    ||| kind == "evaluation"@
    ||| kind == "litige"@
    ||| kind == "favori"@
}

/// Type dont l'e-mail peut être coupé.
pub open spec fn desactivable(kind: Seq<char>) -> bool {
    ||| kind == "proposition_recue"@
    ||| kind == "proposition_cloturee"@
    ||| kind == "message_recu"@
    ||| kind == "evaluation"@
    ||| kind == "favori"@
}

pub fn type_valide(kind: &str) -> (r: bool)
    ensures
        r == type_connu(kind@),
{
    meme_texte(kind, "proposition_recue") || meme_texte(kind, "proposition_acceptee")
        || meme_texte(kind, "proposition_cloturee") || meme_texte(kind, "message_recu")
        || meme_texte(kind, "paiement") || meme_texte(kind, "expedition")
        || meme_texte(kind, "remise") || meme_texte(kind, "evaluation")
        || meme_texte(kind, "litige") || meme_texte(kind, "favori")
}

pub fn email_desactivable(kind: &str) -> (r: bool)
    ensures
        r == desactivable(kind@),
{
    meme_texte(kind, "proposition_recue") || meme_texte(kind, "proposition_cloturee")
        || meme_texte(kind, "message_recu") || meme_texte(kind, "evaluation")
        || meme_texte(kind, "favori")
}

/// Préférences e-mail d'un utilisateur : les entrées booléennes de son
/// objet JSON de préférences, `(type, activé)`. Une clé absente ou non
/// booléenne ne figure pas ici.
pub struct EmailPrefs {
    pub drapeaux: Vec<(String, bool)>,
}

/// `k` est la première entrée des préférences pour le type `kind`.
pub open spec fn premiere_entree(drapeaux: Seq<(String, bool)>, kind: Seq<char>, k: int) -> bool {
    &&& 0 <= k < drapeaux.len()
    &&& drapeaux[k].0@ == kind
    &&& forall|j: int| 0 <= j < k ==> (#[trigger] drapeaux[j]).0@ != kind
}

/// La préférence enregistrée pour un type, s'il y en a une.
pub open spec fn reglage(drapeaux: Seq<(String, bool)>, kind: Seq<char>) -> Option<bool> {
    if exists|k: int| premiere_entree(drapeaux, kind, k) {
        let k = choose|k: int| premiere_entree(drapeaux, kind, k);
        Some(drapeaux[k].1)
    } else {
        None
    }
}

/// L'e-mail part si le type est verrouillé, ou si l'utilisateur ne l'a pas
/// explicitement coupé (clé absente = activé).
pub open spec fn email_part(drapeaux: Seq<(String, bool)>, kind: Seq<char>) -> bool {
    !desactivable(kind) || reglage(drapeaux, kind) != Some(false)
}

/// L'e-mail part-il pour ce type, selon les préférences de l'utilisateur ?
/// `{type: false}` = coupé ; clé absente = activé (opt-out). Les types
/// verrouillés ignorent les préférences.
pub fn email_active(prefs: &EmailPrefs, kind: &str) -> (r: bool)
    ensures
        r == email_part(prefs.drapeaux@, kind@),
{
    if !email_desactivable(kind) {
        return true;
    }
    let d = &prefs.drapeaux;
    let mut i: usize = 0;
    while i < d.len()
        invariant
            desactivable(kind@),
            d@ == prefs.drapeaux@,
            i <= d@.len(),
            forall|j: int| 0 <= j < i ==> (#[trigger] d@[j]).0@ != kind@,
        decreases d.len() - i,
    {
        if meme_texte(d[i].0.as_str(), kind) {
            assert(premiere_entree(d@, kind@, i as int));
            proof {
                assert forall|k: int| premiere_entree(d@, kind@, k) implies k == i by {
                    if k < i {
                        assert(d@[k].0@ != kind@);
                    } else if k > i {
                        assert(d@[i as int].0@ == kind@);
                    }
                }
                let k = choose|k: int| premiere_entree(d@, kind@, k);
                assert(k == i);
                assert(reglage(d@, kind@) == Some(d@[i as int].1));
            }
            return d[i].1;
        }
        i = i + 1;
    }
    assert forall|k: int| !premiere_entree(d@, kind@, k) by {
        if 0 <= k < d@.len() {
            assert(d@[k].0@ != kind@);
        }
    }
    true
}

/// Les types critiques ignorent les préférences : leur e-mail part toujours.
pub proof fn types_critiques_toujours_envoyes(drapeaux: Seq<(String, bool)>, kind: Seq<char>)
    requires
        !desactivable(kind),
    ensures
        email_part(drapeaux, kind),
{
}

/// Sans préférence enregistrée, l'e-mail part (opt-out).
pub proof fn sans_reglage_l_email_part(kind: Seq<char>)
    ensures
        email_part(Seq::<(String, bool)>::empty(), kind),
{
}

/// La taxonomie est fermée : tout type désactivable est un type connu.
pub proof fn desactivables_inclus_dans_les_types(kind: Seq<char>)
    ensures
        desactivable(kind) ==> type_connu(kind),
{
}

/// Les cinq réglages de l'écran de préférences, tels que l'e-mail part.
pub open spec fn reglages_affiches(drapeaux: Seq<(String, bool)>, r: EmailPrefsResponse) -> bool {
    &&& r.proposition_recue == email_part(drapeaux, "proposition_recue"@)
    &&& r.proposition_cloturee == email_part(drapeaux, "proposition_cloturee"@)
    &&& r.message_recu == email_part(drapeaux, "message_recu"@)
    &&& r.evaluation == email_part(drapeaux, "evaluation"@)
    &&& r.favori == email_part(drapeaux, "favori"@)
}

/// Ce que l'écran de préférences affiche pour des préférences enregistrées.
pub fn preferences_affichees(prefs: &EmailPrefs) -> (r: EmailPrefsResponse)
    ensures
        reglages_affiches(prefs.drapeaux@, r),
{
    EmailPrefsResponse {
        proposition_recue: email_active(prefs, "proposition_recue"),
        proposition_cloturee: email_active(prefs, "proposition_cloturee"),
        message_recu: email_active(prefs, "message_recu"),
        evaluation: email_active(prefs, "evaluation"),
        favori: email_active(prefs, "favori"),
    }
}

/// Les préférences enregistrées depuis l'écran : une entrée par type
/// désactivable, dans l'ordre de l'écran.
pub open spec fn enregistrement(d: Seq<(String, bool)>, r: EmailPrefsResponse) -> bool {
    &&& d.len() == 5
    &&& d[0].0@ == "proposition_recue"@ && d[0].1 == r.proposition_recue
    &&& d[1].0@ == "proposition_cloturee"@ && d[1].1 == r.proposition_cloturee
    &&& d[2].0@ == "message_recu"@ && d[2].1 == r.message_recu
    &&& d[3].0@ == "evaluation"@ && d[3].1 == r.evaluation
    &&& d[4].0@ == "favori"@ && d[4].1 == r.favori
}

pub fn preferences_enregistrees(r: &EmailPrefsResponse) -> (prefs: EmailPrefs)
    ensures
        enregistrement(prefs.drapeaux@, *r),
{
    let mut drapeaux: Vec<(String, bool)> = Vec::new();
    drapeaux.push(("proposition_recue".to_owned(), r.proposition_recue));
    drapeaux.push(("proposition_cloturee".to_owned(), r.proposition_cloturee));
    drapeaux.push(("message_recu".to_owned(), r.message_recu));
    drapeaux.push(("evaluation".to_owned(), r.evaluation));
    drapeaux.push(("favori".to_owned(), r.favori));
    EmailPrefs { drapeaux }
}

/// Une entrée dont la clé n'apparaît pas plus haut donne le réglage de ce type.
proof fn reglage_de_l_entree(d: Seq<(String, bool)>, i: int)
    requires
        0 <= i < d.len(),
        forall|j: int| 0 <= j < i ==> (#[trigger] d[j]).0@ != d[i].0@,
    ensures
        reglage(d, d[i].0@) == Some(d[i].1),
{
    assert(premiere_entree(d, d[i].0@, i));
    let k = choose|k: int| premiere_entree(d, d[i].0@, k);
    if k < i {
        assert(d[k].0@ != d[i].0@);
    } else if k > i {
        assert(d[i].0@ != d[i].0@);
    }
}

/// Ce qu'on enregistre est ce qu'on relit : l'écran affiche, après
/// enregistrement, exactement les réglages envoyés.
pub proof fn preferences_relues(d: Seq<(String, bool)>, r: EmailPrefsResponse, affiche: EmailPrefsResponse)
    requires
        enregistrement(d, r),
        reglages_affiches(d, affiche),
    ensures
        affiche == r,
{
    reveal_strlit("proposition_recue");
    reveal_strlit("proposition_cloturee");
    reveal_strlit("message_recu");
    reveal_strlit("evaluation");
    reveal_strlit("favori");
    assert forall|i: int, j: int| 0 <= j < i < 5 implies (#[trigger] d[j]).0@ != (#[trigger] d[i]).0@ by {
        assert(d[j].0@.len() != d[i].0@.len());
    }
    reglage_de_l_entree(d, 0);
    reglage_de_l_entree(d, 1);
    reglage_de_l_entree(d, 2);
    reglage_de_l_entree(d, 3);
    reglage_de_l_entree(d, 4);
}

/// Sans préférences lisibles, l'e-mail part (on ne coupe jamais par erreur).
pub fn email_permis(prefs: Option<&EmailPrefs>, kind: &str) -> (r: bool)
    ensures
        r == (match prefs {
            Some(p) => email_part(p.drapeaux@, kind@),
            None => true,
        }),
{
    match prefs {
        Some(p) => email_active(p, kind),
        None => true,
    }
}

/// La notification d'un favori qui change d'état : titre, corps et lien.
pub struct TextesFavori {
    pub titre: String,
    pub corps: String,
    pub lien: String,
}

pub open spec fn textes_favori_attendus(reserve: bool, titre_objet: Seq<char>, objet_id: u128, t: TextesFavori) -> bool {
    &&& t.titre@ == (if reserve { "Ton favori vient d'être réservé"@ } else { "Ton favori est de nouveau disponible !"@ })
    &&& t.corps@ == (if reserve {
        "« "@ + titre_objet + " » est en cours de troc. Il peut revenir !"@
    } else {
        "« "@ + titre_objet + " » est reparti dans le fil."@
    })
    &&& t.lien@ == "/objet/"@ + forme_uuid(objet_id) + "?source=favori"@
}

/// Prévenir un membre qu'un objet de ses favoris est réservé, ou de nouveau
/// disponible.
pub fn textes_favori(reserve: bool, titre_objet: &str, objet_id: u128) -> (t: TextesFavori)
    ensures
        textes_favori_attendus(reserve, titre_objet@, objet_id, t),
{
    let a = concatener("« ", titre_objet);
    let (titre, corps) = if reserve {
        ("Ton favori vient d'être réservé".to_owned(), concatener(a.as_str(), " » est en cours de troc. Il peut revenir !"))
    } else {
        ("Ton favori est de nouveau disponible !".to_owned(), concatener(a.as_str(), " » est reparti dans le fil."))
    };
    let id = texte_uuid(objet_id);
    let b = concatener("/objet/", id.as_str());
    let lien = concatener(b.as_str(), "?source=favori");
    TextesFavori { titre, corps, lien }
}

} // verus!

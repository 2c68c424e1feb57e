//! Règles de l'envoi croisé : formats forfaitaires, machine à états par
//! colis, fenêtre de confirmation après retrait, échéances de dépôt.

use vstd::prelude::*;
use crate::texte::meme_texte;

verus! {

/// Formats de colis : (code, plafond en kg, transport en centimes).
pub const FORMATS: [(&'static str, u32, i32); 3] = [("s", 1, 450), ("m", 3, 690), ("l", 10, 990)];

/// Frais de service Lebontroc par colis, en centimes (ligne séparée).
pub const SERVICE_CENTS: i32 = 200;

/// Transport d'un format connu, en centimes.
pub open spec fn transport_de(format: Seq<char>) -> Option<i32> {
    if format == "s"@ {
        Some(450)
    } else if format == "m"@ {
        Some(690)
    } else if format == "l"@ {
        Some(990)
    } else {
        None
    }
}

/// Le transport d'un format, si le format existe.
pub fn transport_cents(format: &str) -> (r: Option<i32>)
    ensures
        r == transport_de(format@),
{
    if meme_texte(format, "s") {
        Some(450)
    } else if meme_texte(format, "m") {
        Some(690)
    } else if meme_texte(format, "l") {
        Some(990)
    } else {
        None
    }
}

/// Ce qu'une partie paie en mode envoi : le transport de SON colis, les
/// frais de service, et sa soulte éventuelle.
pub fn montant_payeur_cents(transport_cents: i32, soulte_cents: i32) -> (r: i32)
    requires
        i32::MIN <= transport_cents + SERVICE_CENTS + soulte_cents <= i32::MAX,
        i32::MIN <= transport_cents + SERVICE_CENTS <= i32::MAX,
    ensures
        r == transport_cents + SERVICE_CENTS + soulte_cents,
{
    transport_cents + SERVICE_CENTS + soulte_cents
}

/// Statuts d'un colis.
pub const STATUTS_COLIS: [&'static str; 9] = [
    "preparation",
    "etiquette",
    "depose",
    "transit",
    "arrive",
    "retire",
    "confirme",
    "incident",
    "annule",
];

/// Rang d'un statut dans la progression nominale.
pub open spec fn rang(statut: Seq<char>) -> Option<u8> {
    if statut == "preparation"@ {
        Some(0)
    } else if statut == "etiquette"@ {
        Some(1)
    } else if statut == "depose"@ {
        Some(2)
    } else if statut == "transit"@ {
        Some(3)
    } else if statut == "arrive"@ {
        Some(4)
    } else if statut == "retire"@ {
        Some(5)
    } else if statut == "confirme"@ {
        Some(6)
    } else {
        None
    }
}

/// Avancée légitime : les deux statuts sont sur le parcours nominal et le
/// second est strictement plus loin.
pub open spec fn avancee(depuis: Seq<char>, vers: Seq<char>) -> bool {
    match (rang(depuis), rang(vers)) {
        (Some(d), Some(v)) => v > d,
        _ => false,
    }
}

/// Rang d'un statut dans la progression nominale (`None` pour les
/// terminaux hors parcours). Sert à ignorer les régressions : un webhook
/// en retard ne fait jamais reculer un colis.
pub fn rang_statut(statut: &str) -> (r: Option<u8>)
    ensures
        r == rang(statut@),
{
    if meme_texte(statut, "preparation") {
        Some(0)
    } else if meme_texte(statut, "etiquette") {
        Some(1)
    } else if meme_texte(statut, "depose") {
        Some(2)
    } else if meme_texte(statut, "transit") {
        Some(3)
    } else if meme_texte(statut, "arrive") {
        Some(4)
    } else if meme_texte(statut, "retire") {
        Some(5)
    } else if meme_texte(statut, "confirme") {
        Some(6)
    } else {
        None
    }
}

/// Une transition de suivi est-elle une avancée légitime ?
pub fn peut_avancer(depuis: &str, vers: &str) -> (r: bool)
    ensures
        r == avancee(depuis@, vers@),
{
    match (rang_statut(depuis), rang_statut(vers)) {
        (Some(d), Some(v)) => v > d,
        _ => false,
    }
}

/// Fenêtre de signalement après le retrait en relais.
pub const CONFIRMATION_HEURES: i64 = 72;

/// Rappels de dépôt (jours après l'acceptation) puis échec.
pub const RAPPEL_DEPOT_JOURS: [i64; 2] = [2, 4];
/// Non-dépôt à J+5 : le troc échoue (annulation ou litige gelé).
pub const ECHEC_DEPOT_JOURS: i64 = 5;
/// Filet de sécurité : un troc envoi encore ouvert à J+21 est gelé.
pub const GEL_TROC_ENVOI_JOURS: i64 = 21;

/// Statut du troc dérivé des deux colis.
pub open spec fn statut_derive(aller: Seq<char>, retour: Seq<char>) -> Option<Seq<char>> {
    if aller == "incident"@ || retour == "incident"@ {
        Some("litige_gele"@)
    } else if aller == "confirme"@ && retour == "confirme"@ {
        Some("finalise"@)
    } else {
        None
    }
}

/// Statut du troc dérivé des deux colis (fonction pure, jamais stockée en
/// doublon) : `Some("finalise")` quand les deux sont confirmés,
/// `Some("litige_gele")` dès qu'un incident est signalé, `None` sinon.
pub fn statut_troc_derive(colis_aller: &str, colis_retour: &str) -> (r: Option<&'static str>)
    ensures
        match r {
            Some(s) => statut_derive(colis_aller@, colis_retour@) == Some(s@),
            None => statut_derive(colis_aller@, colis_retour@) is None,
        },
{
    if meme_texte(colis_aller, "incident") || meme_texte(colis_retour, "incident") {
        Some("litige_gele")
    } else if meme_texte(colis_aller, "confirme") && meme_texte(colis_retour, "confirme") {
        Some("finalise")
    } else {
        None
    }
}

/// Le suivi est un ordre strict : on n'avance jamais vers soi-même, jamais
/// dans les deux sens, et deux avancées s'enchaînent en une avancée.
pub proof fn le_suivi_ne_recule_jamais(a: Seq<char>, b: Seq<char>, c: Seq<char>)
    ensures
        !avancee(a, a),
        avancee(a, b) ==> !avancee(b, a),
        avancee(a, b) && avancee(b, c) ==> avancee(a, c),
{
}

/// Le parcours nominal d'un colis, dans l'ordre.
pub open spec fn parcours_nominal() -> Seq<Seq<char>> {
    seq!["preparation"@, "etiquette"@, "depose"@, "transit"@, "arrive"@, "retire"@, "confirme"@]
}

/// Le suivi avance le long du parcours nominal : chaque étape peut passer à
/// toute étape plus loin (du transit à l'arrivée en relais, par exemple) et
/// jamais à une étape antérieure ni à elle-même. Ce parcours est celui des
/// sept premiers statuts de `STATUTS_COLIS`.
pub proof fn parcours_dans_l_ordre()
    ensures
        forall|i: int, j: int| 0 <= i < j < 7 ==> #[trigger] avancee(parcours_nominal()[i], parcours_nominal()[j]),
        forall|i: int, j: int| 0 <= j <= i < 7 ==> !#[trigger] avancee(parcours_nominal()[i], parcours_nominal()[j]),
        avancee("transit"@, "arrive"@),
        avancee("arrive"@, "retire"@),
        avancee("depose"@, "transit"@),
        forall|i: int| 0 <= i < 7 ==> #[trigger] parcours_nominal()[i] == STATUTS_COLIS@[i]@,
{
    reveal_strlit("preparation");
    reveal_strlit("etiquette");
    reveal_strlit("depose");
    reveal_strlit("transit");
    reveal_strlit("arrive");
    reveal_strlit("retire");
    reveal_strlit("confirme");
    let p = parcours_nominal();
    assert(p[0][0] == 'p');
    assert(p[1][0] == 'e');
    assert(p[2][0] == 'd');
    assert(p[3][0] == 't');
    assert(p[4][0] == 'a');
    assert(p[5][0] == 'r');
    assert(p[6][0] == 'c');
    assert(rang(p[0]) == Some(0u8));
    assert(p[1] != p[0]) by { assert(p[1][0] != p[0][0]); }
    assert(rang(p[1]) == Some(1u8));
    assert(p[2] != p[0]) by { assert(p[2][0] != p[0][0]); }
    assert(p[2] != p[1]) by { assert(p[2][0] != p[1][0]); }
    assert(rang(p[2]) == Some(2u8));
    assert(p[3] != p[0]) by { assert(p[3][0] != p[0][0]); }
    assert(p[3] != p[1]) by { assert(p[3][0] != p[1][0]); }
    assert(p[3] != p[2]) by { assert(p[3][0] != p[2][0]); }
    assert(rang(p[3]) == Some(3u8));
    assert(p[4] != p[0]) by { assert(p[4][0] != p[0][0]); }
    assert(p[4] != p[1]) by { assert(p[4][0] != p[1][0]); }
    assert(p[4] != p[2]) by { assert(p[4][0] != p[2][0]); }
    assert(p[4] != p[3]) by { assert(p[4][0] != p[3][0]); }
    assert(rang(p[4]) == Some(4u8));
    assert(p[5] != p[0]) by { assert(p[5][0] != p[0][0]); }
    assert(p[5] != p[1]) by { assert(p[5][0] != p[1][0]); }
    assert(p[5] != p[2]) by { assert(p[5][0] != p[2][0]); }
    assert(p[5] != p[3]) by { assert(p[5][0] != p[3][0]); }
    assert(p[5] != p[4]) by { assert(p[5][0] != p[4][0]); }
    assert(rang(p[5]) == Some(5u8));
    assert(p[6] != p[0]) by { assert(p[6][0] != p[0][0]); }
    assert(p[6] != p[1]) by { assert(p[6][0] != p[1][0]); }
    assert(p[6] != p[2]) by { assert(p[6][0] != p[2][0]); }
    assert(p[6] != p[3]) by { assert(p[6][0] != p[3][0]); }
    assert(p[6] != p[4]) by { assert(p[6][0] != p[4][0]); }
    assert(p[6] != p[5]) by { assert(p[6][0] != p[5][0]); }
    assert(rang(p[6]) == Some(6u8));
    assert forall|i: int| 0 <= i < 7 implies #[trigger] rang(p[i]) == Some(i as u8) by {}
}

/// Les statuts hors parcours (`incident`, `annule`, tout statut inconnu) ne
/// s'atteignent ni ne se quittent par le suivi.
pub proof fn hors_parcours_immobile(a: Seq<char>, b: Seq<char>)
    requires
        rang(a) is None,
    ensures
        !avancee(a, b),
        !avancee(b, a),
{
}

/// Le statut dérivé ne dépend pas de l'ordre des colis.
pub proof fn statut_derive_symetrique(aller: Seq<char>, retour: Seq<char>)
    ensures
        statut_derive(aller, retour) == statut_derive(retour, aller),
{
}

} // verus!

//! Règles des signalements, litiges et du score de fiabilité.
//!
//! Les instants sont des horodatages en nanosecondes depuis l'époque Unix.

use vstd::prelude::*;
use crate::texte::{meme_texte, rogne, rogner};

verus! {

pub const DESCRIPTION_MAX: usize = 1000;
pub const PIECES_MAX: usize = 5;
/// L'autre partie a 72 h pour verser ses pièces au dossier.
pub const REPONSE_HEURES: i64 = 72;
/// Litige possible jusqu'à 48 h après une remise en main propre — la
/// capture des règlements main propre attend donc ce délai.
pub const FENETRE_MAIN_PROPRE_HEURES: i64 = 48;
/// No-show déclarable à partir de J+3 après l'acceptation.
pub const NO_SHOW_JOURS: i64 = 3;

/// Nanosecondes dans une heure.
pub const NANOS_PAR_HEURE: i128 = 3_600_000_000_000;

/// Motifs de litige de troc.
pub const MOTIFS_LITIGE: [&'static str; 5] = [
    "non_conforme",
    "abime",
    "manquant",
    "contrefacon",
    "jamais_venu",
];

/// Motifs de signalement selon la cible.
pub open spec fn motifs_pour(target_type: Seq<char>) -> Option<Seq<Seq<char>>> {
    if target_type == "objet"@ {
        Some(seq![
            "contrefacon"@,
            "interdit_vente"@,
            "annonce_trompeuse"@,
            "contenu_inapproprie"@,
            "spam_doublon"@,
        ])
    } else if target_type == "utilisateur"@ {
        Some(seq![
            "arnaque_suspectee"@,
            "comportement_inapproprie"@,
            "contournement_plateforme"@,
            "usurpation_faux_profil"@,
            "autre"@,
        ])
    } else if target_type == "message"@ {
        Some(seq![
            "harcelement_insultes"@,
            "tentative_arnaque"@,
            "contournement_masquage"@,
            "contenu_inapproprie"@,
        ])
    } else {
        None
    }
}

/// Les vues des textes d'une liste.
pub open spec fn vues(textes: Seq<&str>) -> Seq<Seq<char>> {
    textes.map_values(|t: &str| t@)
}

/// Motifs de signalement par cible.
pub fn motifs_signalement(target_type: &str) -> (r: Option<&'static [&'static str]>)
    ensures
        match r {
            Some(m) => motifs_pour(target_type@) == Some(vues(m@)),
            None => motifs_pour(target_type@) is None,
        },
{
    if meme_texte(target_type, "objet") {
        let m: &'static [&'static str] = &[
            "contrefacon",
            "interdit_vente",
            "annonce_trompeuse",
            "contenu_inapproprie",
            "spam_doublon",
        ];
        assert(vues(m@) =~= motifs_pour(target_type@).unwrap());
        Some(m)
    } else if meme_texte(target_type, "utilisateur") {
        let m: &'static [&'static str] = &[
            "arnaque_suspectee",
            "comportement_inapproprie",
            "contournement_plateforme",
            "usurpation_faux_profil",
            "autre",
        ];
        assert(vues(m@) =~= motifs_pour(target_type@).unwrap());
        Some(m)
    } else if meme_texte(target_type, "message") {
        let m: &'static [&'static str] = &[
            "harcelement_insultes",
            "tentative_arnaque",
            "contournement_masquage",
            "contenu_inapproprie",
        ];
        assert(vues(m@) =~= motifs_pour(target_type@).unwrap());
        Some(m)
    } else {
        None
    }
}

#[derive(Debug, Clone, Copy, PartialEq, Eq)]
pub enum DisputeError {
    MotifInconnu,
    DescriptionInvalide,
    TropDePieces,
    /// Hors fenêtre : trop tôt (no-show < J+3) ou trop tard (> 48 h
    /// post-remise, colis déjà confirmé…).
    HorsFenetre,
}

/// Motif de litige connu.
pub open spec fn motif_litige(reason: Seq<char>) -> bool {
    ||| reason == "non_conforme"@
    ||| reason == "abime"@
    ||| reason == "manquant"@
    ||| reason == "contrefacon"@
    ||| reason == "jamais_venu"@
}

/// Réponse de la validation d'ouverture : motif, description rognée non vide
/// d'au plus 1000 caractères, au plus 5 pièces.
pub open spec fn regle_ouverture(reason: Seq<char>, description: Seq<char>, pieces: nat) -> Result<(), DisputeError> {
    if !motif_litige(reason) {
        Err(DisputeError::MotifInconnu)
    } else if rogne(description).len() == 0 || rogne(description).len() > DESCRIPTION_MAX {
        Err(DisputeError::DescriptionInvalide)
    } else if pieces > PIECES_MAX {
        Err(DisputeError::TropDePieces)
    } else {
        Ok(())
    }
}

pub fn valider_ouverture(reason: &str, description: &str, pieces: usize) -> (r: Result<(), DisputeError>)
    ensures
        r == regle_ouverture(reason@, description@, pieces as nat),
{
    if !(meme_texte(reason, "non_conforme") || meme_texte(reason, "abime") || meme_texte(reason, "manquant")
        || meme_texte(reason, "contrefacon") || meme_texte(reason, "jamais_venu"))
    {
        return Err(DisputeError::MotifInconnu);
    }
    let longueur = rogner(description).unicode_len();
    if longueur == 0 || longueur > DESCRIPTION_MAX {
        return Err(DisputeError::DescriptionInvalide);
    }
    if pieces > PIECES_MAX {
        return Err(DisputeError::TropDePieces);
    }
    Ok(())
}

/// La fenêtre d'ouverture d'un dossier selon le mode et l'état du troc.
pub open spec fn fenetre_ouverte(
    reason: Seq<char>,
    delivery_mode: Seq<char>,
    trade_status: Seq<char>,
    accepted_at: int,
    finalized_at: Option<i128>,
    incoming_receivable: bool,
    now: int,
) -> bool {
    if delivery_mode == "envoi"@ && trade_status == "accepte"@ {
        reason != "jamais_venu"@ && incoming_receivable
    } else if delivery_mode == "main_propre"@ && trade_status == "accepte"@ {
        reason == "jamais_venu"@ && now >= accepted_at + NO_SHOW_JOURS * 24 * NANOS_PAR_HEURE
    } else if delivery_mode == "main_propre"@ && trade_status == "finalise"@ {
        reason != "jamais_venu"@ && match finalized_at {
            Some(f) => now < f + FENETRE_MAIN_PROPRE_HEURES * NANOS_PAR_HEURE,
            None => false,
        }
    } else {
        false
    }
}

/// `instant + delai` est-il atteint à `now` ? Exact, sans débordement.
fn atteint(instant: i128, delai: i128, now: i128) -> (r: bool)
    requires
        delai >= 0,
    ensures
        r == (now >= instant + delai),
{
    if instant > i128::MAX - delai {
        false
    } else {
        now >= instant + delai
    }
}

/// Fenêtre d'ouverture selon le mode et l'état du troc.
///
/// - envoi, troc `accepte` : dès qu'un colis est arrivé, tant que le
///   destinataire n'a pas confirmé ;
/// - main propre, troc `accepte` : `jamais_venu` seulement, à J+3 ;
/// - main propre, troc `finalise` : vice découvert sous 48 h.
pub fn fenetre_ouverture(
    reason: &str,
    delivery_mode: &str,
    trade_status: &str,
    accepted_at: i128,
    finalized_at: Option<i128>,
    incoming_receivable: bool,
    now: i128,
) -> (r: Result<(), DisputeError>)
    ensures
        r is Ok <==> fenetre_ouverte(
            reason@,
            delivery_mode@,
            trade_status@,
            accepted_at as int,
            finalized_at,
            incoming_receivable,
            now as int,
        ),
        r matches Err(e) ==> e == DisputeError::HorsFenetre,
{
    let envoi = meme_texte(delivery_mode, "envoi");
    let main_propre = meme_texte(delivery_mode, "main_propre");
    let accepte = meme_texte(trade_status, "accepte");
    let finalise = meme_texte(trade_status, "finalise");
    let no_show = meme_texte(reason, "jamais_venu");
    let ok = if envoi && accepte {
        !no_show && incoming_receivable
    } else if main_propre && accepte {
        no_show && atteint(accepted_at, 3 * 24 * NANOS_PAR_HEURE, now)
    } else if main_propre && finalise {
        !no_show && match finalized_at {
            Some(f) => !atteint(f, 48 * NANOS_PAR_HEURE, now),
            None => false,
        }
    } else {
        false
    };
    if ok {
        Ok(())
    } else {
        Err(DisputeError::HorsFenetre)
    }
}

/// La capture d'un règlement main propre attend la fin de la fenêtre.
pub fn capture_main_propre_due(finalized_at: i128, now: i128) -> (r: bool)
    ensures
        r == (now >= finalized_at + FENETRE_MAIN_PROPRE_HEURES * NANOS_PAR_HEURE),
{
    atteint(finalized_at, 48 * NANOS_PAR_HEURE, now)
}

/// Points d'un événement négatif.
pub open spec fn points_de(event_type: Seq<char>) -> i32 {
    if event_type == "contrefacon_averee"@ {
        15
    } else if event_type == "litige_perdu"@ {
        6
    } else if event_type == "non_depot"@ {
        5
    } else if event_type == "no_show_confirme"@ {
        4
    } else if event_type == "litige_abusif"@ {
        2
    } else if event_type == "signalement_fonde"@ {
        2
    } else {
        0
    }
}

/// Points par événement négatif du journal `dispute_events`.
pub fn points(event_type: &str) -> (r: i32)
    ensures
        r == points_de(event_type@),
{
    if meme_texte(event_type, "contrefacon_averee") {
        15
    } else if meme_texte(event_type, "litige_perdu") {
        6
    } else if meme_texte(event_type, "non_depot") {
        5
    } else if meme_texte(event_type, "no_show_confirme") {
        4
    } else if meme_texte(event_type, "litige_abusif") {
        2
    } else if meme_texte(event_type, "signalement_fonde") {
        2
    } else {
        0
    }
}

pub const SEUIL_AVERTISSEMENT: i32 = 5;
pub const SEUIL_RESTRICTION: i32 = 10;
pub const SEUIL_BANNISSEMENT: i32 = 15;
/// Durée d'une restriction (plus de nouvelles propositions).
pub const RESTRICTION_JOURS: i64 = 30;

/// Sanction automatique atteinte pour un score donné.
#[derive(Debug, Clone, Copy, PartialEq, Eq)]
pub enum Sanction {
    Aucune,
    Avertissement,
    Restriction,
    Bannissement,
}

/// Gravité d'une sanction, de 0 (aucune) à 3 (bannissement).
pub open spec fn gravite(s: Sanction) -> int {
    match s {
        Sanction::Aucune => 0,
        Sanction::Avertissement => 1,
        Sanction::Restriction => 2,
        Sanction::Bannissement => 3,
    }
}

/// La sanction due pour un score.
pub open spec fn sanction_due(score: int) -> Sanction {
    if score >= SEUIL_BANNISSEMENT {
        Sanction::Bannissement
    } else if score >= SEUIL_RESTRICTION {
        Sanction::Restriction
    } else if score >= SEUIL_AVERTISSEMENT {
        Sanction::Avertissement
    } else {
        Sanction::Aucune
    }
}

pub fn sanction_pour_score(score: i32) -> (r: Sanction)
    ensures
        r == sanction_due(score as int),
{
    if score >= SEUIL_BANNISSEMENT {
        Sanction::Bannissement
    } else if score >= SEUIL_RESTRICTION {
        Sanction::Restriction
    } else if score >= SEUIL_AVERTISSEMENT {
        Sanction::Avertissement
    } else {
        Sanction::Aucune
    }
}

/// Un score plus élevé n'allège jamais la sanction.
pub proof fn sanction_croissante(a: int, b: int)
    requires
        a <= b,
    ensures
        gravite(sanction_due(a)) <= gravite(sanction_due(b)),
{
}

/// Aucun événement ne fait baisser le score : les points sont positifs ou nuls,
/// et un seul événement « contrefaçon avérée » suffit au bannissement.
pub proof fn points_positifs(event_type: Seq<char>)
    ensures
        0 <= points_de(event_type) <= SEUIL_BANNISSEMENT,
        points_de("contrefacon_averee"@) >= SEUIL_BANNISSEMENT,
{
}

/// Main propre, après la remise : la capture devient due exactement quand la
/// fenêtre de litige (48 h) se ferme — jamais de capture pendant la fenêtre,
/// jamais de fenêtre après la capture.
pub proof fn capture_apres_la_fenetre(
    reason: Seq<char>,
    accepted_at: int,
    finalized_at: i128,
    now: int,
)
    requires
        reason != "jamais_venu"@,
    ensures
        fenetre_ouverte(reason, "main_propre"@, "finalise"@, accepted_at, Some(finalized_at), false, now)
            <==> !(now >= finalized_at + FENETRE_MAIN_PROPRE_HEURES * NANOS_PAR_HEURE),
{
    reveal_strlit("main_propre");
    reveal_strlit("envoi");
    reveal_strlit("finalise");
    reveal_strlit("accepte");
    assert("main_propre"@.len() != "envoi"@.len());
    assert("finalise"@.len() != "accepte"@.len());
}

/// Le no-show n'est déclarable qu'en main propre, troc accepté, et jamais
/// avant J+3 après l'acceptation.
pub proof fn no_show_a_partir_de_j3(
    delivery_mode: Seq<char>,
    trade_status: Seq<char>,
    accepted_at: int,
    finalized_at: Option<i128>,
    incoming_receivable: bool,
    now: int,
)
    requires
        fenetre_ouverte("jamais_venu"@, delivery_mode, trade_status, accepted_at, finalized_at, incoming_receivable, now),
    ensures
        delivery_mode == "main_propre"@,
        trade_status == "accepte"@,
        now >= accepted_at + NO_SHOW_JOURS * 24 * NANOS_PAR_HEURE,
{
}

} // verus!

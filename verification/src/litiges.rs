//! Décisions des dossiers de litige et des signalements : ouverture,
//! réponse contradictoire, arbitrage, sanctions automatiques.

use vstd::prelude::*;
use crate::dispute::{self, motifs_pour, vues, Sanction, DESCRIPTION_MAX, PIECES_MAX};
use crate::erreurs::{est_erreur, ApiError, GenreErreur};
use crate::texte::{caracteres, concatener, meme_texte, rogne, rogner};

verus! {

// ————— Ouverture d'un dossier —————

/// Un colis du troc, tel que la base le renvoie.
#[derive(Debug, PartialEq, Eq)]
pub struct ColisResume {
    pub id: u128,
    pub sender_id: u128,
    pub recipient_id: u128,
    pub status: String,
}

/// Le colis reçu par le lecteur et encore contestable (arrivé ou retiré).
pub open spec fn contestable(c: ColisResume, user_id: u128) -> bool {
    c.recipient_id == user_id && (c.status@ == "arrive"@ || c.status@ == "retire"@)
}

/// Le premier colis contestable du lecteur, s'il y en a un.
pub open spec fn premier_contestable(colis: Seq<ColisResume>, user_id: u128, k: int) -> bool {
    &&& 0 <= k < colis.len()
    &&& contestable(colis[k], user_id)
    &&& forall|j: int| 0 <= j < k ==> !contestable(#[trigger] colis[j], user_id)
}

/// En mode envoi, le dossier s'adosse au colis entrant encore contestable.
pub fn colis_contestable(colis: &Vec<ColisResume>, user_id: u128) -> (r: Option<usize>)
    ensures
        match r {
            Some(k) => premier_contestable(colis@, user_id, k as int),
            None => forall|j: int| 0 <= j < colis@.len() ==> !contestable(#[trigger] colis@[j], user_id),
        },
        r matches Some(k) ==> colis@[k as int].recipient_id == user_id
            && (colis@[k as int].status@ == "arrive"@ || colis@[k as int].status@ == "retire"@),
        r is None ==> forall|j: int| 0 <= j < colis@.len() && (#[trigger] colis@[j]).recipient_id == user_id
            ==> colis@[j].status@ != "arrive"@ && colis@[j].status@ != "retire"@,
{
    let mut i: usize = 0;
    while i < colis.len()
        invariant
            i <= colis@.len(),
            forall|j: int| 0 <= j < i ==> !contestable(#[trigger] colis@[j], user_id),
        decreases colis.len() - i,
    {
        let s = colis[i].status.as_str();
        if colis[i].recipient_id == user_id && (meme_texte(s, "arrive") || meme_texte(s, "retire")) {
            return Some(i);
        }
        i = i + 1;
    }
    None
}

/// Un colis adressé au lecteur est contestable dès qu'il est arrivé en
/// relais, et encore une fois retiré ; aucun autre ne l'est. Un colis
/// arrivé ou retiré parmi ceux du troc rend donc la recherche fructueuse.
pub proof fn colis_arrive_contestable(colis: Seq<ColisResume>, user_id: u128, k: int)
    requires
        0 <= k < colis.len(),
    ensures
        contestable(colis[k], user_id) <==> (colis[k].recipient_id == user_id
            && (colis[k].status@ == "arrive"@ || colis[k].status@ == "retire"@)),
        (colis[k].recipient_id == user_id && colis[k].status@ == "arrive"@) ==> contestable(colis[k], user_id),
        (colis[k].recipient_id == user_id && colis[k].status@ == "retire"@) ==> contestable(colis[k], user_id),
        (colis[k].recipient_id == user_id && (colis[k].status@ == "arrive"@ || colis[k].status@ == "retire"@))
            ==> exists|j: int| 0 <= j <= k && premier_contestable(colis, user_id, j),
    decreases k,
{
    if colis[k].recipient_id == user_id && (colis[k].status@ == "arrive"@ || colis[k].status@ == "retire"@) {
        if forall|j: int| 0 <= j < k ==> !contestable(#[trigger] colis[j], user_id) {
            assert(premier_contestable(colis, user_id, k));
        } else {
            let j = choose|j: int| 0 <= j < k && contestable(#[trigger] colis[j], user_id);
            colis_arrive_contestable(colis, user_id, j);
        }
    }
}

/// Ce que l'ouverture d'un dossier fait au troc.
#[derive(Debug, Clone, Copy, PartialEq, Eq)]
pub enum EffetOuverture {
    /// Troc déjà finalisé : seule la capture est suspendue par le dossier.
    Aucun,
    /// Troc en cours, envoi : le colis contesté passe en incident.
    SignalerColis,
    /// Troc en cours sans colis contesté : le troc est gelé.
    GelerTroc,
}

pub open spec fn effet(trade_status: Seq<char>, colis_conteste: bool) -> EffetOuverture {
    if trade_status == "accepte"@ {
        if colis_conteste {
            EffetOuverture::SignalerColis
        } else {
            EffetOuverture::GelerTroc
        }
    } else {
        EffetOuverture::Aucun
    }
}

/// Troc en cours → gel (capture et auto-confirmation suspendues) ; en mode
/// envoi, le colis contesté passe en incident.
pub fn effet_ouverture(trade_status: &str, colis_conteste: bool) -> (r: EffetOuverture)
    ensures
        r == effet(trade_status@, colis_conteste),
{
    if meme_texte(trade_status, "accepte") {
        if colis_conteste {
            EffetOuverture::SignalerColis
        } else {
            EffetOuverture::GelerTroc
        }
    } else {
        EffetOuverture::Aucun
    }
}

/// `k` commence par `prefixe`.
pub open spec fn commence_par(k: Seq<char>, prefixe: Seq<char>) -> bool {
    k.len() >= prefixe.len() && k.take(prefixe.len() as int) == prefixe
}

fn commence_par_exec(k: &str, prefixe: &str) -> (r: bool)
    ensures
        r == commence_par(k@, prefixe@),
{
    let vk = caracteres(k);
    let vp = caracteres(prefixe);
    if vk.len() < vp.len() {
        return false;
    }
    let mut i: usize = 0;
    while i < vp.len()
        invariant
            vk@ == k@,
            vp@ == prefixe@,
            vk@.len() >= vp@.len(),
            i <= vp@.len(),
            forall|j: int| 0 <= j < i ==> vk@[j] == vp@[j],
        decreases vp.len() - i,
    {
        if vk[i] != vp[i] {
            assert(k@.take(prefixe@.len() as int)[i as int] != prefixe@[i as int]);
            return false;
        }
        i = i + 1;
    }
    assert(k@.take(prefixe@.len() as int) =~= prefixe@);
    true
}

/// Indices des clés retenues : parmi les cinq premières, celles du dossier.
pub open spec fn retenue(keys: Seq<String>, i: int) -> bool {
    i < PIECES_MAX && commence_par(keys[i]@, "litiges/"@)
}

/// Les clés de pièces à vérifier dans le stockage : parmi les cinq
/// premières, celles qui appartiennent aux dossiers (`litiges/…`).
pub fn cles_de_pieces(keys: &Vec<String>) -> (r: Vec<usize>)
    ensures
        forall|j: int| 0 <= j < r@.len() ==> (#[trigger] r@[j]) < keys@.len() && retenue(keys@, r@[j] as int),
        forall|i: int| 0 <= i < keys@.len() && retenue(keys@, i) ==> r@.contains(i as usize),
        forall|a: int, b: int| 0 <= a < b < r@.len() ==> r@[a] < r@[b],
{
    let mut r: Vec<usize> = Vec::new();
    let mut i: usize = 0;
    while i < keys.len() && i < PIECES_MAX
        invariant
            i <= keys@.len(),
            i <= PIECES_MAX,
            forall|j: int| 0 <= j < r@.len() ==> (#[trigger] r@[j]) < i && retenue(keys@, r@[j] as int),
            forall|x: int| 0 <= x < i && retenue(keys@, x) ==> r@.contains(x as usize),
            forall|a: int, b: int| 0 <= a < b < r@.len() ==> r@[a] < r@[b],
        decreases keys.len() - i,
    {
        let ghost avant = r@;
        let garde = commence_par_exec(keys[i].as_str(), "litiges/");
        if garde {
            r.push(i);
            assert(r@[r@.len() - 1] == i);
        }
        assert forall|x: int| 0 <= x < i + 1 && retenue(keys@, x) implies r@.contains(x as usize) by {
            if x < i {
                let k = choose|k: int| 0 <= k < avant.len() && avant[k] == x as usize;
                assert(r@[k] == x as usize);
            } else {
                assert(r@[r@.len() - 1] == i);
            }
        }
        i = i + 1;
    }
    r
}

// ————— Réponse contradictoire —————

/// Pourquoi une réponse au dossier est refusée.
#[derive(Debug, Clone, Copy, PartialEq, Eq)]
pub enum RefusReponse {
    /// Le dossier porte déjà la version du lecteur.
    DejaTaVersion,
    /// Réponse vide ou trop longue.
    DescriptionInvalide,
    /// Trop de pièces.
    TropDePieces,
}

pub open spec fn regle_reponse(
    opened_by: Option<u128>,
    user_id: u128,
    response: Seq<char>,
    pieces: nat,
) -> Result<(), RefusReponse> {
    if opened_by == Some(user_id) {
        Err(RefusReponse::DejaTaVersion)
    } else if rogne(response).len() == 0 || rogne(response).len() > DESCRIPTION_MAX {
        Err(RefusReponse::DescriptionInvalide)
    } else if pieces > PIECES_MAX {
        Err(RefusReponse::TropDePieces)
    } else {
        Ok(())
    }
}

/// Verser sa version au dossier : l'autre partie seulement, une réponse
/// rognée non vide d'au plus 1000 caractères, au plus 5 pièces.
pub fn valider_reponse(opened_by: Option<u128>, user_id: u128, response: &str, pieces: usize) -> (r: Result<(), RefusReponse>)
    ensures
        r == regle_reponse(opened_by, user_id, response@, pieces as nat),
{
    if opened_by == Some(user_id) {
        return Err(RefusReponse::DejaTaVersion);
    }
    let longueur = rogner(response).unicode_len();
    if longueur == 0 || longueur > DESCRIPTION_MAX {
        return Err(RefusReponse::DescriptionInvalide);
    }
    if pieces > PIECES_MAX {
        return Err(RefusReponse::TropDePieces);
    }
    Ok(())
}

pub open spec fn reponse_refus_reponse(refus: RefusReponse, r: ApiError) -> bool {
    match refus {
        RefusReponse::DejaTaVersion => est_erreur(r, GenreErreur::RequeteInvalide, "deja_ta_version"@,
            "Le dossier porte déjà ta version — c'est à l'autre partie de répondre."@),
        RefusReponse::DescriptionInvalide => est_erreur(r, GenreErreur::RequeteInvalide, "description_invalide"@,
            "Décris ta version (1000 caractères max)."@),
        RefusReponse::TropDePieces => est_erreur(r, GenreErreur::RequeteInvalide, "trop_de_pieces"@,
            "5 photos maximum par dossier."@),
    }
}

pub fn erreur_reponse(refus: RefusReponse) -> (r: ApiError)
    ensures
        reponse_refus_reponse(refus, r),
{
    match refus {
        RefusReponse::DejaTaVersion => ApiError::bad_request(
            "deja_ta_version",
            "Le dossier porte déjà ta version — c'est à l'autre partie de répondre.",
        ),
        RefusReponse::DescriptionInvalide => ApiError::bad_request(
            "description_invalide",
            "Décris ta version (1000 caractères max).",
        ),
        RefusReponse::TropDePieces => ApiError::bad_request("trop_de_pieces", "5 photos maximum par dossier."),
    }
}

/// L'autre partie peut encore répondre : dossier ouvert, pas par elle, sans réponse.
pub open spec fn repondable(status: Seq<char>, opened_by: Option<u128>, user_id: u128, a_une_reponse: bool) -> bool {
    status == "ouvert"@ && opened_by != Some(user_id) && !a_une_reponse
}

pub fn peut_repondre(status: &str, opened_by: Option<u128>, user_id: u128, a_une_reponse: bool) -> (r: bool)
    ensures
        r == repondable(status@, opened_by, user_id, a_une_reponse),
{
    meme_texte(status, "ouvert") && opened_by != Some(user_id) && !a_une_reponse
}

// ————— Signalements —————

/// Pourquoi un signalement est refusé.
#[derive(Debug, Clone, Copy, PartialEq, Eq)]
pub enum RefusSignalement {
    CibleInvalide,
    MotifInconnu,
    PrecisionRequise,
    DescriptionInvalide,
}

/// Commentaire d'un signalement : rogné, ignoré s'il est vide.
pub open spec fn commentaire(comment: Option<Seq<char>>) -> Option<Seq<char>> {
    match comment {
        Some(c) => if rogne(c).len() == 0 { None } else { Some(rogne(c)) },
        None => None,
    }
}

pub open spec fn regle_signalement(
    target_type: Seq<char>,
    reason: Seq<char>,
    comment: Option<Seq<char>>,
) -> Result<Option<Seq<char>>, RefusSignalement> {
    match motifs_pour(target_type) {
        None => Err(RefusSignalement::CibleInvalide),
        Some(motifs) => if !motifs.contains(reason) {
            Err(RefusSignalement::MotifInconnu)
        } else if reason == "autre"@ && commentaire(comment) is None {
            Err(RefusSignalement::PrecisionRequise)
        } else if commentaire(comment) matches Some(c) && c.len() > DESCRIPTION_MAX {
            Err(RefusSignalement::DescriptionInvalide)
        } else {
            Ok(commentaire(comment))
        },
    }
}

/// Contrôle d'un signalement : cible connue, motif de cette cible, précision
/// exigée pour « autre », commentaire d'au plus 1000 caractères. En cas de
/// succès : le commentaire retenu.
pub fn valider_signalement(target_type: &str, reason: &str, comment: Option<&str>) -> (r: Result<Option<String>, RefusSignalement>)
    ensures
        match r {
            Ok(c) => regle_signalement(target_type@, reason@, crate::texte::vue_facultative(comment))
                == Ok::<Option<Seq<char>>, RefusSignalement>(match c { Some(s) => Some(s@), None => None }),
            Err(e) => regle_signalement(target_type@, reason@, crate::texte::vue_facultative(comment))
                == Err::<Option<Seq<char>>, RefusSignalement>(e),
        },
{
    let motifs = match dispute::motifs_signalement(target_type) {
        None => {
            return Err(RefusSignalement::CibleInvalide);
        },
        Some(m) => m,
    };
    let ghost vm = vues(motifs@);
    let mut trouve = false;
    let mut i: usize = 0;
    while i < motifs.len()
        invariant
            vm == vues(motifs@),
            i <= motifs@.len(),
            vm.len() == motifs@.len(),
            trouve ==> vm.contains(reason@),
            !trouve ==> forall|j: int| 0 <= j < i ==> vm[j] != reason@,
        decreases motifs.len() - i,
    {
        assert(vm[i as int] == motifs@[i as int]@);
        if meme_texte(motifs[i], reason) {
            trouve = true;
            assert(vm[i as int] == reason@);
        }
        i = i + 1;
    }
    if !trouve {
        return Err(RefusSignalement::MotifInconnu);
    }
    let retenu: Option<String> = match comment {
        Some(c) => {
            let t = rogner(c);
            if t.unicode_len() == 0 {
                None
            } else {
                Some(t.to_owned())
            }
        },
        None => None,
    };
    let autre = meme_texte(reason, "autre");
    if autre && retenu.is_none() {
        return Err(RefusSignalement::PrecisionRequise);
    }
    if let Some(c) = &retenu {
        if c.as_str().unicode_len() > DESCRIPTION_MAX {
            return Err(RefusSignalement::DescriptionInvalide);
        }
    }
    retenu_ok(retenu)
}

fn retenu_ok(c: Option<String>) -> (r: Result<Option<String>, RefusSignalement>)
    ensures
        r == Ok::<Option<String>, RefusSignalement>(c),
{
    Ok(c)
}

pub open spec fn reponse_refus_signalement(refus: RefusSignalement, r: ApiError) -> bool {
    match refus {
        RefusSignalement::CibleInvalide => est_erreur(r, GenreErreur::RequeteInvalide, "cible_invalide"@,
            "On signale un objet, un utilisateur ou un message."@),
        RefusSignalement::MotifInconnu => est_erreur(r, GenreErreur::RequeteInvalide, "motif_inconnu"@,
            "Ce motif ne correspond pas à ce type de signalement."@),
        RefusSignalement::PrecisionRequise => est_erreur(r, GenreErreur::RequeteInvalide, "precision_requise"@,
            "Pour « autre », dis-nous en deux mots ce qui ne va pas."@),
        RefusSignalement::DescriptionInvalide => est_erreur(r, GenreErreur::RequeteInvalide, "description_invalide"@,
            "1000 caractères max."@),
    }
}

pub fn erreur_signalement(refus: RefusSignalement) -> (r: ApiError)
    ensures
        reponse_refus_signalement(refus, r),
{
    match refus {
        RefusSignalement::CibleInvalide => ApiError::bad_request(
            "cible_invalide",
            "On signale un objet, un utilisateur ou un message.",
        ),
        RefusSignalement::MotifInconnu => ApiError::bad_request(
            "motif_inconnu",
            "Ce motif ne correspond pas à ce type de signalement.",
        ),
        RefusSignalement::PrecisionRequise => ApiError::bad_request(
            "precision_requise",
            "Pour « autre », dis-nous en deux mots ce qui ne va pas.",
        ),
        RefusSignalement::DescriptionInvalide => ApiError::bad_request("description_invalide", "1000 caractères max."),
    }
}

// ————— Arbitrage —————

/// Issues possibles d'un arbitrage.
pub open spec fn issue_connue(outcome: Seq<char>) -> bool {
    outcome == "capture"@ || outcome == "liberation"@ || outcome == "rejet"@
}

pub fn issue_valide(outcome: &str) -> (r: bool)
    ensures
        r == issue_connue(outcome@),
{
    meme_texte(outcome, "capture") || meme_texte(outcome, "liberation") || meme_texte(outcome, "rejet")
}

pub fn erreur_issue_invalide() -> (r: ApiError)
    ensures
        est_erreur(r, GenreErreur::RequeteInvalide, "issue_invalide"@, "L'issue est capture, liberation ou rejet."@),
{
    ApiError::bad_request("issue_invalide", "L'issue est capture, liberation ou rejet.")
}

/// La partie pénalisée doit être une partie du troc.
pub fn partie_du_troc(user_id: u128, proposer_id: u128, recipient_id: u128) -> (r: bool)
    ensures
        r == (user_id == proposer_id || user_id == recipient_id),
{
    user_id == proposer_id || user_id == recipient_id
}

/// L'événement négatif qui pèse sur la partie pénalisée.
pub open spec fn evenement_de(outcome: Seq<char>, reason: Seq<char>, abusif: bool) -> Option<Seq<char>> {
    if reason == "non_depot"@ {
        None
    } else if outcome == "rejet"@ && abusif {
        Some("litige_abusif"@)
    } else if reason == "contrefacon"@ {
        Some("contrefacon_averee"@)
    } else if reason == "jamais_venu"@ {
        Some("no_show_confirme"@)
    } else {
        Some("litige_perdu"@)
    }
}

/// L'événement à journaliser contre la partie pénalisée. Le non-dépôt est
/// déjà journalisé par la maintenance des envois — pas de double peine ; un
/// dossier rejeté pèse sur celui qui l'a ouvert comme litige abusif.
pub fn evenement_penalite(outcome: &str, reason: &str, opened_by: Option<u128>, target_id: u128) -> (r: Option<&'static str>)
    ensures
        match r {
            Some(e) => evenement_de(outcome@, reason@, opened_by == Some(target_id)) == Some(e@),
            None => evenement_de(outcome@, reason@, opened_by == Some(target_id)) is None,
        },
{
    if meme_texte(reason, "non_depot") {
        None
    } else if meme_texte(outcome, "rejet") && opened_by == Some(target_id) {
        Some("litige_abusif")
    } else if meme_texte(reason, "contrefacon") {
        Some("contrefacon_averee")
    } else if meme_texte(reason, "jamais_venu") {
        Some("no_show_confirme")
    } else {
        Some("litige_perdu")
    }
}

/// Ce que l'arbitrage annonce aux deux parties.
pub open spec fn texte_de_l_issue(outcome: Seq<char>) -> Seq<char> {
    if outcome == "capture"@ {
        "le troc est validé, les règlements bloqués sont débités."@
    } else if outcome == "liberation"@ {
        "les règlements bloqués sont annulés — rien n'est débité."@
    } else {
        "le dossier est classé sans suite, le troc reprend son cours normal."@
    }
}

pub fn texte_issue(outcome: &str) -> (r: &'static str)
    ensures
        r@ == texte_de_l_issue(outcome@),
{
    if meme_texte(outcome, "capture") {
        "le troc est validé, les règlements bloqués sont débités."
    } else if meme_texte(outcome, "liberation") {
        "les règlements bloqués sont annulés — rien n'est débité."
    } else {
        "le dossier est classé sans suite, le troc reprend son cours normal."
    }
}

/// Le libellé public d'une sanction.
pub open spec fn libelle(s: Sanction) -> Seq<char> {
    match s {
        Sanction::Aucune => "aucune"@,
        Sanction::Avertissement => "avertissement"@,
        Sanction::Restriction => "restriction"@,
        Sanction::Bannissement => "bannissement"@,
    }
}

pub fn libelle_sanction(s: Sanction) -> (r: &'static str)
    ensures
        r@ == libelle(s),
{
    match s {
        Sanction::Aucune => "aucune",
        Sanction::Avertissement => "avertissement",
        Sanction::Restriction => "restriction",
        Sanction::Bannissement => "bannissement",
    }
}

/// Le score de la partie pénalisée après l'arbitrage, quand le score
/// enregistré est la somme des points de ses événements et valait `avant` :
/// l'événement journalisé y ajoute ses points ; le non-dépôt, déjà
/// journalisé, n'ajoute rien.
pub open spec fn score_apres_arbitrage(avant: int, outcome: Seq<char>, reason: Seq<char>, abusif: bool) -> int {
    match evenement_de(outcome, reason, abusif) {
        Some(e) => avant + dispute::points_de(e),
        None => avant,
    }
}

/// Un arbitrage n'allège jamais le score ni la sanction de la partie
/// pénalisée ; un non-dépôt ne pèse pas deux fois ; une contrefaçon avérée
/// bannit un compte au score positif ou nul. La sanction annoncée est celle
/// du score atteint.
pub proof fn arbitrage_n_allege_jamais(avant: int, outcome: Seq<char>, reason: Seq<char>, abusif: bool)
    ensures
        score_apres_arbitrage(avant, outcome, reason, abusif) >= avant,
        dispute::gravite(dispute::sanction_due(score_apres_arbitrage(avant, outcome, reason, abusif)))
            >= dispute::gravite(dispute::sanction_due(avant)),
        reason == "non_depot"@ ==> score_apres_arbitrage(avant, outcome, reason, abusif) == avant,
        (reason == "contrefacon"@ && !(outcome == "rejet"@ && abusif) && avant >= 0)
            ==> dispute::sanction_due(score_apres_arbitrage(avant, outcome, reason, abusif)) == Sanction::Bannissement,
{
    reveal_strlit("contrefacon");
    reveal_strlit("non_depot");
    assert("contrefacon"@.len() != "non_depot"@.len());
    let apres = score_apres_arbitrage(avant, outcome, reason, abusif);
    if let Some(e) = evenement_de(outcome, reason, abusif) {
        dispute::points_positifs(e);
    }
    dispute::sanction_croissante(avant, apres);
}

/// Ce que l'arbitrage annonce de la partie pénalisée, dont le score
/// enregistré valait `score_avant` : son nouveau score (l'événement
/// journalisé y ajoute ses points) et le libellé de la sanction que ce
/// score appelle.
pub fn bilan_arbitrage(
    score_avant: i32,
    outcome: &str,
    reason: &str,
    opened_by: Option<u128>,
    target_id: u128,
) -> (r: (i32, &'static str))
    requires
        score_avant <= i32::MAX - dispute::SEUIL_BANNISSEMENT,
    ensures
        r.0 == score_apres_arbitrage(score_avant as int, outcome@, reason@, opened_by == Some(target_id)),
        r.1@ == libelle(dispute::sanction_due(r.0 as int)),
{
    let score = match evenement_penalite(outcome, reason, opened_by, target_id) {
        Some(e) => {
            let points = dispute::points(e);
            proof {
                dispute::points_positifs(e@);
            }
            score_avant + points
        },
        None => score_avant,
    };
    (score, libelle_sanction(dispute::sanction_pour_score(score)))
}

// ————— Sanctions automatiques —————

/// Ce qu'il faut faire du compte une fois la sanction due connue.
#[derive(Debug, Clone, Copy, PartialEq, Eq)]
pub enum Mesure {
    /// Score sous le premier seuil : rien.
    Rien,
    /// La sanction est déjà en place (ou plus forte) : rien de neuf.
    DejaEnPlace,
    /// Prévenir le membre.
    Avertir,
    /// Restreindre le compte 30 jours.
    Restreindre,
    /// Bannir le compte.
    Bannir,
}

pub open spec fn mesure_due(sanction: Sanction, banni: bool, restreint_en_cours: bool) -> Mesure {
    match sanction {
        Sanction::Aucune => Mesure::Rien,
        Sanction::Avertissement => Mesure::Avertir,
        Sanction::Restriction => if banni || restreint_en_cours {
            Mesure::DejaEnPlace
        } else {
            Mesure::Restreindre
        },
        Sanction::Bannissement => if banni {
            Mesure::DejaEnPlace
        } else {
            Mesure::Bannir
        },
    }
}

/// La mesure à appliquer : une restriction n'écrase ni un bannissement ni
/// une restriction en cours ; un bannissement n'est posé qu'une fois.
pub fn mesure_pour(sanction: Sanction, banni: bool, restreint_en_cours: bool) -> (r: Mesure)
    ensures
        r == mesure_due(sanction, banni, restreint_en_cours),
{
    match sanction {
        Sanction::Aucune => Mesure::Rien,
        Sanction::Avertissement => Mesure::Avertir,
        Sanction::Restriction => if banni || restreint_en_cours {
            Mesure::DejaEnPlace
        } else {
            Mesure::Restreindre
        },
        Sanction::Bannissement => if banni {
            Mesure::DejaEnPlace
        } else {
            Mesure::Bannir
        },
    }
}

/// Le message envoyé au membre pour une mesure prise.
pub open spec fn message_de_mesure(m: Mesure) -> Option<Seq<char>> {
    match m {
        Mesure::Avertir => Some(
            "Plusieurs incidents ont été constatés sur tes trocs. Prends soin des échanges en cours : au prochain incident avéré, ton compte pourra être restreint."@,
        ),
        Mesure::Restreindre => Some(
            "Suite à plusieurs incidents avérés, ton compte est restreint pendant 30 jours : tes trocs en cours continuent, mais tu ne peux plus faire de nouvelles propositions."@,
        ),
        Mesure::Bannir => Some(
            "Suite à des incidents graves et répétés, ton compte Lebontroc est suspendu. Tes trocs en cours sont gelés."@,
        ),
        _ => None,
    }
}

pub fn message_mesure(m: Mesure) -> (r: Option<&'static str>)
    ensures
        match r {
            Some(t) => message_de_mesure(m) == Some(t@),
            None => message_de_mesure(m) is None,
        },
{
    match m {
        Mesure::Avertir => Some(
            "Plusieurs incidents ont été constatés sur tes trocs. Prends soin des échanges en cours : au prochain incident avéré, ton compte pourra être restreint.",
        ),
        Mesure::Restreindre => Some(
            "Suite à plusieurs incidents avérés, ton compte est restreint pendant 30 jours : tes trocs en cours continuent, mais tu ne peux plus faire de nouvelles propositions.",
        ),
        Mesure::Bannir => Some(
            "Suite à des incidents graves et répétés, ton compte Lebontroc est suspendu. Tes trocs en cours sont gelés.",
        ),
        _ => None,
    }
}

/// L'alerte envoyée aux administrateurs pour une mesure (restriction et
/// bannissement seulement).
pub open spec fn alerte_de_mesure(m: Mesure, pseudo: Seq<char>) -> Option<Seq<char>> {
    match m {
        Mesure::Restreindre => Some("restriction 30 j automatique de "@ + pseudo),
        Mesure::Bannir => Some("BANNISSEMENT automatique de "@ + pseudo),
        _ => None,
    }
}

pub fn alerte_admin(m: Mesure, pseudo: &str) -> (r: Option<String>)
    ensures
        match r {
            Some(t) => alerte_de_mesure(m, pseudo@) == Some(t@),
            None => alerte_de_mesure(m, pseudo@) is None,
        },
{
    match m {
        Mesure::Restreindre => Some(crate::texte::concatener("restriction 30 j automatique de ", pseudo)),
        Mesure::Bannir => Some(crate::texte::concatener("BANNISSEMENT automatique de ", pseudo)),
        _ => None,
    }
}

/// Les sanctions automatiques ne reviennent jamais en arrière et ne se
/// cumulent pas : un compte banni ne reçoit plus de restriction ni de
/// second bannissement, et un compte déjà restreint n'est pas restreint à
/// nouveau.
pub proof fn sanctions_sans_doublon(sanction: Sanction, restreint_en_cours: bool)
    ensures
        mesure_due(sanction, true, restreint_en_cours) != Mesure::Restreindre,
        mesure_due(sanction, true, restreint_en_cours) != Mesure::Bannir,
        mesure_due(sanction, false, true) != Mesure::Restreindre,
{
}

/// Un score de bannissement bannit toujours un compte qui ne l'est pas encore.
pub proof fn bannissement_applique(score: int, restreint_en_cours: bool)
    requires
        score >= dispute::SEUIL_BANNISSEMENT,
    ensures
        mesure_due(dispute::sanction_due(score), false, restreint_en_cours) == Mesure::Bannir,
{
}

// ————— Textes envoyés —————

/// Ce qu'envoie l'ouverture d'un dossier : la notification à l'autre
/// partie, le détail de l'alerte envoyée par e-mail à l'administration, et
/// la notification des administrateurs.
pub struct TextesOuverture {
    pub titre_notif: &'static str,
    pub corps_notif: String,
    pub alerte_mail: String,
    pub titre_admin: &'static str,
    pub corps_admin: String,
}

pub open spec fn textes_ouverture_attendus(ouvreur: Seq<char>, motif: Seq<char>, t: TextesOuverture) -> bool {
    &&& t.titre_notif@ == "Un dossier est ouvert sur ton troc"@
    &&& t.corps_notif@ == ouvreur + " a signalé un problème ("@ + motif + "). Tu as 72 h pour donner ta version."@
    &&& t.alerte_mail@ == "dossier "@ + motif + " ouvert par "@ + ouvreur
    &&& t.titre_admin@ == "⚖️ Nouveau dossier de litige"@
    &&& t.corps_admin@ == ouvreur + " a ouvert un dossier ("@ + motif + ")."@
}

pub fn textes_ouverture(ouvreur: &str, motif: &str) -> (t: TextesOuverture)
    ensures
        textes_ouverture_attendus(ouvreur@, motif@, t),
{
    let a = concatener(ouvreur, " a signalé un problème (");
    let b = concatener(a.as_str(), motif);
    let corps_notif = concatener(b.as_str(), "). Tu as 72 h pour donner ta version.");
    let c = concatener("dossier ", motif);
    let d = concatener(c.as_str(), " ouvert par ");
    let alerte_mail = concatener(d.as_str(), ouvreur);
    let e = concatener(ouvreur, " a ouvert un dossier (");
    let f = concatener(e.as_str(), motif);
    let corps_admin = concatener(f.as_str(), ").");
    TextesOuverture {
        titre_notif: "Un dossier est ouvert sur ton troc",
        corps_notif,
        alerte_mail,
        titre_admin: "⚖️ Nouveau dossier de litige",
        corps_admin,
    }
}

/// Le titre de la notification d'une sanction au membre concerné.
pub const TITRE_SANCTION: &'static str = "Important — au sujet de ton compte";
/// Le titre de l'alerte d'une sanction aux administrateurs.
pub const TITRE_ALERTE_SANCTION: &'static str = "🚨 Sanction automatique";

} // verus!

//! Décisions du catalogue côté API : pagination du fil et de la recherche,
//! filtres, visibilité d'un objet, photos téléversées, liste d'envies.

use vstd::prelude::*;
use crate::dto::{PresignFile, WishlistEntryDto};
use crate::erreurs::{est_erreur, ApiError, GenreErreur};
use crate::texte::{debut, debut_exec, meme_texte, rogne, rogner, texte_facultatif, texte_facultatif_exec, vue_facultative};

verus! {

// ————— Pagination et filtres —————

/// Objets par page du fil et de la recherche.
pub const FEED_PAGE_SIZE: i64 = 24;
/// Dernière page servie.
pub const PAGE_MAX: u32 = 500;

pub open spec fn page_de(page: Option<u32>) -> u32 {
    match page {
        Some(p) => if p < 1 { 1 } else if p > PAGE_MAX { PAGE_MAX } else { p },
        None => 1,
    }
}

/// La page demandée, 1 par défaut, ramenée entre 1 et 500.
pub fn page_demandee(page: Option<u32>) -> (r: u32)
    ensures
        r == page_de(page),
        1 <= r <= PAGE_MAX,
{
    let p = match page {
        Some(p) => p,
        None => 1,
    };
    if p < 1 {
        1
    } else if p > PAGE_MAX {
        PAGE_MAX
    } else {
        p
    }
}

/// Décalage SQL de la page (24 objets par page).
pub fn decalage_page(page: u32) -> (r: i64)
    requires
        1 <= page <= PAGE_MAX,
    ensures
        r == (page - 1) * FEED_PAGE_SIZE,
{
    (page as i64 - 1) * FEED_PAGE_SIZE
}

/// On lit une ligne de plus que la page : s'il y en a plus de 24, une page
/// suivante existe.
pub fn reste_des_resultats(lignes: usize) -> (r: bool)
    ensures
        r == (lignes > FEED_PAGE_SIZE),
{
    lignes > 24
}

/// Tri d'une recherche.
#[derive(Debug, Clone, Copy, PartialEq, Eq)]
pub enum TriRecherche {
    Pertinence,
    Distance,
    Recence,
}

pub open spec fn tri_de(sort: Option<Seq<char>>, localise: bool) -> TriRecherche {
    match sort {
        Some(s) => if s == "distance"@ && localise {
            TriRecherche::Distance
        } else if s == "recence"@ {
            TriRecherche::Recence
        } else {
            TriRecherche::Pertinence
        },
        None => TriRecherche::Pertinence,
    }
}

/// Le tri demandé ; la distance suppose un visiteur localisé, sinon on
/// retombe sur la pertinence.
pub fn tri_recherche(sort: Option<&str>, localise: bool) -> (r: TriRecherche)
    ensures
        r == tri_de(crate::texte::vue_facultative(sort), localise),
{
    match sort {
        Some(s) => if meme_texte(s, "distance") && localise {
            TriRecherche::Distance
        } else if meme_texte(s, "recence") {
            TriRecherche::Recence
        } else {
            TriRecherche::Pertinence
        },
        None => TriRecherche::Pertinence,
    }
}

/// Le nom du tri tel que la télémétrie le trace.
pub fn nom_du_tri(tri: TriRecherche) -> (r: &'static str)
    ensures
        r@ == (match tri {
            TriRecherche::Pertinence => "pertinence"@,
            TriRecherche::Distance => "distance"@,
            TriRecherche::Recence => "recence"@,
        }),
{
    match tri {
        TriRecherche::Pertinence => "pertinence",
        TriRecherche::Distance => "distance",
        TriRecherche::Recence => "recence",
    }
}

/// Le filtre d'état n'est retenu que s'il désigne un état connu.
pub fn filtre_condition(condition: Option<String>) -> (r: Option<String>)
    ensures
        match condition {
            Some(c) => if crate::catalog::condition_connue(c@) { r == Some(c) } else { r is None },
            None => r is None,
        },
{
    match condition {
        Some(c) => {
            if crate::catalog::valider_condition(c.as_str()).is_ok() {
                Some(c)
            } else {
                None
            }
        },
        None => None,
    }
}

/// Le filtre de remise n'est retenu que pour `main_propre` ou `envoi`.
pub fn filtre_remise(delivery: Option<String>) -> (r: Option<String>)
    ensures
        match delivery {
            Some(d) => if d@ == "main_propre"@ || d@ == "envoi"@ { r == Some(d) } else { r is None },
            None => r is None,
        },
{
    match delivery {
        Some(d) => {
            if meme_texte(d.as_str(), "main_propre") || meme_texte(d.as_str(), "envoi") {
                Some(d)
            } else {
                None
            }
        },
        None => None,
    }
}

// ————— Fiche objet —————

/// Le propriétaire voit tout ; les autres uniquement un objet `disponible`.
pub fn objet_visible(est_proprietaire: bool, status: &str) -> (r: bool)
    ensures
        r == (est_proprietaire || status@ == "disponible"@),
{
    est_proprietaire || meme_texte(status, "disponible")
}

/// Provenance d'une consultation, `direct` si elle n'est pas reconnue.
pub open spec fn source_de(source: Option<Seq<char>>) -> Seq<char> {
    match source {
        Some(s) => if s == "feed"@ || s == "search"@ || s == "profile"@ || s == "favorites"@ {
            s
        } else {
            "direct"@
        },
        None => "direct"@,
    }
}

pub fn source_de_vue(source: Option<&str>) -> (r: &str)
    ensures
        r@ == source_de(crate::texte::vue_facultative(source)),
{
    match source {
        Some(s) => if meme_texte(s, "feed") || meme_texte(s, "search") || meme_texte(s, "profile")
            || meme_texte(s, "favorites")
        {
            s
        } else {
            "direct"
        },
        None => "direct",
    }
}

/// L'événement tracé après une modification : masquage ou simple édition.
pub fn evenement_modification(ancien: &str, nouveau: &str) -> (r: &'static str)
    ensures
        r@ == (if ancien@ != nouveau@ && nouveau@ == "masque"@ { "item_hidden"@ } else { "item_edited"@ }),
{
    if !meme_texte(ancien, nouveau) && meme_texte(nouveau, "masque") {
        "item_hidden"
    } else {
        "item_edited"
    }
}

/// Un objet réservé ou troqué fait partie d'un troc : il ne se supprime pas.
pub fn suppression_possible(status: &str) -> (r: Result<(), ApiError>)
    ensures
        r is Ok <==> !(status@ == "reserve"@ || status@ == "troque"@),
        r matches Err(e) ==> est_erreur(e, GenreErreur::RequeteInvalide, "objet_reserve"@,
            "Cet objet fait partie d'un troc en cours — il ne peut pas être supprimé."@),
{
    if meme_texte(status, "reserve") || meme_texte(status, "troque") {
        return Err(ApiError::bad_request(
            "objet_reserve",
            "Cet objet fait partie d'un troc en cours — il ne peut pas être supprimé.",
        ));
    }
    Ok(())
}

/// On ne met pas son propre objet en favori.
pub fn favori_possible(owner_id: u128, user_id: u128) -> (r: Result<(), ApiError>)
    ensures
        r is Ok <==> owner_id != user_id,
        r matches Err(e) ==> est_erreur(e, GenreErreur::RequeteInvalide, "objet_a_soi"@,
            "C'est ton objet — pas besoin de le mettre en favori."@),
{
    if owner_id == user_id {
        return Err(ApiError::bad_request(
            "objet_a_soi",
            "C'est ton objet — pas besoin de le mettre en favori.",
        ));
    }
    Ok(())
}

// ————— Photos téléversées —————

/// Taille maximale d'une photo : 5 Mo.
pub const PHOTO_OCTETS_MAX: i32 = 5_242_880;

/// Extension d'un type d'image accepté.
pub open spec fn extension_de(content_type: Seq<char>) -> Option<Seq<char>> {
    if content_type == "image/webp"@ {
        Some("webp"@)
    } else if content_type == "image/jpeg"@ {
        Some("jpg"@)
    } else {
        None
    }
}

pub fn extension_photo(content_type: &str) -> (r: Option<&'static str>)
    ensures
        match r {
            Some(e) => extension_de(content_type@) == Some(e@),
            None => extension_de(content_type@) is None,
        },
{
    if meme_texte(content_type, "image/webp") {
        Some("webp")
    } else if meme_texte(content_type, "image/jpeg") {
        Some("jpg")
    } else {
        None
    }
}

/// Pourquoi un fichier est refusé.
#[derive(Debug, Clone, Copy, PartialEq, Eq)]
pub enum RefusFichier {
    TypeRefuse,
    FichierTropLourd,
}

/// Le refus du fichier, ou son extension.
pub open spec fn controle_fichier(content_type: Seq<char>, size: i32) -> Result<Seq<char>, RefusFichier> {
    match extension_de(content_type) {
        None => Err(RefusFichier::TypeRefuse),
        Some(e) => if size <= 0 || size > PHOTO_OCTETS_MAX {
            Err(RefusFichier::FichierTropLourd)
        } else {
            Ok(e)
        },
    }
}

/// Le premier fichier refusé décide ; sinon les extensions, dans l'ordre.
pub open spec fn controle_fichiers(files: Seq<PresignFile>, refus: Option<(int, RefusFichier)>, extensions: Seq<Seq<char>>) -> bool {
    match refus {
        Some((k, e)) => {
            &&& 0 <= k < files.len()
            &&& controle_fichier(files[k].content_type@, files[k].size) == Err::<Seq<char>, RefusFichier>(e)
            &&& forall|j: int| 0 <= j < k ==> (#[trigger] controle_fichier(files[j].content_type@, files[j].size)) is Ok
        },
        None => {
            &&& extensions.len() == files.len()
            &&& forall|j: int| 0 <= j < files.len() ==>
                #[trigger] controle_fichier(files[j].content_type@, files[j].size) == Ok::<Seq<char>, RefusFichier>(extensions[j])
        },
    }
}

/// Contrôle des fichiers annoncés avant de présigner leurs URL : type JPEG
/// ou WebP, taille entre 1 octet et 5 Mo. Renvoie l'extension de chacun.
pub fn verifier_fichiers(files: &Vec<PresignFile>) -> (r: Result<Vec<&'static str>, RefusFichier>)
    ensures
        match r {
            Ok(ext) => controle_fichiers(files@, None, ext@.map_values(|e: &str| e@)),
            Err(e) => exists|k: int| controle_fichiers(files@, Some((k, e)), Seq::empty()),
        },
{
    let mut ext: Vec<&'static str> = Vec::new();
    let mut i: usize = 0;
    while i < files.len()
        invariant
            i <= files@.len(),
            ext@.len() == i,
            forall|j: int| 0 <= j < i ==>
                #[trigger] controle_fichier(files@[j].content_type@, files@[j].size)
                    == Ok::<Seq<char>, RefusFichier>(ext@[j]@),
        decreases files.len() - i,
    {
        let e = match extension_photo(files[i].content_type.as_str()) {
            None => {
                assert(controle_fichiers(files@, Some((i as int, RefusFichier::TypeRefuse)), Seq::empty()));
                return Err(RefusFichier::TypeRefuse);
            },
            Some(e) => e,
        };
        if files[i].size <= 0 || files[i].size > PHOTO_OCTETS_MAX {
            assert(controle_fichiers(files@, Some((i as int, RefusFichier::FichierTropLourd)), Seq::empty()));
            return Err(RefusFichier::FichierTropLourd);
        }
        ext.push(e);
        i = i + 1;
    }
    proof {
        let vues = ext@.map_values(|e: &str| e@);
        assert forall|j: int| 0 <= j < files@.len() implies
            #[trigger] controle_fichier(files@[j].content_type@, files@[j].size)
                == Ok::<Seq<char>, RefusFichier>(vues[j]) by {
            assert(vues[j] == ext@[j]@);
        }
    }
    Ok(ext)
}

pub open spec fn reponse_refus_fichier(refus: RefusFichier, r: ApiError) -> bool {
    match refus {
        RefusFichier::TypeRefuse => est_erreur(r, GenreErreur::RequeteInvalide, "type_refuse"@,
            "On n'a pas réussi à lire cette image. Essaie un autre format (JPG, WebP)."@),
        RefusFichier::FichierTropLourd => est_erreur(r, GenreErreur::RequeteInvalide, "fichier_trop_lourd"@,
            "Cette photo dépasse 5 Mo après compression. Réessaie avec une autre."@),
    }
}

pub fn erreur_fichier(refus: RefusFichier) -> (r: ApiError)
    ensures
        reponse_refus_fichier(refus, r),
{
    match refus {
        RefusFichier::TypeRefuse => ApiError::bad_request(
            "type_refuse",
            "On n'a pas réussi à lire cette image. Essaie un autre format (JPG, WebP).",
        ),
        RefusFichier::FichierTropLourd => ApiError::bad_request(
            "fichier_trop_lourd",
            "Cette photo dépasse 5 Mo après compression. Réessaie avec une autre.",
        ),
    }
}

// ————— Recherche : texte saisi —————

/// Longueur gardée du texte d'une recherche.
pub const RECHERCHE_MAX: usize = 120;

/// Le texte d'une recherche : rogné, ignoré s'il est vide, tronqué à 120
/// caractères.
pub fn requete_recherche(q: Option<&str>) -> (r: Option<String>)
    ensures
        r.is_some() == texte_facultatif(vue_facultative(q), RECHERCHE_MAX as nat).is_some(),
        r matches Some(t) ==> texte_facultatif(vue_facultative(q), RECHERCHE_MAX as nat) == Some(t@),
{
    texte_facultatif_exec(q, RECHERCHE_MAX)
}

// ————— Liste d'envies —————

/// Nombre maximal d'envies.
pub const ENVIES_MAX: usize = 3;
/// Longueur maximale des mots-clés d'une envie.
pub const MOTS_CLES_MAX: usize = 120;

/// L'envie retenue d'une ligne saisie : mots-clés rognés et tronqués ; une
/// ligne sans mot-clé ni catégorie est ignorée.
pub open spec fn envie_retenue(e: WishlistEntryDto) -> Option<(Option<i16>, Seq<char>)> {
    let mots = debut(rogne(e.keywords@), MOTS_CLES_MAX as nat);
    if mots.len() == 0 && e.category_id is None {
        None
    } else {
        Some((e.category_id, mots))
    }
}

/// Les envies retenues, dans l'ordre de saisie.
pub open spec fn envies_retenues(entries: Seq<WishlistEntryDto>) -> Seq<(Option<i16>, Seq<char>)>
    decreases entries.len(),
{
    if entries.len() == 0 {
        Seq::empty()
    } else {
        match envie_retenue(entries.last()) {
            Some(x) => envies_retenues(entries.drop_last()).push(x),
            None => envies_retenues(entries.drop_last()),
        }
    }
}

pub open spec fn vue_envies(v: Seq<WishlistEntryDto>) -> Seq<(Option<i16>, Seq<char>)> {
    v.map_values(|e: WishlistEntryDto| (e.category_id, e.keywords@))
}

/// Remplacement de la liste d'envies : trois lignes au plus ; les lignes
/// vides sont ignorées, les mots-clés rognés et tronqués à 120 caractères.
/// L'existence des catégories reste à vérifier en base.
pub fn normaliser_envies(entries: &Vec<WishlistEntryDto>) -> (r: Result<Vec<WishlistEntryDto>, ApiError>)
    ensures
        entries@.len() > ENVIES_MAX <==> r is Err,
        r matches Err(e) ==> est_erreur(e, GenreErreur::RequeteInvalide, "envies_trop_nombreuses"@,
            "Trois envies maximum — garde les plus importantes."@),
        r matches Ok(v) ==> vue_envies(v@) == envies_retenues(entries@),
{
    if entries.len() > ENVIES_MAX {
        return Err(ApiError::bad_request(
            "envies_trop_nombreuses",
            "Trois envies maximum — garde les plus importantes.",
        ));
    }
    let mut r: Vec<WishlistEntryDto> = Vec::new();
    let mut i: usize = 0;
    while i < entries.len()
        invariant
            i <= entries@.len(),
            vue_envies(r@) == envies_retenues(entries@.take(i as int)),
        decreases entries.len() - i,
    {
        let ghost avant = r@;
        let mots = debut_exec(rogner(entries[i].keywords.as_str()), MOTS_CLES_MAX);
        assert(entries@.take(i + 1).drop_last() =~= entries@.take(i as int));
        assert(entries@.take(i + 1).last() == entries@[i as int]);
        if mots.as_str().unicode_len() == 0 && entries[i].category_id.is_none() {
        } else {
            r.push(WishlistEntryDto { category_id: entries[i].category_id, keywords: mots });
            assert(vue_envies(r@) =~= vue_envies(avant).push((entries@[i as int].category_id, debut(rogne(entries@[i as int].keywords@), MOTS_CLES_MAX as nat))));
        }
        i = i + 1;
    }
    assert(entries@.take(i as int) =~= entries@);
    Ok(r)
}

} // verus!

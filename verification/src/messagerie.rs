//! Messagerie attachée à une proposition : conversation close, texte
//! enregistré (modération avant acceptation), auteur affiché, ordre de la
//! liste des conversations.

use vstd::prelude::*;
use crate::erreurs::{est_erreur, ApiError, GenreErreur};
use crate::moderation::{masquage, masquer_coordonnees};
use crate::texte::{meme_texte, texte_facultatif, texte_facultatif_exec, vue_facultative};

verus! {

/// Longueur maximale d'un message, en caractères.
pub const MESSAGE_MAX: usize = 2000;

/// Une proposition refusée ou expirée n'accepte plus de message.
pub open spec fn conversation_close(status: Seq<char>) -> bool {
    status == "refusee"@ || status == "expiree"@
}

pub open spec fn erreur_conversation_close(e: ApiError) -> bool {
    est_erreur(
        e,
        GenreErreur::RequeteInvalide,
        "conversation_fermee"@,
        "Cette proposition est close — retente ta chance avec une nouvelle proposition."@,
    )
}

/// Refuse d'écrire dans une conversation close.
pub fn verifier_conversation_ouverte(status: &str) -> (r: Result<(), ApiError>)
    ensures
        r.is_ok() == !conversation_close(status@),
        r matches Err(e) ==> erreur_conversation_close(e),
{
    if meme_texte(status, "refusee") || meme_texte(status, "expiree") {
        Err(ApiError::bad_request(
            "conversation_fermee",
            "Cette proposition est close — retente ta chance avec une nouvelle proposition.",
        ))
    } else {
        Ok(())
    }
}

/// Le texte envoyé : rogné, ignoré s'il est vide, tronqué à 2000 caractères.
pub fn texte_du_message(corps: Option<&str>) -> (r: Option<String>)
    ensures
        r.is_some() == texte_facultatif(vue_facultative(corps), MESSAGE_MAX as nat).is_some(),
        r matches Some(t) ==> texte_facultatif(vue_facultative(corps), MESSAGE_MAX as nat) == Some(t@),
{
    texte_facultatif_exec(corps, MESSAGE_MAX)
}

/// Ce qui est enregistré : sans texte ni photo, le message est refusé ;
/// avant l'acceptation du troc, les coordonnées du texte sont masquées ;
/// une photo seule laisse un corps vide.
pub open spec fn contenu(status: Seq<char>, texte: Option<Seq<char>>, avec_photo: bool) -> Option<(Seq<char>, bool)> {
    match texte {
        Some(t) => if status != "acceptee"@ {
            Some(masquage(t))
        } else {
            Some((t, false))
        },
        None => if avec_photo {
            Some((Seq::empty(), false))
        } else {
            None
        },
    }
}

pub open spec fn vue_texte(t: Option<String>) -> Option<Seq<char>> {
    match t {
        Some(s) => Some(s@),
        None => None,
    }
}

pub open spec fn erreur_message_vide(e: ApiError) -> bool {
    est_erreur(e, GenreErreur::RequeteInvalide, "message_vide"@, "Écris un message ou joins une photo."@)
}

/// Le corps enregistré et l'indicateur de masquage, ou le refus d'un
/// message vide.
pub fn contenu_du_message(status: &str, texte: Option<String>, avec_photo: bool) -> (r: Result<(String, bool), ApiError>)
    ensures
        r.is_ok() == contenu(status@, vue_texte(texte), avec_photo).is_some(),
        r matches Ok(c) ==> contenu(status@, vue_texte(texte), avec_photo) == Some((c.0@, c.1)),
        r matches Err(e) ==> erreur_message_vide(e),
{
    match texte {
        Some(t) => {
            if !meme_texte(status, "acceptee") {
                Ok(masquer_coordonnees(t.as_str()))
            } else {
                Ok((t, false))
            }
        },
        None => {
            if avec_photo {
                let vide = String::new();
                assert(vide@ =~= Seq::<char>::empty());
                Ok((vide, false))
            } else {
                Err(ApiError::bad_request("message_vide", "Écris un message ou joins une photo."))
            }
        },
    }
}

/// Le pseudo affiché pour l'auteur d'un message : celui du proposant s'il
/// l'a écrit, sinon celui du destinataire.
pub fn pseudo_auteur(auteur: u128, proposant: u128, pseudo_proposant: &str, pseudo_destinataire: &str) -> (r: String)
    ensures
        r@ == (if auteur == proposant { pseudo_proposant@ } else { pseudo_destinataire@ }),
{
    if auteur == proposant {
        pseudo_proposant.to_owned()
    } else {
        pseudo_destinataire.to_owned()
    }
}

/// Le dernier message d'une conversation est-il le mien ? Faux sans message.
pub fn dernier_est_a_moi(dernier_auteur: Option<u128>, moi: u128) -> (r: bool)
    ensures
        r == (dernier_auteur == Some(moi)),
{
    match dernier_auteur {
        Some(a) => a == moi,
        None => false,
    }
}

/// La date qui classe une conversation : son dernier message, à défaut la
/// création de la proposition.
pub fn cle_conversation(dernier_message: Option<i128>, creation: i128) -> (r: i128)
    ensures
        r == (match dernier_message {
            Some(t) => t,
            None => creation,
        }),
{
    match dernier_message {
        Some(t) => t,
        None => creation,
    }
}

/// `a` passe avant `b` : date plus récente, ou même date et rang d'origine
/// plus petit (le tri est stable).
pub open spec fn avant(cles: Seq<i128>, a: int, b: int) -> bool {
    cles[a] > cles[b] || (cles[a] == cles[b] && a < b)
}

/// `ordre` range des rangs de `cles` du plus récent au plus ancien.
pub open spec fn trie(cles: Seq<i128>, ordre: Seq<usize>) -> bool {
    forall|x: int, y: int|
        0 <= x < y < ordre.len() ==> avant(cles, #[trigger] ordre[x] as int, #[trigger] ordre[y] as int)
}

/// `ordre` contient chacun des rangs `0..n` exactement une fois.
pub open spec fn permutation(ordre: Seq<usize>, n: nat) -> bool {
    &&& ordre.len() == n
    &&& forall|x: int| 0 <= x < n ==> #[trigger] ordre[x] < n
    &&& forall|x: int, y: int| 0 <= x < y < n ==> #[trigger] ordre[x] != #[trigger] ordre[y]
}

/// L'ordre d'affichage des conversations : les rangs de `cles`, de la date
/// la plus récente à la plus ancienne, les égalités dans l'ordre d'origine
/// (tri stable décroissant).
pub fn ordre_conversations(cles: &Vec<i128>) -> (ordre: Vec<usize>)
    ensures
        permutation(ordre@, cles@.len()),
        trie(cles@, ordre@),
{
    let mut ordre: Vec<usize> = Vec::new();
    let mut i: usize = 0;
    while i < cles.len()
        invariant
            i <= cles@.len(),
            permutation(ordre@, i as nat),
            trie(cles@, ordre@),
        decreases cles.len() - i,
    {
        let c = cles[i];
        let mut p: usize = 0;
        while p < ordre.len() && cles[ordre[p]] >= c
            invariant
                i < cles@.len(),
                c == cles@[i as int],
                permutation(ordre@, i as nat),
                p <= ordre@.len(),
                forall|q: int| 0 <= q < p ==> cles@[#[trigger] ordre@[q] as int] >= c,
            decreases ordre.len() - p,
        {
            p = p + 1;
        }
        let ghost ancien = ordre@;
        proof {
            if p < ancien.len() {
                assert(cles@[ancien[p as int] as int] < c);
            }
        }
        ordre.insert(p, i);
        proof {
            let nouveau = ordre@;
            assert forall|x: int, y: int| 0 <= x < y < nouveau.len() implies
                avant(cles@, #[trigger] nouveau[x] as int, #[trigger] nouveau[y] as int) by {
                if y < p {
                    assert(nouveau[x] == ancien[x] && nouveau[y] == ancien[y]);
                } else if y == p {
                    assert(nouveau[x] == ancien[x]);
                    assert(cles@[ancien[x] as int] >= c);
                    assert(ancien[x] < i);
                } else if x < p {
                    assert(nouveau[x] == ancien[x] && nouveau[y] == ancien[y - 1]);
                } else if x == p {
                    assert(nouveau[y] == ancien[y - 1]);
                    if y - 1 > p {
                        assert(avant(cles@, ancien[p as int] as int, ancien[y - 1] as int));
                    }
                    assert(cles@[ancien[y - 1] as int] < c);
                } else {
                    assert(nouveau[x] == ancien[x - 1] && nouveau[y] == ancien[y - 1]);
                }
            }
            assert forall|x: int| 0 <= x < i + 1 implies #[trigger] nouveau[x] < i + 1 by {
                if x < p {
                    assert(nouveau[x] == ancien[x]);
                } else if x > p {
                    assert(nouveau[x] == ancien[x - 1]);
                }
            }
            assert forall|x: int, y: int| 0 <= x < y < i + 1 implies #[trigger] nouveau[x] != #[trigger] nouveau[y] by {
                if y < p {
                    assert(nouveau[x] == ancien[x] && nouveau[y] == ancien[y]);
                } else if y == p {
                    assert(nouveau[x] == ancien[x]);
                    assert(ancien[x] < i);
                } else if x < p {
                    assert(nouveau[x] == ancien[x] && nouveau[y] == ancien[y - 1]);
                } else if x == p {
                    assert(nouveau[y] == ancien[y - 1]);
                    assert(ancien[y - 1] < i);
                } else {
                    assert(nouveau[x] == ancien[x - 1] && nouveau[y] == ancien[y - 1]);
                }
            }
        }
        i = i + 1;
    }
    ordre
}

} // verus!

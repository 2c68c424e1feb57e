//! Rapprochements entre listes lues en base : les photos d'un objet, sa
//! photo de couverture, l'envoi correspondant à une photo demandée, le
//! compte de favoris d'un objet. Chaque rapprochement suit la sémantique
//! des tables d'association qu'il remplace : la dernière valeur d'une clé
//! l'emporte à la construction, la première à l'insertion conditionnelle,
//! et une clé retirée ne sert qu'une fois.

use vstd::prelude::*;

verus! {

/// `i` est la dernière position de `cle` dans `cles`.
pub open spec fn derniere_position(cles: Seq<u128>, cle: u128, i: int) -> bool {
    &&& 0 <= i < cles.len()
    &&& cles[i] == cle
    &&& forall|j: int| i < j < cles.len() ==> cles[j] != cle
}

pub open spec fn absente(cles: Seq<u128>, cle: u128) -> bool {
    forall|j: int| 0 <= j < cles.len() ==> cles[j] != cle
}

/// La dernière position de `cle` dans `cles` : là où une table construite
/// à partir de la liste trouve sa valeur.
pub fn derniere_occurrence(cles: &Vec<u128>, cle: u128) -> (r: Option<usize>)
    ensures
        match r {
            Some(i) => derniere_position(cles@, cle, i as int),
            None => absente(cles@, cle),
        },
{
    let mut i: usize = cles.len();
    while i > 0
        invariant
            i <= cles@.len(),
            forall|j: int| i <= j < cles@.len() ==> cles@[j] != cle,
        decreases i,
    {
        i = i - 1;
        if cles[i] == cle {
            return Some(i);
        }
    }
    None
}

/// Pour chaque identifiant demandé, la position de l'envoi retrouvé (la
/// dernière ligne de cet identifiant), ou rien : la photo est inconnue.
pub fn retrouver(demandes: &Vec<u128>, trouves: &Vec<u128>) -> (r: Vec<Option<usize>>)
    ensures
        r@.len() == demandes@.len(),
        forall|k: int| 0 <= k < r@.len() ==> match #[trigger] r@[k] {
            Some(i) => derniere_position(trouves@, demandes@[k], i as int),
            None => absente(trouves@, demandes@[k]),
        },
{
    let mut r: Vec<Option<usize>> = Vec::new();
    let mut k: usize = 0;
    while k < demandes.len()
        invariant
            k <= demandes@.len(),
            r@.len() == k,
            forall|x: int| 0 <= x < r@.len() ==> match #[trigger] r@[x] {
                Some(i) => derniere_position(trouves@, demandes@[x], i as int),
                None => absente(trouves@, demandes@[x]),
            },
        decreases demandes.len() - k,
    {
        r.push(derniere_occurrence(trouves, demandes[k]));
        k = k + 1;
    }
    r
}

/// L'objet `i` répète un identifiant déjà vu plus haut.
pub open spec fn doublon_anterieur(items: Seq<u128>, i: int) -> bool {
    exists|j: int| 0 <= j < i && items[j] == items[i]
}

/// `p` est la première photo de l'objet `id`.
pub open spec fn premiere_photo(photos: Seq<u128>, id: u128, p: int) -> bool {
    &&& 0 <= p < photos.len()
    &&& photos[p] == id
    &&& forall|j: int| 0 <= j < p ==> photos[j] != id
}

fn doublon_exec(items: &Vec<u128>, i: usize) -> (r: bool)
    requires
        i < items@.len(),
    ensures
        r == doublon_anterieur(items@, i as int),
{
    let mut j: usize = 0;
    while j < i
        invariant
            i < items@.len(),
            j <= i,
            forall|x: int| 0 <= x < j ==> items@[x] != items@[i as int],
        decreases i - j,
    {
        if items[j] == items[i] {
            return true;
        }
        j = j + 1;
    }
    false
}

fn premiere_exec(photos: &Vec<u128>, id: u128) -> (r: Option<usize>)
    ensures
        match r {
            Some(p) => premiere_photo(photos@, id, p as int),
            None => absente(photos@, id),
        },
{
    let mut p: usize = 0;
    while p < photos.len()
        invariant
            p <= photos@.len(),
            forall|j: int| 0 <= j < p ==> photos@[j] != id,
        decreases photos.len() - p,
    {
        if photos[p] == id {
            return Some(p);
        }
        p = p + 1;
    }
    None
}

/// La photo de couverture de chaque carte : la première photo de l'objet ;
/// un objet répété plus bas dans la liste n'en a plus (elle a été prise).
pub fn couvertures(items: &Vec<u128>, photos: &Vec<u128>) -> (r: Vec<Option<usize>>)
    ensures
        r@.len() == items@.len(),
        forall|i: int| 0 <= i < r@.len() ==> match #[trigger] r@[i] {
            Some(p) => !doublon_anterieur(items@, i) && premiere_photo(photos@, items@[i], p as int),
            None => doublon_anterieur(items@, i) || absente(photos@, items@[i]),
        },
{
    let mut r: Vec<Option<usize>> = Vec::new();
    let mut i: usize = 0;
    while i < items.len()
        invariant
            i <= items@.len(),
            r@.len() == i,
            forall|x: int| 0 <= x < r@.len() ==> match #[trigger] r@[x] {
                Some(p) => !doublon_anterieur(items@, x) && premiere_photo(photos@, items@[x], p as int),
                None => doublon_anterieur(items@, x) || absente(photos@, items@[x]),
            },
        decreases items.len() - i,
    {
        if doublon_exec(items, i) {
            r.push(None);
        } else {
            r.push(premiere_exec(photos, items[i]));
        }
        i = i + 1;
    }
    r
}

/// `g` énumère, dans l'ordre, exactement les photos de l'objet `id`.
pub open spec fn groupe_de(photos: Seq<u128>, id: u128, g: Seq<usize>) -> bool {
    &&& forall|j: int| 0 <= j < g.len() ==> (#[trigger] g[j]) < photos.len() && photos[g[j] as int] == id
    &&& forall|p: int| 0 <= p < photos.len() && photos[p] == id ==> g.contains(p as usize)
    &&& forall|a: int, b: int| 0 <= a < b < g.len() ==> g[a] < g[b]
}

fn groupe_exec(photos: &Vec<u128>, id: u128) -> (g: Vec<usize>)
    ensures
        groupe_de(photos@, id, g@),
{
    let mut g: Vec<usize> = Vec::new();
    let mut p: usize = 0;
    while p < photos.len()
        invariant
            p <= photos@.len(),
            forall|j: int| 0 <= j < g@.len() ==> (#[trigger] g@[j]) < p && photos@[g@[j] as int] == id,
            forall|x: int| 0 <= x < p && photos@[x] == id ==> g@.contains(x as usize),
            forall|a: int, b: int| 0 <= a < b < g@.len() ==> g@[a] < g@[b],
        decreases photos.len() - p,
    {
        let ghost avant = g@;
        if photos[p] == id {
            g.push(p);
            assert(g@[g@.len() - 1] == p);
        }
        assert forall|x: int| 0 <= x < p + 1 && photos@[x] == id implies g@.contains(x as usize) by {
            if x < p {
                let k = choose|k: int| 0 <= k < avant.len() && avant[k] == x as usize;
                assert(g@[k] == x as usize);
            } else {
                assert(g@[g@.len() - 1] == p);
            }
        }
        p = p + 1;
    }
    g
}

/// Les photos de chaque objet, dans l'ordre de la liste des photos ; un
/// objet répété plus bas n'en a plus (elles ont été prises).
pub fn photos_groupees(items: &Vec<u128>, photos: &Vec<u128>) -> (r: Vec<Vec<usize>>)
    ensures
        r@.len() == items@.len(),
        forall|i: int| 0 <= i < r@.len() ==> {
            if doublon_anterieur(items@, i) {
                (#[trigger] r@[i])@.len() == 0
            } else {
                groupe_de(photos@, items@[i], r@[i]@)
            }
        },
{
    let mut r: Vec<Vec<usize>> = Vec::new();
    let mut i: usize = 0;
    while i < items.len()
        invariant
            i <= items@.len(),
            r@.len() == i,
            forall|x: int| 0 <= x < r@.len() ==> {
                if doublon_anterieur(items@, x) {
                    (#[trigger] r@[x])@.len() == 0
                } else {
                    groupe_de(photos@, items@[x], r@[x]@)
                }
            },
        decreases items.len() - i,
    {
        if doublon_exec(items, i) {
            r.push(Vec::new());
        } else {
            r.push(groupe_exec(photos, items[i]));
        }
        i = i + 1;
    }
    r
}

/// Le nombre de favoris d'un objet, lu dans les comptes renvoyés par la
/// base (la dernière ligne de l'objet) ; zéro s'il n'y figure pas.
pub fn compte_favoris(cles: &Vec<u128>, comptes: &Vec<i64>, id: u128) -> (r: i64)
    requires
        cles@.len() == comptes@.len(),
    ensures
        absente(cles@, id) ==> r == 0,
        !absente(cles@, id) ==> exists|i: int| derniere_position(cles@, id, i) && r == comptes@[i],
{
    match derniere_occurrence(cles, id) {
        Some(i) => comptes[i],
        None => 0,
    }
}

/// Les photos demandées qui ne sont pas déjà rattachées à l'objet : ce sont
/// des envois frais, à retrouver et vérifier. L'ordre est gardé.
pub fn photos_fraiches(demandes: &Vec<u128>, existantes: &Vec<u128>) -> (r: Vec<u128>)
    ensures
        r@ == demandes@.filter(|id: u128| absente(existantes@, id)),
{
    let mut r: Vec<u128> = Vec::new();
    let mut k: usize = 0;
    while k < demandes.len()
        invariant
            k <= demandes@.len(),
            r@ == demandes@.take(k as int).filter(|id: u128| absente(existantes@, id)),
        decreases demandes.len() - k,
    {
        let id = demandes[k];
        let trouve = derniere_occurrence(existantes, id);
        assert(demandes@.take(k + 1).drop_last() =~= demandes@.take(k as int));
        reveal_with_fuel(Seq::filter, 1);
        if trouve.is_none() {
            r.push(id);
        }
        k = k + 1;
    }
    assert(demandes@.take(k as int) =~= demandes@);
    r
}

/// D'où vient une photo de la nouvelle liste.
#[derive(Debug, Clone, Copy, PartialEq, Eq)]
pub enum SourcePhoto {
    /// Déjà rattachée à l'objet (position parmi les photos existantes).
    Existante(usize),
    /// Envoi frais retrouvé (position parmi les envois).
    Fraiche(usize),
}

/// La place de la photo `id` : existante d'abord, sinon envoi frais ;
/// `None` si elle n'est ni l'une ni l'autre.
pub open spec fn source_attendue(existantes: Seq<u128>, fraiches: Seq<u128>, id: u128, s: Option<SourcePhoto>) -> bool {
    match s {
        Some(SourcePhoto::Existante(i)) => derniere_position(existantes, id, i as int),
        Some(SourcePhoto::Fraiche(i)) => absente(existantes, id) && derniere_position(fraiches, id, i as int),
        None => absente(existantes, id) && absente(fraiches, id),
    }
}

/// La nouvelle liste ordonnée des photos d'un objet : pour chaque photo
/// demandée, dans l'ordre, sa source ; celles qui n'ont pas de source sont
/// omises.
pub fn ordre_photos(demandes: &Vec<u128>, existantes: &Vec<u128>, fraiches: &Vec<u128>) -> (r: Vec<Option<SourcePhoto>>)
    ensures
        r@.len() == demandes@.len(),
        forall|k: int| 0 <= k < r@.len() ==> source_attendue(existantes@, fraiches@, demandes@[k], #[trigger] r@[k]),
{
    let mut r: Vec<Option<SourcePhoto>> = Vec::new();
    let mut k: usize = 0;
    while k < demandes.len()
        invariant
            k <= demandes@.len(),
            r@.len() == k,
            forall|x: int| 0 <= x < r@.len() ==> source_attendue(existantes@, fraiches@, demandes@[x], #[trigger] r@[x]),
        decreases demandes.len() - k,
    {
        let id = demandes[k];
        let s = match derniere_occurrence(existantes, id) {
            Some(i) => Some(SourcePhoto::Existante(i)),
            None => match derniere_occurrence(fraiches, id) {
                Some(i) => Some(SourcePhoto::Fraiche(i)),
                None => None,
            },
        };
        r.push(s);
        k = k + 1;
    }
    r
}

} // verus!

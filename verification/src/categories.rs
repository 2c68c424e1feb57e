//! L'arbre des catégories, construit depuis la liste à plat de la base :
//! chaque catégorie porte ses sous-catégories, et une catégorie sans
//! fourchette de valeur hérite de celle de sa racine.

use vstd::prelude::*;

verus! {

/// Une catégorie telle que la base la renvoie.
pub struct Categorie {
    pub id: i16,
    pub parent_id: Option<i16>,
    pub slug: String,
    pub label: String,
    pub icon: Option<String>,
    pub value_min_cents: Option<i32>,
    pub value_max_cents: Option<i32>,
}

/// Un nœud de l'arbre servi au client.
pub struct CategoryNode {
    pub id: i16,
    pub slug: String,
    pub label: String,
    pub icon: Option<String>,
    pub value_min_cents: Option<i32>,
    pub value_max_cents: Option<i32>,
    pub children: Vec<CategoryNode>,
}

// ————— Remontée vers la racine —————

/// `i` est la première catégorie portant l'identifiant `id`.
pub open spec fn premier_d_id(flat: Seq<Categorie>, id: i16, i: int) -> bool {
    &&& 0 <= i < flat.len()
    &&& flat[i].id == id
    &&& forall|j: int| 0 <= j < i ==> (#[trigger] flat[j]).id != id
}

/// Le parent de la catégorie `k` : la première catégorie qui porte
/// l'identifiant de son parent ; aucun si elle est racine ou si ce parent
/// n'existe pas.
pub open spec fn parent_de(flat: Seq<Categorie>, k: int) -> Option<int> {
    match flat[k].parent_id {
        None => None,
        Some(p) => if exists|i: int| premier_d_id(flat, p, i) {
            Some(choose|i: int| premier_d_id(flat, p, i))
        } else {
            None
        },
    }
}

/// L'ancêtre atteint en remontant au plus `s` fois depuis `k` (on s'arrête
/// à une catégorie sans parent trouvé).
pub open spec fn ancetre(flat: Seq<Categorie>, k: int, s: nat) -> int
    decreases s,
{
    if s == 0 {
        k
    } else {
        match parent_de(flat, k) {
            Some(p) => ancetre(flat, p, (s - 1) as nat),
            None => k,
        }
    }
}

/// Toute remontée aboutit en au plus `n` étapes (n : le nombre de
/// catégories) : sans cela, la remontée ne termine pas.
pub open spec fn remontees_finies(flat: Seq<Categorie>) -> bool {
    forall|k: int| 0 <= k < flat.len() ==> (#[trigger] parent_de(flat, ancetre(flat, k, flat.len()))) is None
}

/// La racine d'une catégorie : là où la remontée s'arrête.
pub open spec fn racine(flat: Seq<Categorie>, k: int) -> int {
    ancetre(flat, k, flat.len())
}

proof fn parent_dans_la_liste(flat: Seq<Categorie>, k: int)
    requires
        0 <= k < flat.len(),
    ensures
        parent_de(flat, k) matches Some(p) ==> 0 <= p < flat.len(),
{
    if let Some(pid) = flat[k].parent_id {
        if exists|i: int| premier_d_id(flat, pid, i) {
            let i = choose|i: int| premier_d_id(flat, pid, i);
        }
    }
}

proof fn ancetre_dans_la_liste(flat: Seq<Categorie>, k: int, s: nat)
    requires
        0 <= k < flat.len(),
    ensures
        0 <= ancetre(flat, k, s) < flat.len(),
    decreases s,
{
    if s > 0 {
        parent_dans_la_liste(flat, k);
        if let Some(p) = parent_de(flat, k) {
            ancetre_dans_la_liste(flat, p, (s - 1) as nat);
        }
    }
}

/// Remonter une étape de plus depuis l'ancêtre atteint.
proof fn ancetre_suivant(flat: Seq<Categorie>, k: int, s: nat)
    ensures
        ancetre(flat, k, s + 1) == (match parent_de(flat, ancetre(flat, k, s)) {
            Some(p) => p,
            None => ancetre(flat, k, s),
        }),
    decreases s,
{
    if s > 0 {
        if let Some(p) = parent_de(flat, k) {
            ancetre_suivant(flat, p, (s - 1) as nat);
        }
    } else {
        reveal_with_fuel(ancetre, 2);
    }
}

/// Une fois au sommet, on y reste.
proof fn sommet_stable(flat: Seq<Categorie>, k: int, s: nat, t: nat)
    requires
        s <= t,
        parent_de(flat, ancetre(flat, k, s)) is None,
    ensures
        ancetre(flat, k, t) == ancetre(flat, k, s),
    decreases t - s,
{
    if s < t {
        ancetre_suivant(flat, k, s);
        sommet_stable(flat, k, s + 1, t);
    }
}

fn premier_exec(flat: &Vec<Categorie>, id: i16) -> (r: Option<usize>)
    ensures
        match r {
            Some(i) => premier_d_id(flat@, id, i as int),
            None => !exists|i: int| premier_d_id(flat@, id, i),
        },
{
    let mut i: usize = 0;
    while i < flat.len()
        invariant
            i <= flat@.len(),
            forall|j: int| 0 <= j < i ==> (#[trigger] flat@[j]).id != id,
        decreases flat.len() - i,
    {
        if flat[i].id == id {
            return Some(i);
        }
        i = i + 1;
    }
    None
}

fn parent_exec(flat: &Vec<Categorie>, k: usize) -> (r: Option<usize>)
    requires
        k < flat@.len(),
    ensures
        r matches Some(p) ==> p < flat@.len(),
        match r {
            Some(p) => parent_de(flat@, k as int) == Some(p as int),
            None => parent_de(flat@, k as int) is None,
        },
{
    match flat[k].parent_id {
        None => None,
        Some(pid) => {
            let r = premier_exec(flat, pid);
            proof {
                if let Some(p) = r {
                    let c = choose|i: int| premier_d_id(flat@, pid, i);
                    if c < p {
                        assert(flat@[c].id != pid);
                    } else if c > p {
                        assert(flat@[p as int].id != pid);
                    }
                }
            }
            r
        },
    }
}

/// La racine de la catégorie `k`.
fn racine_exec(flat: &Vec<Categorie>, k: usize) -> (r: usize)
    requires
        k < flat@.len(),
        remontees_finies(flat@),
    ensures
        r as int == racine(flat@, k as int),
        r < flat@.len(),
{
    let n = flat.len();
    let mut courant = k;
    let mut pas: usize = 0;
    assert(parent_de(flat@, ancetre(flat@, k as int, n as nat)) is None);
    loop
        invariant
            n == flat@.len(),
            k < n,
            pas <= n,
            courant < n,
            courant as int == ancetre(flat@, k as int, pas as nat),
            parent_de(flat@, ancetre(flat@, k as int, n as nat)) is None,
        decreases n - pas,
    {
        proof {
            ancetre_suivant(flat@, k as int, pas as nat);
        }
        match parent_exec(flat, courant) {
            None => {
                proof {
                    sommet_stable(flat@, k as int, pas as nat, n as nat);
                }
                return courant;
            },
            Some(p) => {
                assert(pas < n);
                courant = p;
                pas = pas + 1;
            },
        }
    }
}

// ————— Fourchettes —————

/// `i` est la dernière catégorie d'identifiant `id` (avec `racine_seule`,
/// parmi les racines seulement).
pub open spec fn dernier_d_id(flat: Seq<Categorie>, id: i16, racine_seule: bool, i: int) -> bool {
    &&& 0 <= i < flat.len()
    &&& flat[i].id == id && (racine_seule ==> flat[i].parent_id is None)
    &&& forall|j: int| i < j < flat.len() ==> !((#[trigger] flat[j]).id == id && (racine_seule ==> flat[j].parent_id is None))
}

pub open spec fn dernier(flat: Seq<Categorie>, id: i16, racine_seule: bool) -> Option<int> {
    if exists|i: int| dernier_d_id(flat, id, racine_seule, i) {
        Some(choose|i: int| dernier_d_id(flat, id, racine_seule, i))
    } else {
        None
    }
}

/// La fourchette affichée d'une catégorie : la sienne si elle a un
/// minimum ; sinon celle de la racine de sa dernière homonyme (telle que
/// la dernière racine de cet identifiant la porte) ; sinon aucune.
pub open spec fn fourchette(flat: Seq<Categorie>, k: int) -> (Option<i32>, Option<i32>) {
    match flat[k].value_min_cents {
        Some(m) => (Some(m), flat[k].value_max_cents),
        None => match dernier(flat, flat[k].id, false) {
            Some(j) => match dernier(flat, flat[racine(flat, j)].id, true) {
                Some(r) => (flat[r].value_min_cents, flat[r].value_max_cents),
                None => (None, None),
            },
            None => (None, None),
        },
    }
}

fn dernier_exec(flat: &Vec<Categorie>, id: i16, racine_seule: bool) -> (r: Option<usize>)
    ensures
        r matches Some(i) ==> i < flat@.len(),
        match r {
            Some(i) => dernier(flat@, id, racine_seule) == Some(i as int),
            None => dernier(flat@, id, racine_seule) is None,
        },
{
    let mut i: usize = flat.len();
    while i > 0
        invariant
            i <= flat@.len(),
            forall|j: int| i <= j < flat@.len() ==> !((#[trigger] flat@[j]).id == id && (racine_seule ==> flat@[j].parent_id is None)),
        decreases i,
    {
        i = i - 1;
        if flat[i].id == id && (!racine_seule || flat[i].parent_id.is_none()) {
            proof {
                assert(dernier_d_id(flat@, id, racine_seule, i as int));
                let c = choose|c: int| dernier_d_id(flat@, id, racine_seule, c);
                if c < i {
                    assert(!((flat@[i as int]).id == id && (racine_seule ==> flat@[i as int].parent_id is None)));
                } else if c > i {
                    assert(!((flat@[c]).id == id && (racine_seule ==> flat@[c].parent_id is None)));
                }
            }
            return Some(i);
        }
    }
    None
}

fn fourchette_exec(flat: &Vec<Categorie>, k: usize) -> (r: (Option<i32>, Option<i32>))
    requires
        k < flat@.len(),
        remontees_finies(flat@),
    ensures
        r == fourchette(flat@, k as int),
{
    match flat[k].value_min_cents {
        Some(m) => (Some(m), flat[k].value_max_cents),
        None => match dernier_exec(flat, flat[k].id, false) {
            Some(j) => {
                let racine = racine_exec(flat, j);
                match dernier_exec(flat, flat[racine].id, true) {
                    Some(r) => (flat[r].value_min_cents, flat[r].value_max_cents),
                    None => (None, None),
                }
            },
            None => (None, None),
        },
    }
}

// ————— L'arbre —————

pub open spec fn vue_icone(t: Option<String>) -> Option<Seq<char>> {
    match t {
        Some(s) => Some(s@),
        None => None,
    }
}

/// Les catégories dont le parent déclaré est `parent`, dans l'ordre de la liste.
pub open spec fn enfants(flat: Seq<Categorie>, parent: Option<i16>) -> Seq<int> {
    Seq::new(flat.len(), |k: int| k).filter(|k: int| flat[k].parent_id == parent)
}

/// Le nœud `n` présente la catégorie `k` et, jusqu'à `profondeur` niveaux,
/// ses sous-catégories.
pub open spec fn noeud_conforme(flat: Seq<Categorie>, k: int, n: CategoryNode, profondeur: nat) -> bool
    decreases profondeur, 0int,
{
    &&& n.id == flat[k].id
    &&& n.slug@ == flat[k].slug@
    &&& n.label@ == flat[k].label@
    &&& vue_icone(n.icon) == vue_icone(flat[k].icon)
    &&& (n.value_min_cents, n.value_max_cents) == fourchette(flat, k)
    &&& if profondeur == 0 {
        n.children@.len() == 0
    } else {
        foret_conforme(flat, Some(flat[k].id), n.children@, (profondeur - 1) as nat)
    }
}

/// `noeuds` présente, dans l'ordre, les catégories de parent `parent`.
pub open spec fn foret_conforme(flat: Seq<Categorie>, parent: Option<i16>, noeuds: Seq<CategoryNode>, profondeur: nat) -> bool
    decreases profondeur, 1int,
{
    let e = enfants(flat, parent);
    &&& noeuds.len() == e.len()
    &&& forall|j: int| 0 <= j < noeuds.len() ==> noeud_conforme(flat, e[j], #[trigger] noeuds[j], profondeur)
}

fn copie_option(t: &Option<String>) -> (r: Option<String>)
    ensures
        vue_icone(r) == vue_icone(*t),
{
    match t {
        Some(s) => Some(s.clone()),
        None => None,
    }
}

fn foret(flat: &Vec<Categorie>, parent: Option<i16>, profondeur: usize) -> (r: Vec<CategoryNode>)
    requires
        remontees_finies(flat@),
    ensures
        foret_conforme(flat@, parent, r@, profondeur as nat),
    decreases profondeur, 1int,
{
    let ghost e = enfants(flat@, parent);
    let ghost tous = Seq::new(flat@.len(), |k: int| k);
    let mut r: Vec<CategoryNode> = Vec::new();
    let mut k: usize = 0;
    while k < flat.len()
        invariant
            remontees_finies(flat@),
            k <= flat@.len(),
            tous == Seq::new(flat@.len(), |x: int| x),
            r@.len() == tous.take(k as int).filter(|x: int| flat@[x].parent_id == parent).len(),
            forall|j: int| 0 <= j < r@.len() ==> noeud_conforme(flat@, tous.take(k as int).filter(|x: int| flat@[x].parent_id == parent)[j], #[trigger] r@[j], profondeur as nat),
        decreases flat.len() - k,
    {
        let ghost avant = tous.take(k as int).filter(|x: int| flat@[x].parent_id == parent);
        assert(tous.take(k + 1).drop_last() =~= tous.take(k as int));
        assert(tous.take(k + 1).last() == k as int);
        reveal_with_fuel(Seq::filter, 1);
        if flat[k].parent_id == parent {
            let n = noeud(flat, k, profondeur);
            r.push(n);
            assert(tous.take(k + 1).filter(|x: int| flat@[x].parent_id == parent) == avant.push(k as int));
        } else {
            assert(tous.take(k + 1).filter(|x: int| flat@[x].parent_id == parent) == avant);
        }
        k = k + 1;
    }
    assert(tous.take(k as int) =~= tous);
    r
}

fn noeud(flat: &Vec<Categorie>, k: usize, profondeur: usize) -> (n: CategoryNode)
    requires
        k < flat@.len(),
        remontees_finies(flat@),
    ensures
        noeud_conforme(flat@, k as int, n, profondeur as nat),
    decreases profondeur, 0int,
{
    let (min, max) = fourchette_exec(flat, k);
    let children = if profondeur == 0 {
        Vec::new()
    } else {
        foret(flat, Some(flat[k].id), profondeur - 1)
    };
    CategoryNode {
        id: flat[k].id,
        slug: flat[k].slug.clone(),
        label: flat[k].label.clone(),
        icon: copie_option(&flat[k].icon),
        value_min_cents: min,
        value_max_cents: max,
        children,
    }
}

/// L'arbre des catégories : les racines dans l'ordre de la liste, chacune
/// avec ses sous-catégories, et les fourchettes héritées. La remontée des
/// catégories vers leur racine doit aboutir (sans quoi elle ne termine
/// pas) ; la descente s'arrête au plus à autant de niveaux qu'il y a de
/// catégories.
pub fn arbre_categories(flat: &Vec<Categorie>) -> (r: Vec<CategoryNode>)
    requires
        remontees_finies(flat@),
        flat@.len() < usize::MAX,
    ensures
        foret_conforme(flat@, None, r@, flat@.len()),
{
    foret(flat, None, flat.len())
}

// ————— Profondeur de l'arbre —————

/// Chaque identifiant de catégorie est porté une seule fois.
pub open spec fn ids_uniques(flat: Seq<Categorie>) -> bool {
    forall|i: int, j: int| 0 <= i < j < flat.len() ==> (#[trigger] flat[i]).id != (#[trigger] flat[j]).id
}

/// `c` descend d'une racine de sous-catégorie en sous-catégorie.
pub open spec fn descente(flat: Seq<Categorie>, c: Seq<int>) -> bool {
    &&& c.len() >= 1
    &&& forall|i: int| 0 <= i < c.len() ==> 0 <= #[trigger] c[i] < flat.len()
    &&& flat[c[0]].parent_id is None
    &&& forall|i: int| 1 <= i < c.len() ==> flat[#[trigger] c[i]].parent_id == Some(flat[c[i - 1]].id)
}

proof fn descente_sans_repetition(flat: Seq<Categorie>, c: Seq<int>, i: int, j: int)
    requires
        ids_uniques(flat),
        descente(flat, c),
        0 <= i < j < c.len(),
    ensures
        c[i] != c[j],
    decreases i,
{
    if c[i] == c[j] {
        if i == 0 {
            assert(flat[c[j]].parent_id == Some(flat[c[j - 1]].id));
        } else {
            assert(flat[c[i]].parent_id == Some(flat[c[i - 1]].id));
            assert(flat[c[j]].parent_id == Some(flat[c[j - 1]].id));
            if c[i - 1] != c[j - 1] {
                if c[i - 1] < c[j - 1] {
                    assert(flat[c[i - 1]].id != flat[c[j - 1]].id);
                } else {
                    assert(flat[c[j - 1]].id != flat[c[i - 1]].id);
                }
            }
            descente_sans_repetition(flat, c, i - 1, j - 1);
        }
    }
}

/// Avec des identifiants uniques, une descente depuis une racine ne passe
/// jamais deux fois par la même catégorie : elle compte au plus autant de
/// niveaux qu'il y a de catégories. L'arbre construit à cette profondeur
/// est donc complet.
pub proof fn profondeur_bornee(flat: Seq<Categorie>, c: Seq<int>)
    requires
        ids_uniques(flat),
        descente(flat, c),
    ensures
        c.len() <= flat.len(),
{
    assert forall|i: int, j: int| 0 <= i < c.len() && 0 <= j < c.len() && i != j implies c[i] != c[j] by {
        if i < j {
            descente_sans_repetition(flat, c, i, j);
        } else {
            descente_sans_repetition(flat, c, j, i);
        }
    }
    assert(c.no_duplicates());
    c.unique_seq_to_set();
    let plage = vstd::set_lib::set_int_range(0, flat.len() as int);
    vstd::set_lib::lemma_int_range(0, flat.len() as int);
    assert(c.to_set().subset_of(plage));
    vstd::set_lib::lemma_len_subset(c.to_set(), plage);
}

} // verus!

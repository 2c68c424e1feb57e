//! Garde-fou de débit du back-office : fenêtre glissante de 60 secondes,
//! 120 requêtes au plus par origine. À l'échelle d'une équipe
//! d'administration, dépasser ce débit est un script fou ou une clé volée.
//!
//! Les instants sont des nanosecondes d'une horloge monotone, comptées
//! depuis le démarrage du service.

use vstd::prelude::*;
use crate::erreurs::{est_erreur, ApiError, GenreErreur};
use crate::texte::{debut, debut_exec, meme_texte};

verus! {

/// Largeur de la fenêtre glissante, en nanosecondes (60 s).
pub const FENETRE_NANOS: u64 = 60_000_000_000;
/// Requêtes admises par origine dans la fenêtre.
pub const MAX_REQUETES: usize = 120;
/// Longueur gardée du cookie qui identifie une origine.
pub const ORIGINE_MAX: usize = 64;

/// L'origine d'une requête : le cookie de session s'il existe (ses 64
/// premiers caractères), sinon l'adresse du client, sinon `inconnu`.
pub fn origine(cookie: Option<&str>, adresse: Option<&str>) -> (r: String)
    ensures
        r@ == (match cookie {
            Some(c) => debut(c@, ORIGINE_MAX as nat),
            None => match adresse {
                Some(a) => a@,
                None => "inconnu"@,
            },
        }),
{
    match cookie {
        Some(c) => debut_exec(c, ORIGINE_MAX),
        None => match adresse {
            Some(a) => a.to_owned(),
            None => "inconnu".to_owned(),
        },
    }
}

/// Les instants d'un historique encore dans la fenêtre à `maintenant` (un
/// instant postérieur compte pour une durée nulle, donc reste).
pub open spec fn recentes(h: Seq<u64>, maintenant: u64) -> Seq<u64> {
    h.filter(|t: u64| maintenant - t < FENETRE_NANOS)
}

/// L'historique d'une origine ; vide si elle n'a rien demandé.
pub open spec fn historique(m: Map<Seq<char>, Seq<u64>>, k: Seq<char>) -> Seq<u64> {
    if m.dom().contains(k) {
        m[k]
    } else {
        Seq::empty()
    }
}

/// La table des requêtes récentes, par origine.
pub struct Debit {
    origines: Vec<String>,
    historiques: Vec<Vec<u64>>,
}

pub open spec fn erreur_trop_de_requetes(e: ApiError) -> bool {
    est_erreur(
        e,
        GenreErreur::TropDeRequetes,
        "trop_de_requetes"@,
        "Trop de requêtes d'administration — réessaie dans une minute."@,
    )
}

impl Debit {
    /// Les origines sont distinctes, chacune avec un historique non vide.
    pub closed spec fn bien_forme(&self) -> bool {
        &&& self.origines@.len() == self.historiques@.len()
        &&& forall|i: int, j: int| 0 <= i < j < self.origines@.len() ==> self.origines@[i]@ != self.origines@[j]@
        &&& forall|i: int| 0 <= i < self.historiques@.len() ==> (#[trigger] self.historiques@[i])@.len() > 0
    }

    /// La table vue comme une fonction des origines vers leurs historiques.
    pub closed spec fn vue(&self) -> Map<Seq<char>, Seq<u64>> {
        Map::new(
            |k: Seq<char>| exists|i: int| 0 <= i < self.origines@.len() && self.origines@[i]@ == k,
            |k: Seq<char>| self.historiques@[choose|i: int| 0 <= i < self.origines@.len() && self.origines@[i]@ == k]@,
        )
    }

    /// Aucune origine ne garde d'historique vide : une origine absente et une
    /// origine sans requête récente ne se distinguent pas.
    pub proof fn historiques_non_vides(&self, k: Seq<char>)
        requires
            self.bien_forme(),
            self.vue().dom().contains(k),
        ensures
            self.vue()[k].len() > 0,
    {
        let i = choose|i: int| 0 <= i < self.origines@.len() && self.origines@[i]@ == k;
        assert(self.historiques@[i]@.len() > 0);
    }

    proof fn valeur_en(&self, i: int)
        requires
            self.bien_forme(),
            0 <= i < self.origines@.len(),
        ensures
            self.vue().dom().contains(self.origines@[i]@),
            self.vue()[self.origines@[i]@] == self.historiques@[i]@,
    {
        let k = self.origines@[i]@;
        assert(exists|j: int| 0 <= j < self.origines@.len() && self.origines@[j]@ == k);
        let j = choose|j: int| 0 <= j < self.origines@.len() && self.origines@[j]@ == k;
        if j < i {
            assert(self.origines@[j]@ != self.origines@[i]@);
        } else if j > i {
            assert(self.origines@[i]@ != self.origines@[j]@);
        }
    }

    /// Une table vide.
    pub fn new() -> (d: Debit)
        ensures
            d.bien_forme(),
            d.vue() == Map::<Seq<char>, Seq<u64>>::empty(),
    {
        let d = Debit { origines: Vec::new(), historiques: Vec::new() };
        assert(d.vue() =~= Map::<Seq<char>, Seq<u64>>::empty());
        d
    }

    fn position(&self, origine: &str) -> (r: Option<usize>)
        requires
            self.bien_forme(),
        ensures
            match r {
                Some(i) => i < self.origines@.len() && self.origines@[i as int]@ == origine@,
                None => !self.vue().dom().contains(origine@),
            },
    {
        let mut i: usize = 0;
        while i < self.origines.len()
            invariant
                self.bien_forme(),
                i <= self.origines@.len(),
                forall|j: int| 0 <= j < i ==> (#[trigger] self.origines@[j])@ != origine@,
            decreases self.origines.len() - i,
        {
            if meme_texte(self.origines[i].as_str(), origine) {
                return Some(i);
            }
            i = i + 1;
        }
        None
    }

    /// Une requête de `origine` à l'instant `maintenant`. Son historique est
    /// d'abord réduit à la fenêtre ; s'il compte déjà 120 requêtes, la
    /// requête est refusée (l'historique réduit est gardé) ; sinon elle est
    /// admise et ajoutée.
    pub fn demander(&mut self, origine: &str, maintenant: u64) -> (r: Result<(), ApiError>)
        requires
            old(self).bien_forme(),
        ensures
            final(self).bien_forme(),
            ({
                let h = recentes(historique(old(self).vue(), origine@), maintenant);
                &&& (r is Ok <==> h.len() < MAX_REQUETES)
                &&& (r is Ok ==> final(self).vue() == old(self).vue().insert(origine@, h.push(maintenant)))
                &&& (r is Err ==> final(self).vue() == old(self).vue().insert(origine@, h))
            }),
            r matches Err(e) ==> erreur_trop_de_requetes(e),
            r is Ok ==> historique(final(self).vue(), origine@).len() <= MAX_REQUETES,
    {
        let ghost ancienne = old(self).vue();
        let pos = self.position(origine);
        let ghost h0 = historique(ancienne, origine@);
        let ancien: Vec<u64> = match pos {
            Some(i) => {
                proof {
                    self.valeur_en(i as int);
                }
                self.historiques[i].clone()
            },
            None => Vec::new(),
        };
        assert(ancien@ == h0);
        // Réduction à la fenêtre.
        let mut h: Vec<u64> = Vec::new();
        let mut k: usize = 0;
        while k < ancien.len()
            invariant
                k <= ancien@.len(),
                h@ == recentes(ancien@.take(k as int), maintenant),
            decreases ancien.len() - k,
        {
            let t = ancien[k];
            assert(ancien@.take(k + 1).drop_last() =~= ancien@.take(k as int));
            reveal_with_fuel(Seq::filter, 1);
            if t > maintenant || maintenant - t < FENETRE_NANOS {
                h.push(t);
            }
            k = k + 1;
        }
        assert(ancien@.take(k as int) =~= ancien@);
        let ghost reduit = h@;
        assert(reduit == recentes(h0, maintenant));
        let admise = h.len() < MAX_REQUETES;
        if admise {
            h.push(maintenant);
        }
        let ghost nouveau = h@;
        assert(nouveau.len() > 0) by {
            if !admise {
                assert(reduit.len() >= MAX_REQUETES);
            }
        }
        match pos {
            Some(i) => {
                let ghost avant_o = self.origines@;
                let ghost avant_h = self.historiques@;
                self.historiques.set(i, h);
                proof {
                    assert(self.origines@ == avant_o);
                    assert forall|x: int| 0 <= x < self.historiques@.len() implies (#[trigger] self.historiques@[x])@.len() > 0 by {
                        if x != i {
                            assert(self.historiques@[x] == avant_h[x]);
                        }
                    }
                    assert forall|key: Seq<char>| #![auto] self.vue().dom().contains(key) == ancienne.insert(origine@, nouveau).dom().contains(key) by {
                        if key == origine@ {
                            assert(self.origines@[i as int]@ == key);
                        }
                    }
                    assert forall|key: Seq<char>| #![auto] self.vue().dom().contains(key) implies self.vue()[key] == ancienne.insert(origine@, nouveau)[key] by {
                        let j = choose|j: int| 0 <= j < self.origines@.len() && self.origines@[j]@ == key;
                        self.valeur_en(j);
                        if j == i {
                        } else {
                            assert(key != origine@) by {
                                if i < j {
                                    assert(self.origines@[i as int]@ != self.origines@[j]@);
                                } else {
                                    assert(self.origines@[j]@ != self.origines@[i as int]@);
                                }
                            }
                        }
                    }
                    assert(self.vue() =~= ancienne.insert(origine@, nouveau));
                }
            },
            None => {
                let ghost avant_o = self.origines@;
                let ghost avant_h = self.historiques@;
                self.origines.push(origine.to_owned());
                self.historiques.push(h);
                proof {
                    let n = avant_o.len() as int;
                    assert forall|x: int, y: int| 0 <= x < y < self.origines@.len() implies self.origines@[x]@ != self.origines@[y]@ by {
                        if y == n {
                            assert(self.origines@[x] == avant_o[x]);
                            assert(!ancienne.dom().contains(origine@));
                            if avant_o[x]@ == origine@ {
                                assert(exists|z: int| 0 <= z < avant_o.len() && avant_o[z]@ == origine@);
                            }
                        } else {
                            assert(self.origines@[x] == avant_o[x] && self.origines@[y] == avant_o[y]);
                        }
                    }
                    assert forall|x: int| 0 <= x < self.historiques@.len() implies (#[trigger] self.historiques@[x])@.len() > 0 by {
                        if x < n {
                            assert(self.historiques@[x] == avant_h[x]);
                        }
                    }
                    assert forall|key: Seq<char>| #![auto] self.vue().dom().contains(key) == ancienne.insert(origine@, nouveau).dom().contains(key) by {
                        if key == origine@ {
                            assert(self.origines@[n]@ == key);
                        } else {
                            if self.vue().dom().contains(key) {
                                let j = choose|j: int| 0 <= j < self.origines@.len() && self.origines@[j]@ == key;
                                assert(j != n);
                                assert(avant_o[j]@ == key);
                            }
                            if ancienne.dom().contains(key) {
                                let j = choose|j: int| 0 <= j < avant_o.len() && avant_o[j]@ == key;
                                assert(self.origines@[j]@ == key);
                            }
                        }
                    }
                    assert forall|key: Seq<char>| #![auto] self.vue().dom().contains(key) implies self.vue()[key] == ancienne.insert(origine@, nouveau)[key] by {
                        let j = choose|j: int| 0 <= j < self.origines@.len() && self.origines@[j]@ == key;
                        self.valeur_en(j);
                        if j < n {
                            assert(key != origine@);
                            assert(self.origines@[j] == avant_o[j]);
                            assert(self.historiques@[j] == avant_h[j]);
                            assert(ancienne.dom().contains(key)) by {
                                assert(avant_o[j]@ == key);
                            }
                            let j2 = choose|j2: int| 0 <= j2 < avant_o.len() && avant_o[j2]@ == key;
                            if j2 != j {
                                if j2 < j {
                                    assert(self.origines@[j2]@ != self.origines@[j]@);
                                } else {
                                    assert(self.origines@[j]@ != self.origines@[j2]@);
                                }
                            }
                        }
                    }
                    assert(self.vue() =~= ancienne.insert(origine@, nouveau));
                }
            },
        }
        if admise {
            Ok(())
        } else {
            Err(ApiError::too_many("trop_de_requetes", "Trop de requêtes d'administration — réessaie dans une minute."))
        }
    }
}

} // verus!

//! Modération des messages : masquage des coordonnées avant acceptation
//! (téléphone, e-mail, IBAN) — l'indicateur clé du risque de contournement.
//!
//! La recherche et le remplacement sont ceux de la bibliothèque `regex` ;
//! le contrat les désigne par leur résultat sur le motif et le texte.

use vstd::prelude::*;

verus! {

/// Ce qui remplace une coordonnée masquée.
pub const MASQUE: &'static str = "•••••••";

/// 06 12 34 56 78, 06.12.34.56.78, 0612345678, +33 6 12 34 56 78…
pub const MOTIF_TELEPHONE: &'static str = r"(?:\+\s?33[\s.\-]?|0)\s?[1-9](?:[\s.\-]?\d{2}){4}";
pub const MOTIF_EMAIL: &'static str = r"[A-Za-z0-9._%+\-]+@[A-Za-z0-9.\-]+\.[A-Za-z]{2,}";
pub const MOTIF_IBAN: &'static str = r"\b[A-Za-z]{2}\d{2}(?:\s?[A-Za-z0-9]{4}){2,8}(?:\s?[A-Za-z0-9]{1,3})?\b";

#[verifier::external_type_specification]
#[verifier::external_body]
pub struct ExRegex(regex::Regex);

/// `Regex::new` réussit sur ce motif.
pub uninterp spec fn motif_compilable(motif: Seq<char>) -> bool;

/// `Regex::is_match` : le motif trouve au moins une correspondance dans le texte.
pub uninterp spec fn motif_trouve(motif: Seq<char>, texte: Seq<char>) -> bool;

/// `Regex::replace_all` : le texte où chaque correspondance du motif est
/// remplacée par `par`.
pub uninterp spec fn motif_remplace(motif: Seq<char>, texte: Seq<char>, par: Seq<char>) -> Seq<char>;

/// Une expression rationnelle compilée, avec le motif dont elle provient.
/// Seule `compiler` en fabrique : `re` est toujours la compilation de `source`.
pub struct Motif {
    source: String,
    re: regex::Regex,
}

impl Motif {
    /// Le motif source.
    pub closed spec fn motif(&self) -> Seq<char> {
        self.source@
    }
}

/// `regex::Regex::new` : compile le motif ; échoue sur un motif invalide ou
/// trop gros. Le contrat lie le succès au nom `motif_compilable` et garde
/// le motif source avec l'expression compilée.
#[verifier::external_body]
fn compiler(source: &str) -> (r: Option<Motif>)
    ensures
        r.is_some() == motif_compilable(source@),
        r matches Some(m) ==> m.motif() == source@,
{
    match regex::Regex::new(source) {
        Ok(re) => Some(Motif { source: source.to_string(), re }),
        Err(_) => None,
    }
}

/// `regex::Regex::is_match` : une correspondance existe-t-elle dans le texte ?
#[verifier::external_body]
fn trouve(m: &Motif, texte: &str) -> (r: bool)
    ensures
        r == motif_trouve(m.motif(), texte@),
{
    m.re.is_match(texte)
}

/// `regex::Regex::replace_all` : remplace toutes les correspondances. La
/// documentation promet le texte inchangé quand rien ne correspond.
#[verifier::external_body]
fn remplacer(m: &Motif, texte: &str, par: &str) -> (r: String)
    ensures
        r@ == motif_remplace(m.motif(), texte@, par@),
        !motif_trouve(m.motif(), texte@) ==> r@ == texte@,
{
    m.re.replace_all(texte, par).into_owned()
}

/// Une passe de masquage : si le motif se compile et trouve quelque chose,
/// le texte est remplacé et le drapeau levé ; sinon rien ne change.
pub open spec fn passe(motif: Seq<char>, etat: (Seq<char>, bool)) -> (Seq<char>, bool) {
    if motif_compilable(motif) && motif_trouve(motif, etat.0) {
        (motif_remplace(motif, etat.0, MASQUE@), true)
    } else {
        etat
    }
}

/// Les trois passes, dans l'ordre : téléphone, e-mail, IBAN.
pub open spec fn masquage(texte: Seq<char>) -> (Seq<char>, bool) {
    passe(MOTIF_IBAN@, passe(MOTIF_EMAIL@, passe(MOTIF_TELEPHONE@, (texte, false))))
}

fn appliquer(source: &str, resultat: String, masque: bool) -> (r: (String, bool))
    ensures
        (r.0@, r.1) == passe(source@, (resultat@, masque)),
{
    match compiler(source) {
        Some(m) => {
            if trouve(&m, resultat.as_str()) {
                (remplacer(&m, resultat.as_str(), MASQUE), true)
            } else {
                (resultat, masque)
            }
        },
        None => (resultat, masque),
    }
}

/// Masque téléphones, e-mails et IBAN. Retourne le texte nettoyé et `true`
/// si au moins une coordonnée a été masquée ; sans coordonnée trouvée, le
/// texte revient inchangé.
pub fn masquer_coordonnees(texte: &str) -> (r: (String, bool))
    ensures
        (r.0@, r.1) == masquage(texte@),
        !r.1 ==> r.0@ == texte@,
        ({
            let reste = passe(MOTIF_EMAIL@, passe(MOTIF_TELEPHONE@, (texte@, false))).0;
            motif_compilable(MOTIF_IBAN@) && motif_trouve(MOTIF_IBAN@, reste)
                ==> r.0@ == motif_remplace(MOTIF_IBAN@, reste, MASQUE@) && r.1
        }),
{
    let (resultat, masque) = appliquer(MOTIF_TELEPHONE, texte.to_owned(), false);
    let (resultat, masque) = appliquer(MOTIF_EMAIL, resultat, masque);
    appliquer(MOTIF_IBAN, resultat, masque)
}

/// Chaque motif masque ce qu'il trouve : une coordonnée que le motif
/// trouve dans le texte qui lui parvient est remplacée par le masque et
/// lève le drapeau — le téléphone dans le texte saisi, l'e-mail après lui,
/// l'IBAN après les deux. Un texte où aucun motif ne trouve rien revient
/// tel quel, drapeau baissé ; le drapeau levé ne se rabaisse jamais.
pub proof fn chaque_coordonnee_masquee(texte: Seq<char>)
    ensures
        ({
            let apres_tel = passe(MOTIF_TELEPHONE@, (texte, false));
            let apres_mail = passe(MOTIF_EMAIL@, apres_tel);
            let fin = masquage(texte);
            &&& (motif_compilable(MOTIF_TELEPHONE@) && motif_trouve(MOTIF_TELEPHONE@, texte))
                ==> apres_tel == (motif_remplace(MOTIF_TELEPHONE@, texte, MASQUE@), true)
            &&& (motif_compilable(MOTIF_EMAIL@) && motif_trouve(MOTIF_EMAIL@, apres_tel.0))
                ==> apres_mail == (motif_remplace(MOTIF_EMAIL@, apres_tel.0, MASQUE@), true)
            &&& (motif_compilable(MOTIF_IBAN@) && motif_trouve(MOTIF_IBAN@, apres_mail.0))
                ==> fin == (motif_remplace(MOTIF_IBAN@, apres_mail.0, MASQUE@), true)
            &&& !(motif_compilable(MOTIF_IBAN@) && motif_trouve(MOTIF_IBAN@, apres_mail.0)) ==> fin == apres_mail
            &&& apres_tel.1 ==> apres_mail.1
            &&& apres_mail.1 ==> fin.1
            &&& fin.1 == (apres_mail.1 || (motif_compilable(MOTIF_IBAN@) && motif_trouve(MOTIF_IBAN@, apres_mail.0)))
        }),
{
}

} // verus!

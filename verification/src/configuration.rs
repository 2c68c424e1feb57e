//! Réglages du service lus au démarrage et tâches périodiques : version
//! affichée, cookies sécurisés, secret de signature, ports, jour du récapitulatif
//! hebdomadaire et son texte.

use vstd::prelude::*;
use vstd::string::StringSliceAdditionalSpecFns;
use crate::dto::KpisDto;
use crate::erreurs::decimal_signe;
use crate::texte::{caracteres, concatener, est_chiffre, est_chiffre_exec, meme_texte, que_des_chiffres};

verus! {

/// Longueur minimale, en octets, du secret de signature des jetons d'accès.
pub const SECRET_JWT_MIN: usize = 32;
/// Port d'écoute par défaut.
pub const PORT_DEFAUT: u16 = 8080;
/// Port SMTP par défaut (serveur de développement).
pub const PORT_SMTP_DEFAUT: u16 = 1025;
pub const NANOS_PAR_JOUR: i128 = 86_400_000_000_000;
/// Âge au-delà duquel un envoi de photo jamais rattaché est purgé.
pub const NANOS_ORPHELIN: i128 = 86_400_000_000_000;

/// La version affichée : celle du paquet, suivie de `+` et de l'empreinte
/// du build quand elle est connue et non vide.
pub fn version_affichee(paquet: &str, empreinte: Option<&str>) -> (r: String)
    ensures
        r@ == (match empreinte {
            Some(e) => if e@.len() > 0 { paquet@ + "+"@ + e@ } else { paquet@ },
            None => paquet@,
        }),
{
    match empreinte {
        Some(e) => {
            if e.unicode_len() > 0 {
                let a = concatener(paquet, "+");
                concatener(a.as_str(), e)
            } else {
                paquet.to_owned()
            }
        },
        None => paquet.to_owned(),
    }
}

/// Les cookies sont `Secure` sauf réglage explicite à `false`.
pub fn cookies_securises(reglage: Option<&str>) -> (r: bool)
    ensures
        r == !(reglage matches Some(v) && v@ == "false"@),
{
    match reglage {
        Some(v) => !meme_texte(v, "false"),
        None => true,
    }
}

/// Le secret de signature fait au moins 32 octets.
pub fn verifier_secret_jwt(secret: &str) -> (r: Result<(), &'static str>)
    ensures
        r is Ok <==> secret.spec_bytes().len() >= SECRET_JWT_MIN,
        r matches Err(m) ==> m@ == "JWT_SECRET trop courte (32 caractères minimum)"@,
{
    if secret.as_bytes().len() < SECRET_JWT_MIN {
        Err("JWT_SECRET trop courte (32 caractères minimum)")
    } else {
        Ok(())
    }
}

/// Un réglage facultatif : absent s'il est vide.
pub fn reglage_non_vide(v: Option<&str>) -> (r: Option<String>)
    ensures
        match r {
            Some(s) => v matches Some(x) && x@.len() > 0 && s@ == x@,
            None => !(v matches Some(x) && x@.len() > 0),
        },
{
    match v {
        Some(x) => if x.unicode_len() > 0 { Some(x.to_owned()) } else { None },
        None => None,
    }
}

/// La valeur d'une suite de chiffres décimaux.
pub open spec fn valeur_decimale(s: Seq<char>) -> int
    decreases s.len(),
{
    if s.len() == 0 {
        0
    } else {
        valeur_decimale(s.drop_last()) * 10 + (s.last() as int - 48)
    }
}

/// Les chiffres d'une écriture d'entier non signé : un `+` de tête est permis.
pub open spec fn partie_chiffres(s: Seq<char>) -> Seq<char> {
    if s.len() > 0 && s[0] == '+' { s.drop_first() } else { s }
}

/// Ce que donne la lecture d'un `u16` par la bibliothèque standard : un
/// `+` facultatif puis au moins un chiffre, rien d'autre, valeur au plus
/// 65535.
pub open spec fn lecture_u16(s: Seq<char>) -> Option<u16> {
    let d = partie_chiffres(s);
    if d.len() > 0 && que_des_chiffres(d) && valeur_decimale(d) <= u16::MAX {
        Some(valeur_decimale(d) as u16)
    } else {
        None
    }
}

proof fn valeur_croissante(s: Seq<char>, i: int)
    requires
        0 <= i <= s.len(),
        que_des_chiffres(s),
    ensures
        valeur_decimale(s.take(i)) <= valeur_decimale(s),
        valeur_decimale(s.take(i)) >= 0,
    decreases s.len() - i,
{
    if i < s.len() {
        valeur_croissante(s, i + 1);
        assert(s.take(i + 1).drop_last() =~= s.take(i));
        assert(est_chiffre(s[i]));
        valeur_positive(s.take(i));
    } else {
        assert(s.take(i) =~= s);
        valeur_positive(s);
    }
}

proof fn valeur_positive(s: Seq<char>)
    requires
        que_des_chiffres(s),
    ensures
        valeur_decimale(s) >= 0,
    decreases s.len(),
{
    if s.len() > 0 {
        assert(est_chiffre(s[s.len() - 1]));
        assert(que_des_chiffres(s.drop_last()));
        valeur_positive(s.drop_last());
    }
}

/// Lit un `u16` comme `str::parse::<u16>`.
pub fn lire_u16(s: &str) -> (r: Option<u16>)
    ensures
        r == lecture_u16(s@),
{
    let v = caracteres(s);
    let debut: usize = if v.len() > 0 && v[0] == '+' { 1 } else { 0 };
    let ghost d = partie_chiffres(s@);
    assert(d =~= v@.subrange(debut as int, v@.len() as int));
    if v.len() <= debut {
        return None;
    }
    let mut acc: u32 = 0;
    let mut i: usize = debut;
    while i < v.len()
        invariant
            v@ == s@,
            debut <= i <= v@.len(),
            d =~= v@.subrange(debut as int, v@.len() as int),
            d == partie_chiffres(s@),
            que_des_chiffres(d.take(i - debut)),
            acc == valeur_decimale(d.take(i - debut)),
            acc <= u16::MAX,
        decreases v.len() - i,
    {
        let c = v[i];
        let ghost k = (i - debut) as int;
        assert(d[k] == c);
        if !est_chiffre_exec(c) {
            assert(!est_chiffre(d[k]));
            assert(!que_des_chiffres(d));
            return None;
        }
        assert(d.take(k + 1).drop_last() =~= d.take(k));
        assert(d.take(k + 1).last() == c);
        let chiffre: u32 = (c as u32) - 48;
        let suivant: u32 = acc * 10 + chiffre;
        assert(que_des_chiffres(d.take(k + 1)));
        assert(suivant == valeur_decimale(d.take(k + 1)));
        if suivant > 65535 {
            proof {
                if que_des_chiffres(d) {
                    valeur_croissante(d, k + 1);
                    assert(valeur_decimale(d) > 65535);
                }
                assert(lecture_u16(s@) is None);
            }
            return None;
        }
        acc = suivant;
        i = i + 1;
    }
    assert(d.take(i - debut) =~= d);
    Some(acc as u16)
}

/// Le port d'écoute : le réglage s'il se lit comme un `u16`, sinon le défaut.
pub fn port_ou_defaut(reglage: Option<&str>, defaut: u16) -> (r: u16)
    ensures
        r == (match reglage {
            Some(v) => match lecture_u16(v@) {
                Some(p) => p,
                None => defaut,
            },
            None => defaut,
        }),
{
    match reglage {
        Some(v) => match lire_u16(v) {
            Some(p) => p,
            None => defaut,
        },
        None => defaut,
    }
}

/// Le jour de la semaine d'un instant UTC, 0 pour lundi (le 1er janvier
/// 1970 était un jeudi).
pub open spec fn jour_de_semaine(instant: int) -> int {
    ((instant / NANOS_PAR_JOUR as int) + 3) % 7
}

/// Le récapitulatif hebdomadaire part le lundi.
pub fn est_lundi(instant: i128) -> (r: bool)
    requires
        instant > i128::MIN,
    ensures
        r == (jour_de_semaine(instant as int) == 0),
{
    let n = NANOS_PAR_JOUR;
    let jours: i128 = if instant >= 0 {
        instant / n
    } else {
        let a: i128 = -(instant + 1);
        let q = a / n;
        assert((-q - 1) == (instant as int) / (n as int)) by (nonlinear_arith)
            requires
                a == -(instant + 1),
                a >= 0,
                q == a / n,
                n == NANOS_PAR_JOUR,
        {
            assert(a == q * n + a % n);
            assert(0 <= a % n < n);
            assert(instant == (-q - 1) * n + (n - a % n - 1));
        }
        -q - 1
    };
    let reste: i128 = if jours >= 0 {
        jours % 7
    } else {
        let b: i128 = -(jours + 1);
        let k = b % 7;
        assert(6 - k == (jours as int) % 7) by (nonlinear_arith)
            requires
                b == -(jours + 1),
                b >= 0,
                k == b % 7,
        {
            assert(b == (b / 7) * 7 + k);
            assert(0 <= k < 7);
            assert(jours == (-(b / 7) - 1) * 7 + (6 - k));
        }
        6 - k
    };
    assert(((jours as int) + 3) % 7 == ((reste as int) + 3) % 7) by (nonlinear_arith)
        requires
            reste == (jours as int) % 7,
    {
    }
    (reste + 3) % 7 == 0
}

/// L'instant avant lequel un envoi de photo non rattaché est orphelin :
/// 24 heures plus tôt.
pub fn limite_orphelins(maintenant: i128) -> (r: i128)
    requires
        maintenant - NANOS_ORPHELIN >= i128::MIN,
    ensures
        r == maintenant - NANOS_ORPHELIN,
{
    maintenant - NANOS_ORPHELIN
}

fn ligne_kpi(texte: String, libelle: &str, valeur: i64) -> (r: String)
    ensures
        r@ == texte@ + libelle@ + decimal_signe(valeur as int),
{
    let n = crate::erreurs::texte_entier_64(valeur);
    let a = concatener(texte.as_str(), libelle);
    concatener(a.as_str(), n.as_str())
}

/// Le texte du récapitulatif hebdomadaire envoyé à l'administration.
pub open spec fn resume_attendu(k: KpisDto) -> Seq<char> {
    "inscriptions       : "@ + decimal_signe(k.signups as int)
        + "\nobjets publiés     : "@ + decimal_signe(k.items_published as int)
        + "\npropositions       : "@ + decimal_signe(k.proposals_sent as int)
        + "\ntrocs créés        : "@ + decimal_signe(k.trades_created as int)
        + "\ntrocs finalisés    : "@ + decimal_signe(k.trades_finalized as int)
        + "\n  dont avec soulte : "@ + decimal_signe(k.trades_with_cash as int)
        + "\nlitiges ouverts    : "@ + decimal_signe(k.disputes_opened as int)
}

pub fn resume_kpis(k: &KpisDto) -> (r: String)
    ensures
        r@ == resume_attendu(*k),
{
    let r = ligne_kpi(String::new(), "inscriptions       : ", k.signups);
    let r = ligne_kpi(r, "\nobjets publiés     : ", k.items_published);
    let r = ligne_kpi(r, "\npropositions       : ", k.proposals_sent);
    let r = ligne_kpi(r, "\ntrocs créés        : ", k.trades_created);
    let r = ligne_kpi(r, "\ntrocs finalisés    : ", k.trades_finalized);
    let r = ligne_kpi(r, "\n  dont avec soulte : ", k.trades_with_cash);
    let r = ligne_kpi(r, "\nlitiges ouverts    : ", k.disputes_opened);
    assert(r@ =~= resume_attendu(*k));
    r
}

} // verus!

//! Source de hasard explicite. Le creusage, la pose des lumieres et leurs
//! couleurs tirent tous leurs nombres d'un generateur passe par l'appelant :
//! une graine fixe rend ainsi la construction reproductible et testable.

use vstd::prelude::*;
use vstd::arithmetic::div_mod::{
    lemma_add_mod_noop, lemma_mod_sub_multiples_vanish, lemma_small_mod,
};
use vstd::arithmetic::power2::{lemma2_to64_rest, pow2};
use vstd::bits::lemma_u64_shr_is_div;

verus! {

/// Relies on rand::random_range: a uniform draw from the half-open range
/// `0..limite`, which is non-empty since `limite >= 1`, so the call never
/// panics and the result is below `limite`.
#[verifier::external_body]
fn entier_aleatoire_systeme(limite: u32) -> (r: u32)
    requires
        1 <= limite,
    ensures
        r < limite,
{
    rand::random_range(0..limite)
}

/// L'etat qui suit `etat` dans le generateur congruentiel seme.
pub open spec fn prochain_etat(etat: u64) -> u64 {
    ((etat * 6364136223846793005 + 1442695040888963407) % 0x1_0000_0000_0000_0000) as u64
}

/// Le tirage que le generateur seme d'etat `etat` rend sous `limite` :
/// les bits hauts de l'etat suivant, reduits modulo la limite.
pub open spec fn tirage_graine(etat: u64, limite: u32) -> u32 {
    (((prochain_etat(etat) as int) / 0x2_0000_0000) % (limite as int)) as u32
}

/// Un generateur de nombres pseudo-aleatoires.
///
/// `Systeme` tire du generateur du processus (non reproductible);
/// `Graine` est un generateur congruentiel deterministe;
/// `Fixe` repond toujours zero (utile pour rejouer un scenario precis).
pub enum GenerateurAleatoire {
    Systeme,
    Graine(u64),
    Fixe,
}

impl GenerateurAleatoire {
    /// Tire un entier dans `0..limite`. La source fixe repond toujours
    /// zero; la source semee est une fonction de son etat.
    pub fn entier_aleatoire(&mut self, limite: u32) -> (r: u32)
        requires
            1 <= limite,
        ensures
            r < limite,
            *old(self) is Systeme ==> *final(self) is Systeme,
            *old(self) is Fixe ==> *final(self) == *old(self) && r == 0,
            *old(self) matches GenerateurAleatoire::Graine(etat) ==> *final(self)
                == GenerateurAleatoire::Graine(prochain_etat(etat)) && r == tirage_graine(
                etat,
                limite,
            ),
    {
        match self {
            GenerateurAleatoire::Systeme => entier_aleatoire_systeme(limite),
            GenerateurAleatoire::Graine(etat) => {
                let ghost etat_entree = *etat;
                let nouvel_etat = etat.wrapping_mul(6364136223846793005).wrapping_add(
                    1442695040888963407,
                );
                proof {
                    let m: int = 0x1_0000_0000_0000_0000;
                    let produit: int = (etat_entree * 6364136223846793005) % m;
                    lemma_small_mod(1442695040888963407nat, m as nat);
                    lemma_add_mod_noop(etat_entree * 6364136223846793005, 1442695040888963407, m);
                    if produit + 1442695040888963407 >= m {
                        lemma_mod_sub_multiples_vanish(produit + 1442695040888963407, m);
                        lemma_small_mod((produit + 1442695040888963407 - m) as nat, m as nat);
                    } else {
                        lemma_small_mod((produit + 1442695040888963407) as nat, m as nat);
                    }
                    assert(nouvel_etat == prochain_etat(etat_entree));
                }
                *etat = nouvel_etat;
                let haut = (nouvel_etat >> 33) as u32;
                proof {
                    lemma_u64_shr_is_div(nouvel_etat, 33);
                    lemma2_to64_rest();
                    assert(pow2(33) == 0x2_0000_0000);
                    assert((nouvel_etat >> 33) as nat == nouvel_etat as nat / pow2(33));
                    assert(nouvel_etat as int / 0x2_0000_0000 < 0x1_0000_0000) by (nonlinear_arith)
                        requires
                            0 <= nouvel_etat < 0x1_0000_0000_0000_0000,
                    ;
                    assert(haut == (nouvel_etat as int) / 0x2_0000_0000);
                }
                haut % limite
            },
            GenerateurAleatoire::Fixe => 0,
        }
    }

    /// Tire un entier dans `0..=limite` proportionnel a un tirage sur
    /// dix mille pas (echantillonnage en virgule fixe d'une fraction de
    /// `limite`). La source fixe repond toujours zero.
    pub fn nombre_aleatoire(&mut self, limite: i64) -> (r: i64)
        requires
            1 <= limite <= 1_000_000,
        ensures
            0 <= r < limite,
            *old(self) is Systeme ==> *final(self) is Systeme,
            *old(self) is Fixe ==> *final(self) == *old(self) && r == 0,
            *old(self) is Graine ==> *final(self) is Graine,
    {
        let tirage = self.entier_aleatoire(10_000) as i64;
        proof {
            assert(0 <= limite * tirage && limite * tirage < limite * 10_000)
                by (nonlinear_arith)
                requires
                    0 <= tirage < 10_000,
                    1 <= limite <= 1_000_000,
            ;
        }
        let produit = limite * tirage;
        let r = produit / 10_000;
        proof {
            assert(produit / 10_000 < limite) by (nonlinear_arith)
                requires
                    0 <= produit,
                    produit < limite * 10_000,
            ;
            if tirage == 0 {
                assert(limite * tirage == 0) by (nonlinear_arith)
                    requires
                        tirage == 0,
                ;
            }
        }
        r
    }
}

} // verus!

//! Expulsion hors des murs : notions de ligne de grille, d'interieur
//! strict d'une cellule, de boite elargie d'un obstacle, et arrondi de la
//! position du monde vers la cellule la plus proche. Tout est en virgule
//! fixe (100 unites par cote de cellule, marge de 20).

use vstd::prelude::*;
use vstd::arithmetic::div_mod::{
    lemma_fundamental_div_mod, lemma_hoist_over_denominator, lemma_mod_multiples_basic,
};
use crate::cellule::Cellule;
use crate::grille::{cellule_a, dans_grille};

verus! {

/// Borne sur la position de l'observateur que l'expulsion accepte.
pub const BORNE_OBSERVATEUR: i64 = 100_000_000;

/// La coordonnee se trouve sur une ligne de la grille (multiple du cote
/// a partir de l'origine de la grille).
pub open spec fn sur_ligne(v: int, origine: int) -> bool {
    (v - origine) % 100 == 0
}

/// Le point `(px, pz)` est strictement a l'interieur de la cellule
/// `(cx, cz)` (bords exclus).
pub open spec fn strictement_dans_cellule(
    px: int,
    pz: int,
    origine_x: int,
    origine_z: int,
    cx: int,
    cz: int,
) -> bool {
    &&& origine_x + 100 * cx < px < origine_x + 100 * cx + 100
    &&& origine_z + 100 * cz < pz < origine_z + 100 * cz + 100
}

/// Le point `(px, pz)` tombe dans la boite de la cellule `(cx, cz)`
/// elargie de la marge de collision (bords inclus).
pub open spec fn dans_boite_elargie(
    px: int,
    pz: int,
    origine_x: int,
    origine_z: int,
    cx: int,
    cz: int,
) -> bool {
    &&& origine_x + 100 * cx - 20 <= px <= origine_x + 100 * cx + 120
    &&& origine_z + 100 * cz - 20 <= pz <= origine_z + 100 * cz + 120
}

/// La cellule `(cx, cz)` est un obstacle : pleine, ou hors de la grille
/// (l'exterieur du labyrinthe est partout solide).
pub open spec fn cellule_obstacle(
    c: Seq<Seq<Cellule>>,
    longueur: int,
    largeur: int,
    cx: int,
    cz: int,
) -> bool {
    !(dans_grille(longueur, largeur, cx, cz) && cellule_a(c, cx, cz).sentier)
}

/// Indice de la cellule dont le centre est le plus proche de la
/// coordonnee `v` (arrondi au plus pres, demi vers le haut).
pub open spec fn cellule_la_plus_proche(v: int, origine: int) -> int {
    (v - origine + 50) / 100
}


/// Le pas de correction d'une cellule : si la cellule est un obstacle et
/// que le point tombe dans sa boite elargie (bords inclus), la coordonnee
/// de plus faible penetration est ramenee sur le bord de cellule le plus
/// proche (egalite : l'axe des z, puis le bord eloigne); sinon le point
/// est laisse tel quel.
pub open spec fn correction_cellule(
    c: Seq<Seq<Cellule>>,
    longueur: int,
    largeur: int,
    origine_x: int,
    origine_z: int,
    cx: int,
    cz: int,
    px: int,
    pz: int,
) -> (int, int) {
    let gauche = origine_x + 100 * cx - 20;
    let droit = gauche + 140;
    let bas = origine_z + 100 * cz - 20;
    let haut = bas + 140;
    if cellule_obstacle(c, longueur, largeur, cx, cz) && gauche <= px <= droit && bas <= pz
        <= haut {
        let marge_x = if px - gauche < droit - px {
            px - gauche
        } else {
            droit - px
        };
        let marge_z = if pz - bas < haut - pz {
            pz - bas
        } else {
            haut - pz
        };
        if marge_x < marge_z {
            if px - gauche < droit - px {
                (gauche + 20, pz)
            } else {
                (droit - 20, pz)
            }
        } else {
            if pz - bas < haut - pz {
                (px, bas + 20)
            } else {
                (px, haut - 20)
            }
        }
    } else {
        (px, pz)
    }
}

/// Le point apres les `etapes` premiers pas de correction du balayage du
/// voisinage trois par trois (l'axe des x d'abord, celui des z ensuite).
pub open spec fn expulsion_etapes(
    c: Seq<Seq<Cellule>>,
    longueur: int,
    largeur: int,
    origine_x: int,
    origine_z: int,
    centre_x: int,
    centre_z: int,
    px: int,
    pz: int,
    etapes: int,
) -> (int, int)
    decreases etapes,
{
    if etapes <= 0 {
        (px, pz)
    } else {
        let precedent = expulsion_etapes(
            c,
            longueur,
            largeur,
            origine_x,
            origine_z,
            centre_x,
            centre_z,
            px,
            pz,
            etapes - 1,
        );
        correction_cellule(
            c,
            longueur,
            largeur,
            origine_x,
            origine_z,
            centre_x + (etapes - 1) / 3 - 1,
            centre_z + (etapes - 1) % 3 - 1,
            precedent.0,
            precedent.1,
        )
    }
}

/// La position de l'observateur apres l'expulsion complete : les neuf
/// cellules du voisinage de sa cellule, corrigees dans l'ordre du
/// balayage.
pub open spec fn expulsion_complete(
    c: Seq<Seq<Cellule>>,
    longueur: int,
    largeur: int,
    origine_x: int,
    origine_z: int,
    px: int,
    pz: int,
) -> (int, int) {
    expulsion_etapes(
        c,
        longueur,
        largeur,
        origine_x,
        origine_z,
        cellule_la_plus_proche(px, origine_x),
        cellule_la_plus_proche(pz, origine_z),
        px,
        pz,
        9,
    )
}

/// Une coordonnee posee sur une ligne de la grille n'est strictement a
/// l'interieur d'aucune colonne de cellules.
pub proof fn lemme_ligne_hors_interieur(v: int, origine: int, c: int)
    requires
        sur_ligne(v, origine),
    ensures
        !(origine + 100 * c < v < origine + 100 * c + 100),
{
    let d = v - origine;
    lemma_fundamental_div_mod(d, 100);
    let q = d / 100;
    assert(d == 100 * q);
    if origine + 100 * c < v < origine + 100 * c + 100 {
        assert(100 * c < 100 * q < 100 * c + 100);
        assert(c < q < c + 1) by (nonlinear_arith)
            requires
                100 * c < 100 * q < 100 * c + 100,
        ;
        assert(false);
    }
}

/// Les bords d'une cellule sont des lignes de la grille.
pub proof fn lemme_bord_sur_ligne(origine: int, c: int)
    ensures
        sur_ligne(origine + 100 * c, origine),
        sur_ligne(origine + 100 * c + 100, origine),
{
    lemma_mod_multiples_basic(c, 100);
    assert(c * 100 == 100 * c) by (nonlinear_arith);
    lemma_mod_multiples_basic(c + 1, 100);
    assert((c + 1) * 100 == 100 * c + 100) by (nonlinear_arith);
}

/// Arrondit une coordonnee du monde vers l'indice de la cellule la plus
/// proche, par un passage en non negatif puis une division entiere.
pub fn arrondir_cellule(v: i64, origine: i64) -> (r: i64)
    requires
        -BORNE_OBSERVATEUR - 1_000 <= v <= BORNE_OBSERVATEUR + 1_000,
        -50_000 <= origine <= 0,
    ensures
        r == cellule_la_plus_proche(v as int, origine as int),
        -2_000_000 <= r <= 2_000_000,
{
    let translate: i64 = v - origine + 50 + 200_000_000;
    let quotient: i64 = ((translate as u64) / 100) as i64;
    let r = quotient - 2_000_000;
    proof {
        let d = v - origine + 50;
        lemma_hoist_over_denominator(d, 2_000_000, 100);
        assert(d / 100 + 2_000_000 == (d + 2_000_000 * 100) / 100);
        assert(translate == d + 2_000_000 * 100);
        assert(quotient == translate as int / 100);
        assert(r == cellule_la_plus_proche(v as int, origine as int));
        assert(0 <= translate as int / 100 <= 4_000_000) by (nonlinear_arith)
            requires
                0 <= translate <= 400_000_000,
        ;
    }
    r
}

} // verus!

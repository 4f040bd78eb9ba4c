//! Modele mathematique de la grille : une suite de rangees de cellules,
//! avec les notions d'adjacence, de voisinage de sentiers, de connexite
//! et d'elagage des murs doubles.

use vstd::prelude::*;
use crate::cellule::Cellule;

verus! {

/// Vue mathematique d'un tableau de rangees de cellules.
pub open spec fn vue_cellules(v: Vec<Vec<Cellule>>) -> Seq<Seq<Cellule>> {
    v@.map_values(|r: Vec<Cellule>| r@)
}

/// La position `(x, z)` tombe dans une grille `longueur` par `largeur`.
pub open spec fn dans_grille(longueur: int, largeur: int, x: int, z: int) -> bool {
    0 <= x < longueur && 0 <= z < largeur
}

/// La cellule en `(x, z)` (rangee `z`, colonne `x`).
pub open spec fn cellule_a(c: Seq<Seq<Cellule>>, x: int, z: int) -> Cellule {
    c[z][x]
}

/// Grille bien formee : `largeur` rangees de `longueur` cellules, chaque
/// cellule portant ses propres coordonnees.
pub open spec fn grille_bien_formee(c: Seq<Seq<Cellule>>, longueur: int, largeur: int) -> bool {
    &&& c.len() == largeur
    &&& forall|z: int| 0 <= z < largeur ==> (#[trigger] c[z]).len() == longueur
    &&& forall|x: int, z: int|
        dans_grille(longueur, largeur, x, z) ==> (#[trigger] cellule_a(c, x, z)).x == x
            && cellule_a(c, x, z).z == z
}

/// Les deux positions partagent une arete (voisines orthogonales).
pub open spec fn adjacentes(x1: int, z1: int, x2: int, z2: int) -> bool {
    ||| x1 == x2 && (z1 == z2 + 1 || z2 == z1 + 1)
    ||| z1 == z2 && (x1 == x2 + 1 || x2 == x1 + 1)
}

/// La position est dans la grille et deja creusee en sentier.
pub open spec fn sentier_a(c: Seq<Seq<Cellule>>, longueur: int, largeur: int, x: int, z: int) -> bool {
    dans_grille(longueur, largeur, x, z) && cellule_a(c, x, z).sentier
}

/// Nombre de voisins orthogonaux de `(x, z)` qui sont des sentiers.
pub open spec fn nb_voisins_sentier(
    c: Seq<Seq<Cellule>>,
    longueur: int,
    largeur: int,
    x: int,
    z: int,
) -> int {
    (if sentier_a(c, longueur, largeur, x - 1, z) { 1int } else { 0int })
        + (if sentier_a(c, longueur, largeur, x, z + 1) { 1int } else { 0int })
        + (if sentier_a(c, longueur, largeur, x + 1, z) { 1int } else { 0int })
        + (if sentier_a(c, longueur, largeur, x, z - 1) { 1int } else { 0int })
}

/// Regle d'ouverture du creusage : la position est dans la grille, n'est pas
/// deja un sentier, et possede au plus un voisin sentier (ce qui garde au
/// reseau sa forme d'arbre, sans boucle ni salle de deux cellules de large).
pub open spec fn peut_ouvrir(
    c: Seq<Seq<Cellule>>,
    longueur: int,
    largeur: int,
    x: int,
    z: int,
) -> bool {
    &&& dans_grille(longueur, largeur, x, z)
    &&& !cellule_a(c, x, z).sentier
    &&& nb_voisins_sentier(c, longueur, largeur, x, z) <= 1
}

/// Un chemin de sentiers : une suite non vide de positions de la grille,
/// toutes creusees, ou chaque pas joint deux cellules adjacentes.
pub open spec fn chemin_valide(
    c: Seq<Seq<Cellule>>,
    longueur: int,
    largeur: int,
    ch: Seq<(int, int)>,
) -> bool {
    &&& ch.len() >= 1
    &&& forall|i: int|
        0 <= i < ch.len() ==> sentier_a(c, longueur, largeur, (#[trigger] ch[i]).0, ch[i].1)
    &&& forall|i: int|
        0 <= i < ch.len() - 1 ==> adjacentes(
            (#[trigger] ch[i]).0,
            ch[i].1,
            ch[i + 1].0,
            ch[i + 1].1,
        )
}

/// `(x2, z2)` est atteignable depuis `(x1, z1)` par un chemin de sentiers.
pub open spec fn relie(
    c: Seq<Seq<Cellule>>,
    longueur: int,
    largeur: int,
    x1: int,
    z1: int,
    x2: int,
    z2: int,
) -> bool {
    exists|ch: Seq<(int, int)>|
        chemin_valide(c, longueur, largeur, ch) && ch.first() == (x1, z1) && ch.last() == (x2, z2)
}

pub proof fn lemme_relie_reflexif(
    c: Seq<Seq<Cellule>>,
    longueur: int,
    largeur: int,
    x: int,
    z: int,
)
    requires
        sentier_a(c, longueur, largeur, x, z),
    ensures
        relie(c, longueur, largeur, x, z, x, z),
{
    let ch: Seq<(int, int)> = seq![(x, z)];
    assert(chemin_valide(c, longueur, largeur, ch));
    assert(ch.first() == (x, z) && ch.last() == (x, z));
}

pub proof fn lemme_relie_etend(
    c: Seq<Seq<Cellule>>,
    longueur: int,
    largeur: int,
    xd: int,
    zd: int,
    x1: int,
    z1: int,
    x2: int,
    z2: int,
)
    requires
        relie(c, longueur, largeur, xd, zd, x1, z1),
        adjacentes(x1, z1, x2, z2),
        sentier_a(c, longueur, largeur, x2, z2),
    ensures
        relie(c, longueur, largeur, xd, zd, x2, z2),
{
    let ch = choose|ch: Seq<(int, int)>|
        chemin_valide(c, longueur, largeur, ch) && ch.first() == (xd, zd) && ch.last() == (x1, z1);
    let ch2 = ch.push((x2, z2));
    assert forall|i: int| 0 <= i < ch2.len() - 1 implies adjacentes(
        (#[trigger] ch2[i]).0,
        ch2[i].1,
        ch2[i + 1].0,
        ch2[i + 1].1,
    ) by {
        if i < ch.len() - 1 {
            assert(ch2[i] == ch[i] && ch2[i + 1] == ch[i + 1]);
        } else {
            assert(ch2[i] == ch.last() && ch2[i + 1] == (x2, z2));
        }
    }
    assert(chemin_valide(c, longueur, largeur, ch2));
    assert(ch2.first() == (xd, zd) && ch2.last() == (x2, z2));
}

/// La connexite se conserve quand on ne fait qu'ajouter des sentiers.
pub proof fn lemme_relie_monotone(
    c1: Seq<Seq<Cellule>>,
    c2: Seq<Seq<Cellule>>,
    longueur: int,
    largeur: int,
    x1: int,
    z1: int,
    x2: int,
    z2: int,
)
    requires
        relie(c1, longueur, largeur, x1, z1, x2, z2),
        forall|x: int, z: int|
            sentier_a(c1, longueur, largeur, x, z) ==> #[trigger] sentier_a(
                c2,
                longueur,
                largeur,
                x,
                z,
            ),
    ensures
        relie(c2, longueur, largeur, x1, z1, x2, z2),
{
    let ch = choose|ch: Seq<(int, int)>|
        chemin_valide(c1, longueur, largeur, ch) && ch.first() == (x1, z1) && ch.last() == (x2, z2);
    assert forall|i: int| 0 <= i < ch.len() implies sentier_a(
        c2,
        longueur,
        largeur,
        (#[trigger] ch[i]).0,
        ch[i].1,
    ) by {
        assert(sentier_a(c1, longueur, largeur, ch[i].0, ch[i].1));
    }
    assert(chemin_valide(c2, longueur, largeur, ch));
}

/// Nombre de sentiers d'une rangee.
pub open spec fn nb_sentiers_rangee(r: Seq<Cellule>) -> int
    decreases r.len(),
{
    if r.len() == 0 {
        0
    } else {
        nb_sentiers_rangee(r.drop_last()) + if r.last().sentier {
            1int
        } else {
            0int
        }
    }
}

/// Nombre de sentiers de toute la grille.
pub open spec fn nb_sentiers(c: Seq<Seq<Cellule>>) -> int
    decreases c.len(),
{
    if c.len() == 0 {
        0
    } else {
        nb_sentiers(c.drop_last()) + nb_sentiers_rangee(c.last())
    }
}

pub proof fn lemme_nb_rangee_bornes(r: Seq<Cellule>)
    ensures
        0 <= nb_sentiers_rangee(r) <= r.len(),
    decreases r.len(),
{
    if r.len() > 0 {
        lemme_nb_rangee_bornes(r.drop_last());
    }
}

pub proof fn lemme_nb_bornes(c: Seq<Seq<Cellule>>, longueur: int)
    requires
        forall|z: int| 0 <= z < c.len() ==> (#[trigger] c[z]).len() == longueur,
    ensures
        0 <= nb_sentiers(c) <= c.len() * longueur,
    decreases c.len(),
{
    if c.len() == 0 {
    } else {
        lemme_nb_bornes(c.drop_last(), longueur);
        lemme_nb_rangee_bornes(c.last());
        assert((c.len() - 1) * longueur + longueur == c.len() * longueur) by (nonlinear_arith);
    }
}

/// Changer une seule cellule d'une rangee change le compte de sentiers
/// de la difference des deux drapeaux.
pub proof fn lemme_nb_rangee_maj(r1: Seq<Cellule>, r2: Seq<Cellule>, x: int)
    requires
        0 <= x < r1.len(),
        r2 == r1.update(x, r2[x]),
    ensures
        nb_sentiers_rangee(r2) == nb_sentiers_rangee(r1) + (if r2[x].sentier {
            1int
        } else {
            0int
        }) - (if r1[x].sentier {
            1int
        } else {
            0int
        }),
    decreases r1.len(),
{
    assert(r2.len() == r1.len());
    if x == r1.len() - 1 {
        assert(r2.drop_last() =~= r1.drop_last());
        assert(r2.last() == r2[x]);
        assert(r1.last() == r1[x]);
    } else {
        assert(r2.drop_last() =~= r1.drop_last().update(x, r2[x]));
        lemme_nb_rangee_maj(r1.drop_last(), r2.drop_last(), x);
        assert(r2.last() == r1.last());
    }
}

/// Changer une seule cellule de la grille change le compte de sentiers
/// de la difference des deux drapeaux.
pub proof fn lemme_nb_maj(c1: Seq<Seq<Cellule>>, c2: Seq<Seq<Cellule>>, x: int, z: int)
    requires
        0 <= z < c1.len(),
        0 <= x < c1[z].len(),
        c2 == c1.update(z, c2[z]),
        c2[z] == c1[z].update(x, c2[z][x]),
    ensures
        nb_sentiers(c2) == nb_sentiers(c1) + (if c2[z][x].sentier {
            1int
        } else {
            0int
        }) - (if c1[z][x].sentier {
            1int
        } else {
            0int
        }),
    decreases c1.len(),
{
    assert(c2.len() == c1.len());
    if z == c1.len() - 1 {
        assert(c2.drop_last() =~= c1.drop_last());
        assert(c2.last() == c2[z]);
        assert(c1.last() == c1[z]);
        lemme_nb_rangee_maj(c1[z], c2[z], x);
    } else {
        assert(c2.drop_last() =~= c1.drop_last().update(z, c2[z]));
        lemme_nb_maj(c1.drop_last(), c2.drop_last(), x, z);
        assert(c2.last() == c1.last());
    }
}

/// Deux grilles de meme forme dont les drapeaux de sentier coincident
/// partout ont le meme compte de sentiers.
pub proof fn lemme_nb_egal(c1: Seq<Seq<Cellule>>, c2: Seq<Seq<Cellule>>)
    requires
        c1.len() == c2.len(),
        forall|z: int| 0 <= z < c1.len() ==> (#[trigger] c1[z]).len() == c2[z].len(),
        forall|z: int, x: int|
            0 <= z < c1.len() && 0 <= x < c1[z].len() ==> (#[trigger] c1[z][x]).sentier
                == c2[z][x].sentier,
    ensures
        nb_sentiers(c1) == nb_sentiers(c2),
    decreases c1.len(),
{
    if c1.len() > 0 {
        lemme_nb_egal(c1.drop_last(), c2.drop_last());
        lemme_nb_rangee_egal(c1.last(), c2.last());
    }
}

proof fn lemme_nb_rangee_egal(r1: Seq<Cellule>, r2: Seq<Cellule>)
    requires
        r1.len() == r2.len(),
        forall|x: int| 0 <= x < r1.len() ==> (#[trigger] r1[x]).sentier == r2[x].sentier,
    ensures
        nb_sentiers_rangee(r1) == nb_sentiers_rangee(r2),
    decreases r1.len(),
{
    if r1.len() > 0 {
        lemme_nb_rangee_egal(r1.drop_last(), r2.drop_last());
    }
}

/// Une grille sans aucun sentier n'en compte aucun.
pub proof fn lemme_nb_nul(c: Seq<Seq<Cellule>>)
    requires
        forall|z: int, x: int|
            0 <= z < c.len() && 0 <= x < c[z].len() ==> !(#[trigger] c[z][x]).sentier,
    ensures
        nb_sentiers(c) == 0,
    decreases c.len(),
{
    if c.len() > 0 {
        lemme_nb_nul(c.drop_last());
        lemme_nb_rangee_nul(c.last());
    }
}

proof fn lemme_nb_rangee_nul(r: Seq<Cellule>)
    requires
        forall|x: int| 0 <= x < r.len() ==> !(#[trigger] r[x]).sentier,
    ensures
        nb_sentiers_rangee(r) == 0,
    decreases r.len(),
{
    if r.len() > 0 {
        lemme_nb_rangee_nul(r.drop_last());
    }
}


/// Paires de sentiers adjacentes horizontales `(b - 1, b)` d'une rangee,
/// pour les pas `b` jusqu'a `borne` inclus.
pub open spec fn paires_sentiers_rangee(r: Seq<Cellule>, borne: int) -> int
    decreases borne,
{
    if borne <= 0 {
        0
    } else {
        paires_sentiers_rangee(r, borne - 1) + (
        if borne < r.len() && r[borne - 1].sentier && r[borne].sentier {
            1int
        } else {
            0int
        })
    }
}

/// Paires de sentiers adjacentes verticales entre deux rangees, aux
/// colonnes sous `borne`.
pub open spec fn paires_sentiers_rangees(r1: Seq<Cellule>, r2: Seq<Cellule>, borne: int) -> int
    decreases borne,
{
    if borne <= 0 {
        0
    } else {
        paires_sentiers_rangees(r1, r2, borne - 1) + (
        if borne - 1 < r1.len() && borne - 1 < r2.len() && r1[borne - 1].sentier && r2[borne
            - 1].sentier {
            1int
        } else {
            0int
        })
    }
}

/// Paires de sentiers adjacentes de la grille, rangees sous `borne` :
/// les paires horizontales de chaque rangee et les paires verticales
/// entre rangees consecutives.
pub open spec fn paires_sentiers_grille(c: Seq<Seq<Cellule>>, borne: int) -> int
    decreases borne,
{
    if borne <= 0 {
        0
    } else {
        paires_sentiers_grille(c, borne - 1) + paires_sentiers_rangee(
            c[borne - 1],
            c[borne - 1].len() as int,
        ) + (
        if borne < c.len() {
            paires_sentiers_rangees(c[borne - 1], c[borne], c[borne - 1].len() as int)
        } else {
            0int
        })
    }
}

/// Nombre de paires de cellules sentier adjacentes de la grille : les
/// aretes du graphe des sentiers.
pub open spec fn nb_paires_sentiers(c: Seq<Seq<Cellule>>) -> int {
    paires_sentiers_grille(c, c.len() as int)
}

proof fn lemme_paires_rangee_egal(r1: Seq<Cellule>, r2: Seq<Cellule>, borne: int)
    requires
        r1.len() == r2.len(),
        forall|x: int| 0 <= x < r1.len() ==> (#[trigger] r1[x]).sentier == r2[x].sentier,
    ensures
        paires_sentiers_rangee(r1, borne) == paires_sentiers_rangee(r2, borne),
    decreases borne,
{
    if borne > 0 {
        lemme_paires_rangee_egal(r1, r2, borne - 1);
    }
}

proof fn lemme_paires_rangees_egal(
    a1: Seq<Cellule>,
    b1: Seq<Cellule>,
    a2: Seq<Cellule>,
    b2: Seq<Cellule>,
    borne: int,
)
    requires
        a1.len() == a2.len(),
        b1.len() == b2.len(),
        forall|x: int| 0 <= x < a1.len() ==> (#[trigger] a1[x]).sentier == a2[x].sentier,
        forall|x: int| 0 <= x < b1.len() ==> (#[trigger] b1[x]).sentier == b2[x].sentier,
    ensures
        paires_sentiers_rangees(a1, b1, borne) == paires_sentiers_rangees(a2, b2, borne),
    decreases borne,
{
    if borne > 0 {
        lemme_paires_rangees_egal(a1, b1, a2, b2, borne - 1);
    }
}

/// Deux grilles de meme forme aux memes drapeaux de sentier ont le meme
/// nombre de paires de sentiers adjacentes.
pub proof fn lemme_paires_egal(c1: Seq<Seq<Cellule>>, c2: Seq<Seq<Cellule>>)
    requires
        c1.len() == c2.len(),
        forall|z: int| 0 <= z < c1.len() ==> (#[trigger] c1[z]).len() == c2[z].len(),
        forall|z: int, x: int|
            0 <= z < c1.len() && 0 <= x < c1[z].len() ==> (#[trigger] c1[z][x]).sentier
                == c2[z][x].sentier,
    ensures
        nb_paires_sentiers(c1) == nb_paires_sentiers(c2),
{
    lemme_paires_grille_egal(c1, c2, c1.len() as int);
}

proof fn lemme_paires_grille_egal(c1: Seq<Seq<Cellule>>, c2: Seq<Seq<Cellule>>, borne: int)
    requires
        c1.len() == c2.len(),
        forall|z: int| 0 <= z < c1.len() ==> (#[trigger] c1[z]).len() == c2[z].len(),
        forall|z: int, x: int|
            0 <= z < c1.len() && 0 <= x < c1[z].len() ==> (#[trigger] c1[z][x]).sentier
                == c2[z][x].sentier,
        borne <= c1.len(),
    ensures
        paires_sentiers_grille(c1, borne) == paires_sentiers_grille(c2, borne),
    decreases borne,
{
    if borne > 0 {
        lemme_paires_grille_egal(c1, c2, borne - 1);
        lemme_paires_rangee_egal(c1[borne - 1], c2[borne - 1], c1[borne - 1].len() as int);
        if borne < c1.len() {
            lemme_paires_rangees_egal(
                c1[borne - 1],
                c1[borne],
                c2[borne - 1],
                c2[borne],
                c1[borne - 1].len() as int,
            );
        }
    }
}

/// Une grille sans aucun sentier n'a aucune paire de sentiers.
pub proof fn lemme_paires_nulles(c: Seq<Seq<Cellule>>)
    requires
        forall|z: int, x: int|
            0 <= z < c.len() && 0 <= x < c[z].len() ==> !(#[trigger] c[z][x]).sentier,
    ensures
        nb_paires_sentiers(c) == 0,
{
    lemme_paires_grille_nulles(c, c.len() as int);
}

proof fn lemme_paires_grille_nulles(c: Seq<Seq<Cellule>>, borne: int)
    requires
        forall|z: int, x: int|
            0 <= z < c.len() && 0 <= x < c[z].len() ==> !(#[trigger] c[z][x]).sentier,
        borne <= c.len(),
    ensures
        paires_sentiers_grille(c, borne) == 0,
    decreases borne,
{
    if borne > 0 {
        lemme_paires_grille_nulles(c, borne - 1);
        lemme_paires_rangee_nulles(c[borne - 1], c[borne - 1].len() as int);
        if borne < c.len() {
            lemme_paires_rangees_nulles(c[borne - 1], c[borne], c[borne - 1].len() as int);
        }
    }
}

proof fn lemme_paires_rangee_nulles(r: Seq<Cellule>, borne: int)
    requires
        forall|x: int| 0 <= x < r.len() ==> !(#[trigger] r[x]).sentier,
    ensures
        paires_sentiers_rangee(r, borne) == 0,
    decreases borne,
{
    if borne > 0 {
        lemme_paires_rangee_nulles(r, borne - 1);
    }
}

proof fn lemme_paires_rangees_nulles(r1: Seq<Cellule>, r2: Seq<Cellule>, borne: int)
    requires
        forall|x: int| 0 <= x < r1.len() ==> !(#[trigger] r1[x]).sentier,
    ensures
        paires_sentiers_rangees(r1, r2, borne) == 0,
    decreases borne,
{
    if borne > 0 {
        lemme_paires_rangees_nulles(r1, r2, borne - 1);
    }
}

proof fn lemme_paires_rangee_maj(r1: Seq<Cellule>, r2: Seq<Cellule>, x: int, borne: int)
    requires
        0 <= x < r1.len(),
        r2 == r1.update(x, r2[x]),
        r2[x].sentier,
        !r1[x].sentier,
    ensures
        paires_sentiers_rangee(r2, borne) == paires_sentiers_rangee(r1, borne) + (
        if 1 <= x && x <= borne && x < r1.len() && r1[x - 1].sentier {
            1int
        } else {
            0int
        }) + (
        if x + 1 <= borne && x + 1 < r1.len() && r1[x + 1].sentier {
            1int
        } else {
            0int
        }),
    decreases borne,
{
    if borne > 0 {
        lemme_paires_rangee_maj(r1, r2, x, borne - 1);
    }
}

proof fn lemme_paires_rangees_maj_premiere(
    r1: Seq<Cellule>,
    r2: Seq<Cellule>,
    bas: Seq<Cellule>,
    x: int,
    borne: int,
)
    requires
        0 <= x < r1.len(),
        r2 == r1.update(x, r2[x]),
        r2[x].sentier,
        !r1[x].sentier,
    ensures
        paires_sentiers_rangees(r2, bas, borne) == paires_sentiers_rangees(r1, bas, borne) + (
        if x < borne && x < bas.len() && bas[x].sentier {
            1int
        } else {
            0int
        }),
    decreases borne,
{
    if borne > 0 {
        lemme_paires_rangees_maj_premiere(r1, r2, bas, x, borne - 1);
    }
}

proof fn lemme_paires_rangees_maj_seconde(
    haut: Seq<Cellule>,
    r1: Seq<Cellule>,
    r2: Seq<Cellule>,
    x: int,
    borne: int,
)
    requires
        0 <= x < r1.len(),
        r2 == r1.update(x, r2[x]),
        r2[x].sentier,
        !r1[x].sentier,
    ensures
        paires_sentiers_rangees(haut, r2, borne) == paires_sentiers_rangees(haut, r1, borne) + (
        if x < borne && x < haut.len() && haut[x].sentier {
            1int
        } else {
            0int
        }),
    decreases borne,
{
    if borne > 0 {
        lemme_paires_rangees_maj_seconde(haut, r1, r2, x, borne - 1);
    }
}

/// Ouvrir une cellule en sentier ajoute exactement autant de paires de
/// sentiers adjacentes que la cellule comptait de voisins sentiers.
pub proof fn lemme_paires_maj(
    c1: Seq<Seq<Cellule>>,
    c2: Seq<Seq<Cellule>>,
    longueur: int,
    largeur: int,
    x: int,
    z: int,
)
    requires
        grille_bien_formee(c1, longueur, largeur),
        dans_grille(longueur, largeur, x, z),
        c2 == c1.update(z, c2[z]),
        c2[z] == c1[z].update(x, c2[z][x]),
        c2[z][x].sentier,
        !c1[z][x].sentier,
    ensures
        nb_paires_sentiers(c2) == nb_paires_sentiers(c1) + nb_voisins_sentier(
            c1,
            longueur,
            largeur,
            x,
            z,
        ),
{
    assert(c1[z].len() == longueur) by {
        assert(cellule_a(c1, 0, z) == c1[z][0]);
    }
    lemme_paires_grille_maj(c1, c2, longueur, largeur, x, z, c1.len() as int);
    assert(sentier_a(c1, longueur, largeur, x - 1, z) == (x >= 1 && c1[z][x - 1].sentier));
    assert(sentier_a(c1, longueur, largeur, x + 1, z) == (x + 1 < longueur && c1[z][x
        + 1].sentier));
    assert(sentier_a(c1, longueur, largeur, x, z - 1) == (z >= 1 && c1[z - 1][x].sentier));
    assert(sentier_a(c1, longueur, largeur, x, z + 1) == (z + 1 < largeur && c1[z + 1][x].sentier));
}

proof fn lemme_paires_grille_maj(
    c1: Seq<Seq<Cellule>>,
    c2: Seq<Seq<Cellule>>,
    longueur: int,
    largeur: int,
    x: int,
    z: int,
    borne: int,
)
    requires
        grille_bien_formee(c1, longueur, largeur),
        dans_grille(longueur, largeur, x, z),
        c2 == c1.update(z, c2[z]),
        c2[z] == c1[z].update(x, c2[z][x]),
        c2[z][x].sentier,
        !c1[z][x].sentier,
        borne <= c1.len(),
    ensures
        paires_sentiers_grille(c2, borne) == paires_sentiers_grille(c1, borne) + (
        if z + 1 <= borne && x >= 1 && c1[z][x - 1].sentier {
            1int
        } else {
            0int
        }) + (
        if z + 1 <= borne && x + 1 < longueur && c1[z][x + 1].sentier {
            1int
        } else {
            0int
        }) + (
        if z <= borne && z >= 1 && c1[z - 1][x].sentier {
            1int
        } else {
            0int
        }) + (
        if z + 1 <= borne && z + 1 < largeur && c1[z + 1][x].sentier {
            1int
        } else {
            0int
        }),
    decreases borne,
{
    assert(c1[z].len() == longueur) by {
        assert(cellule_a(c1, 0, z) == c1[z][0]);
    }
    assert(c2[z].len() == longueur);
    if borne > 0 {
        lemme_paires_grille_maj(c1, c2, longueur, largeur, x, z, borne - 1);
        let b = borne - 1;
        assert(c2.len() == c1.len());
        if b == z {
            // la rangee changee : paires horizontales, et verticales vers le bas
            lemme_paires_rangee_maj(c1[z], c2[z], x, longueur);
            if borne < c1.len() {
                assert(c2[borne] == c1[borne]);
                assert(c1[borne].len() == longueur) by {
                    assert(cellule_a(c1, 0, borne) == c1[borne][0]);
                }
                lemme_paires_rangees_maj_premiere(c1[z], c2[z], c1[borne], x, longueur);
            }
        } else if b == z - 1 {
            // la rangee au-dessus de la changee : ses paires verticales avec elle
            assert(c2[b] == c1[b]);
            assert(c1[b].len() == longueur) by {
                assert(cellule_a(c1, 0, b) == c1[b][0]);
            }
            lemme_paires_rangees_maj_seconde(c1[b], c1[z], c2[z], x, longueur);
        } else {
            // rangee intacte, voisines intactes
            assert(c2[b] == c1[b]);
            if borne < c1.len() {
                assert(c2[borne] == c1[borne]);
            }
        }
    }
}

/// La position est dans la grille et n'est pas un sentier (cellule pleine).
pub open spec fn pleine_a(c: Seq<Seq<Cellule>>, longueur: int, largeur: int, x: int, z: int) -> bool {
    dans_grille(longueur, largeur, x, z) && !cellule_a(c, x, z).sentier
}

/// Valeur d'une cellule apres l'elagage : chaque mur partage entre deux
/// cellules pleines tombe, les autres restent tels quels.
pub open spec fn elague_cellule(
    c: Seq<Seq<Cellule>>,
    longueur: int,
    largeur: int,
    x: int,
    z: int,
) -> Cellule {
    let cel = cellule_a(c, x, z);
    Cellule {
        mur_gauche: cel.mur_gauche && !(pleine_a(c, longueur, largeur, x, z) && pleine_a(
            c,
            longueur,
            largeur,
            x - 1,
            z,
        )),
        mur_droit: cel.mur_droit && !(pleine_a(c, longueur, largeur, x, z) && pleine_a(
            c,
            longueur,
            largeur,
            x + 1,
            z,
        )),
        mur_haut: cel.mur_haut && !(pleine_a(c, longueur, largeur, x, z) && pleine_a(
            c,
            longueur,
            largeur,
            x,
            z + 1,
        )),
        mur_bas: cel.mur_bas && !(pleine_a(c, longueur, largeur, x, z) && pleine_a(
            c,
            longueur,
            largeur,
            x,
            z - 1,
        )),
        ..cel
    }
}

/// La grille entiere apres l'elagage des murs doubles.
pub open spec fn elague_grille(c: Seq<Seq<Cellule>>, longueur: int, largeur: int) -> Seq<
    Seq<Cellule>,
> {
    Seq::new(
        largeur as nat,
        |z: int| Seq::new(longueur as nat, |x: int| elague_cellule(c, longueur, largeur, x, z)),
    )
}

/// L'elagage est idempotent : le refaire sur une grille deja elaguee
/// la laisse identique.
pub proof fn lemme_elagage_idempotent(c: Seq<Seq<Cellule>>, longueur: int, largeur: int)
    requires
        0 <= longueur,
        0 <= largeur,
    ensures
        elague_grille(elague_grille(c, longueur, largeur), longueur, largeur) == elague_grille(
            c,
            longueur,
            largeur,
        ),
{
    let e1 = elague_grille(c, longueur, largeur);
    let e2 = elague_grille(e1, longueur, largeur);
    assert forall|x: int, z: int| dans_grille(longueur, largeur, x, z) implies #[trigger] cellule_a(
        e2,
        x,
        z,
    ) == cellule_a(e1, x, z) by {
        assert(cellule_a(e1, x, z) == elague_cellule(c, longueur, largeur, x, z));
        assert(cellule_a(e2, x, z) == elague_cellule(e1, longueur, largeur, x, z));
        assert(forall|a: int, b: int|
            dans_grille(longueur, largeur, a, b) ==> #[trigger] cellule_a(e1, a, b)
                == elague_cellule(c, longueur, largeur, a, b));
    }
    assert(e2 =~~= e1);
}

/// Apres l'elagage, aucun mur ne subsiste entre deux cellules pleines
/// adjacentes : les deux drapeaux du mur partage sont tombes.
pub proof fn lemme_murs_amincis(c: Seq<Seq<Cellule>>, longueur: int, largeur: int)
    ensures
        forall|x: int, z: int|
            dans_grille(longueur, largeur, x + 1, z) && pleine_a(c, longueur, largeur, x, z)
                && pleine_a(c, longueur, largeur, x + 1, z) ==> !(#[trigger] cellule_a(
                elague_grille(c, longueur, largeur),
                x,
                z,
            )).mur_droit && !cellule_a(elague_grille(c, longueur, largeur), x + 1, z).mur_gauche,
        forall|x: int, z: int|
            dans_grille(longueur, largeur, x, z + 1) && pleine_a(c, longueur, largeur, x, z)
                && pleine_a(c, longueur, largeur, x, z + 1) ==> !(#[trigger] cellule_a(
                elague_grille(c, longueur, largeur),
                x,
                z,
            )).mur_haut && !cellule_a(elague_grille(c, longueur, largeur), x, z + 1).mur_bas,
{
}


/// Nombre de drapeaux de murs leves d'une cellule.
pub open spec fn nb_murs_cellule(c: Cellule) -> int {
    (if c.mur_gauche { 1int } else { 0int })
    + (if c.mur_haut { 1int } else { 0int })
    + (if c.mur_droit { 1int } else { 0int })
    + (if c.mur_bas { 1int } else { 0int })
}

/// Nombre de drapeaux de murs leves parmi les `borne` premieres cellules
/// d'une rangee.
pub open spec fn nb_murs_rangee(r: Seq<Cellule>, borne: int) -> int
    decreases borne,
{
    if borne <= 0 {
        0
    } else {
        nb_murs_rangee(r, borne - 1) + nb_murs_cellule(r[borne - 1])
    }
}

/// Nombre de drapeaux de murs leves parmi les `borne` premieres rangees
/// de la grille.
pub open spec fn nb_murs_grille(c: Seq<Seq<Cellule>>, borne: int) -> int
    decreases borne,
{
    if borne <= 0 {
        0
    } else {
        nb_murs_grille(c, borne - 1) + nb_murs_rangee(c[borne - 1], c[borne - 1].len() as int)
    }
}

/// Nombre total de drapeaux de murs leves de la grille.
pub open spec fn nb_murs(c: Seq<Seq<Cellule>>) -> int {
    nb_murs_grille(c, c.len() as int)
}

/// Etat des murs d'un labyrinthe acheve : chaque cellule sentier n'a garde
/// que ses murs de perimetre; chaque cellule pleine porte un mur la ou son
/// voisin est un sentier ou l'exterieur, et aucun la ou il est plein.
pub open spec fn murs_conformes(c: Seq<Seq<Cellule>>, longueur: int, largeur: int) -> bool {
    forall|x: int, z: int|
        dans_grille(longueur, largeur, x, z) ==> {
            let cel = #[trigger] cellule_a(c, x, z);
            if cel.sentier {
                &&& cel.mur_gauche == (x == 0)
                &&& cel.mur_droit == (x + 1 == longueur)
                &&& cel.mur_bas == (z == 0)
                &&& cel.mur_haut == (z + 1 == largeur)
            } else {
                &&& cel.mur_gauche == !pleine_a(c, longueur, largeur, x - 1, z)
                &&& cel.mur_droit == !pleine_a(c, longueur, largeur, x + 1, z)
                &&& cel.mur_bas == !pleine_a(c, longueur, largeur, x, z - 1)
                &&& cel.mur_haut == !pleine_a(c, longueur, largeur, x, z + 1)
            }
        }
}

/// Dans un labyrinthe aux murs conformes, aucun mur epais ne subsiste :
/// entre deux cellules pleines adjacentes, le drapeau du mur partage est
/// tombe des deux cotes.
pub proof fn lemme_pas_de_murs_epais(c: Seq<Seq<Cellule>>, longueur: int, largeur: int)
    requires
        murs_conformes(c, longueur, largeur),
    ensures
        forall|x: int, z: int|
            dans_grille(longueur, largeur, x + 1, z) && pleine_a(c, longueur, largeur, x, z)
                && pleine_a(c, longueur, largeur, x + 1, z) ==> !(#[trigger] cellule_a(
                c,
                x,
                z,
            )).mur_droit && !cellule_a(c, x + 1, z).mur_gauche,
        forall|x: int, z: int|
            dans_grille(longueur, largeur, x, z + 1) && pleine_a(c, longueur, largeur, x, z)
                && pleine_a(c, longueur, largeur, x, z + 1) ==> !(#[trigger] cellule_a(
                c,
                x,
                z,
            )).mur_haut && !cellule_a(c, x, z + 1).mur_bas,
{
}

/// Dans un labyrinthe aux murs conformes, le mur entre deux cellules
/// sentier adjacentes est ouvert des deux cotes : un parcours de sentier
/// ne traverse jamais de mur.
pub proof fn lemme_sentiers_ouverts(c: Seq<Seq<Cellule>>, longueur: int, largeur: int)
    requires
        murs_conformes(c, longueur, largeur),
    ensures
        forall|x: int, z: int|
            dans_grille(longueur, largeur, x + 1, z) && sentier_a(c, longueur, largeur, x, z)
                && sentier_a(c, longueur, largeur, x + 1, z) ==> !(#[trigger] cellule_a(
                c,
                x,
                z,
            )).mur_droit && !cellule_a(c, x + 1, z).mur_gauche,
        forall|x: int, z: int|
            dans_grille(longueur, largeur, x, z + 1) && sentier_a(c, longueur, largeur, x, z)
                && sentier_a(c, longueur, largeur, x, z + 1) ==> !(#[trigger] cellule_a(
                c,
                x,
                z,
            )).mur_haut && !cellule_a(c, x, z + 1).mur_bas,
{
}

} // verus!

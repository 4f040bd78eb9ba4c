//! Lumieres ponctuelles du labyrinthe : points du monde en virgule fixe,
//! torche posee sur un mur, et tableau borne de lumieres rendu a chaque
//! image. Les couleurs sont des entiers en virgule fixe ou
//! `COULEUR_UNITE` vaut l'intensite pleine.

use vstd::prelude::*;
use crate::aleatoire::GenerateurAleatoire;
use crate::cellule::Cellule;

verus! {

/// Intensite pleine d'un canal de couleur, en virgule fixe.
pub const COULEUR_UNITE: i64 = 10_000;

/// Part aleatoire d'un canal de couleur d'une torche.
pub const LUMIERE_ALEATOIRE: i64 = 6_000;

/// Part fixe d'un canal de couleur d'une torche
/// (`LUMIERE_BASE + LUMIERE_ALEATOIRE == COULEUR_UNITE`).
pub const LUMIERE_BASE: i64 = 4_000;

/// Coordonnee "a l'infini" des fentes de lumiere inoccupees.
pub const INFINI_POSITION: i64 = 100_000_000;

/// Borne sur les coordonnees du monde que les requetes acceptent.
pub const BORNE_MONDE: i64 = 200_000_000;

/// Distance carree sentinelle, au-dela de toute distance atteignable
/// entre deux points bornes par `BORNE_MONDE`.
pub const INFINI_DISTANCE: i64 = 1_000_000_000_000_000_000;

/// Nombre de fentes du tableau de lumieres rendu a chaque image
/// (la derniere est reservee au halo de l'observateur).
pub const NOMBRE_LUMIERES: usize = 8;

/// Borne sur les coordonnees d'une lumiere posee par le labyrinthe
/// (les torches restent pres de la grille, jamais a l'infini).
pub const BORNE_LUMIERE: i64 = 101_000;

/// Un point du monde, en virgule fixe.
#[derive(Clone, Copy, Debug, PartialEq, Eq, Structural)]
pub struct Point3 {
    pub x: i64,
    pub y: i64,
    pub z: i64,
}

/// Un point homogene du monde (`w == 1` pour un point ordinaire).
#[derive(Clone, Copy, Debug, PartialEq, Eq, Structural)]
pub struct Point4 {
    pub x: i64,
    pub y: i64,
    pub z: i64,
    pub w: i64,
}

/// Une lumiere posee : la flamme, son point d'attache bas, et sa couleur.
#[derive(Clone, Copy, Debug, PartialEq, Eq, Structural)]
pub struct Lumiere {
    pub position: Point4,
    pub position_bas: Point4,
    pub couleur: Point4,
}

/// Couleur admissible d'une torche : chaque canal entre la part fixe et
/// l'intensite pleine, alpha plein.
pub open spec fn couleur_torche(c: Point4) -> bool {
    &&& LUMIERE_BASE <= c.x < LUMIERE_BASE + LUMIERE_ALEATOIRE
    &&& LUMIERE_BASE <= c.y < LUMIERE_BASE + LUMIERE_ALEATOIRE
    &&& LUMIERE_BASE <= c.z < LUMIERE_BASE + LUMIERE_ALEATOIRE
    &&& c.w == COULEUR_UNITE
}

/// Une lumiere telle que le labyrinthe les pose : points homogenes
/// ordinaires, coordonnees bornees, couleur de torche.
pub open spec fn lumiere_admissible(l: Lumiere) -> bool {
    &&& -BORNE_LUMIERE <= l.position.x <= BORNE_LUMIERE
    &&& -BORNE_LUMIERE <= l.position.y <= BORNE_LUMIERE
    &&& -BORNE_LUMIERE <= l.position.z <= BORNE_LUMIERE
    &&& l.position.w == 1
    &&& -BORNE_LUMIERE <= l.position_bas.x <= BORNE_LUMIERE
    &&& -BORNE_LUMIERE <= l.position_bas.y <= BORNE_LUMIERE
    &&& -BORNE_LUMIERE <= l.position_bas.z <= BORNE_LUMIERE
    &&& l.position_bas.w == 1
    &&& couleur_torche(l.couleur)
}

impl Lumiere {
    /// Construit une lumiere aux positions donnees; la couleur recoit la
    /// part fixe plus une part aleatoire par canal.
    pub fn new(
        x: i64,
        y: i64,
        z: i64,
        x_bas: i64,
        y_bas: i64,
        z_bas: i64,
        generateur: &mut GenerateurAleatoire,
    ) -> (l: Lumiere)
        ensures
            l.position == (Point4 { x, y, z, w: 1 }),
            l.position_bas == (Point4 { x: x_bas, y: y_bas, z: z_bas, w: 1 }),
            couleur_torche(l.couleur),
            *old(generateur) is Fixe ==> l.couleur == couleur_torche_fixe() && *final(generateur)
                == *old(generateur),
    {
        let rouge = LUMIERE_BASE + generateur.nombre_aleatoire(LUMIERE_ALEATOIRE);
        let vert = LUMIERE_BASE + generateur.nombre_aleatoire(LUMIERE_ALEATOIRE);
        let bleu = LUMIERE_BASE + generateur.nombre_aleatoire(LUMIERE_ALEATOIRE);
        Lumiere {
            position: Point4 { x, y, z, w: 1 },
            position_bas: Point4 { x: x_bas, y: y_bas, z: z_bas, w: 1 },
            couleur: Point4 { x: rouge, y: vert, z: bleu, w: COULEUR_UNITE },
        }
    }

    /// Emet la torche de cette lumiere : flamme, attache basse, texture.
    pub fn ajouter_geometrie(
        &self,
        indice_texture: u32,
        donnees: &mut crate::geometrie::DonneesGeometrie,
    )
        ensures
            final(donnees).plans@ == old(donnees).plans@,
            final(donnees).torches@.len() == old(donnees).torches@.len() + 1,
            forall|i: int|
                0 <= i < old(donnees).torches@.len() ==> #[trigger] final(donnees).torches@[i]
                    == old(donnees).torches@[i],
            crate::geometrie::torche_de_lumiere(
                final(donnees).torches@.last(),
                *self,
                indice_texture,
            ),
    {
        donnees.ajouter_torche(
            crate::geometrie::Torche {
                position: Point3 { x: self.position.x, y: self.position.y, z: self.position.z },
                position_bas: Point3 {
                    x: self.position_bas.x,
                    y: self.position_bas.y,
                    z: self.position_bas.z,
                },
                indice_texture,
            },
        );
    }
}

/// Le point homogene vaut exactement `(x, y, z, 1)`.
pub open spec fn point_vaut(p: Point4, x: int, y: int, z: int) -> bool {
    p.x == x && p.y == y && p.z == z && p.w == 1
}

/// Le point du monde vaut exactement `(x, y, z)`.
pub open spec fn p3_vaut(p: Point3, x: int, y: int, z: int) -> bool {
    p.x == x && p.y == y && p.z == z
}

/// La lumiere est une torche conforme pour la cellule `c` : accrochee a
/// l'un des murs presents de la cellule, flamme decalee vers l'interieur
/// a 85 % de la hauteur, attache plus bas et plus pres du mur, couleur de
/// torche. Les formules sont en virgule fixe, pour un cote de 100 et une
/// hauteur de 200 unites.
pub open spec fn torche_conforme(c: Cellule, decalage: Point3, l: Lumiere) -> bool {
    let x = decalage.x + 100 * c.x + 50;
    let y = decalage.y + 170;
    let z = decalage.z + 100 * c.z + 50;
    let y_bas = y - 40;
    &&& couleur_torche(l.couleur)
    &&& {
        ||| (c.mur_gauche && point_vaut(l.position, x - 70, y, z) && point_vaut(
            l.position_bas,
            x - 45,
            y_bas,
            z,
        ))
        ||| (c.mur_haut && point_vaut(l.position, x, y, z + 70) && point_vaut(
            l.position_bas,
            x,
            y_bas,
            z + 45,
        ))
        ||| (c.mur_droit && point_vaut(l.position, x + 70, y, z) && point_vaut(
            l.position_bas,
            x + 45,
            y_bas,
            z,
        ))
        ||| (c.mur_bas && point_vaut(l.position, x, y, z - 70) && point_vaut(
            l.position_bas,
            x,
            y_bas,
            z - 45,
        ))
    }
}


/// Couleur d'une torche tiree de la source fixe : la part aleatoire de
/// chaque canal vaut zero.
pub open spec fn couleur_torche_fixe() -> Point4 {
    Point4 { x: LUMIERE_BASE, y: LUMIERE_BASE, z: LUMIERE_BASE, w: COULEUR_UNITE }
}

/// La torche du premier mur present de la cellule, dans l'ordre gauche,
/// haut, droit, bas : c'est le mur que la pose choisit quand toutes ses
/// portes aleatoires passent (ce que fait la source fixe).
pub open spec fn torche_premier_mur(c: Cellule, decalage: Point3, l: Lumiere) -> bool {
    let x = decalage.x + 100 * c.x + 50;
    let y = decalage.y + 170;
    let z = decalage.z + 100 * c.z + 50;
    let y_bas = y - 40;
    if c.mur_gauche {
        point_vaut(l.position, x - 70, y, z) && point_vaut(l.position_bas, x - 45, y_bas, z)
    } else if c.mur_haut {
        point_vaut(l.position, x, y, z + 70) && point_vaut(l.position_bas, x, y_bas, z + 45)
    } else if c.mur_droit {
        point_vaut(l.position, x + 70, y, z) && point_vaut(l.position_bas, x + 45, y_bas, z)
    } else if c.mur_bas {
        point_vaut(l.position, x, y, z - 70) && point_vaut(l.position_bas, x, y_bas, z - 45)
    } else {
        false
    }
}

/// La lumiere est une torche conforme d'une cellule pleine interieure de
/// la grille donnee.
pub open spec fn torche_de_grille(
    c: Seq<Seq<crate::cellule::Cellule>>,
    longueur: int,
    largeur: int,
    decalage: Point3,
    l: Lumiere,
) -> bool {
    exists|a: int, b: int|
        1 <= a < longueur - 1 && 1 <= b < largeur - 1 && !crate::grille::cellule_a(
            c,
            a,
            b,
        ).sentier && torche_conforme(crate::grille::cellule_a(c, a, b), decalage, l)
}

/// Distance au carre entre l'observateur et un point homogene.
pub open spec fn distance2(p: Point3, q: Point4) -> int {
    (p.x - q.x) * (p.x - q.x) + (p.y - q.y) * (p.y - q.y) + (p.z - q.z) * (p.z - q.z)
}

/// Couleur du halo de vision propre a l'observateur : un cyan sombre.
pub open spec fn couleur_halo() -> Point4 {
    Point4 { x: 5_000, y: 5_200, z: 5_400, w: COULEUR_UNITE }
}

/// L'indice `j` figure dans la selection `sel`.
pub open spec fn indice_choisi(sel: Seq<int>, j: int) -> bool {
    exists|k: int| 0 <= k < sel.len() && sel[k] == j
}

/// Distance au carre, calculee en virgule fixe; toujours sous la
/// sentinelle pour des entrees bornees.
pub fn distance_carree(position: &Point3, cible: &Point4) -> (d: i64)
    requires
        -BORNE_MONDE <= position.x <= BORNE_MONDE,
        -BORNE_MONDE <= position.y <= BORNE_MONDE,
        -BORNE_MONDE <= position.z <= BORNE_MONDE,
        -BORNE_LUMIERE <= cible.x <= BORNE_LUMIERE,
        -BORNE_LUMIERE <= cible.y <= BORNE_LUMIERE,
        -BORNE_LUMIERE <= cible.z <= BORNE_LUMIERE,
    ensures
        d == distance2(*position, *cible),
        0 <= d < INFINI_DISTANCE,
{
    let dx = position.x - cible.x;
    let dy = position.y - cible.y;
    let dz = position.z - cible.z;
    proof {
        assert(0 <= dx * dx <= 300_000_000_000_000_000 && 0 <= dy * dy
            <= 300_000_000_000_000_000 && 0 <= dz * dz <= 300_000_000_000_000_000)
            by (nonlinear_arith)
            requires
                -200_101_000 <= dx <= 200_101_000,
                -200_101_000 <= dy <= 200_101_000,
                -200_101_000 <= dz <= 200_101_000,
        ;
    }
    dx * dx + dy * dy + dz * dz
}

/// Nombre de fentes reellement occupees pour `nb` lumieres posees :
/// toutes les fentes sauf celle du halo, ou moins s'il y a moins de
/// lumieres que de fentes.
pub open spec fn borne_reelle(nb: int) -> int {
    if nb < NOMBRE_LUMIERES - 1 {
        nb
    } else {
        NOMBRE_LUMIERES as int - 1
    }
}

/// La selection `sel` justifie le tableau `r` : autant d'indices que de
/// fentes occupees, tous distincts et en bornes, chaque fente copiant la
/// lumiere choisie, et aucune lumiere non choisie strictement plus proche
/// de l'observateur qu'une lumiere choisie.
pub open spec fn selection_correcte(
    lumieres: Seq<Lumiere>,
    position: Point3,
    r: Lumieres,
    sel: Seq<int>,
) -> bool {
    &&& sel.len() == borne_reelle(lumieres.len() as int)
    &&& forall|k: int| 0 <= k < sel.len() ==> 0 <= #[trigger] sel[k] < lumieres.len()
    &&& forall|k1: int, k2: int| 0 <= k1 < k2 < sel.len() ==> sel[k1] != sel[k2]
    &&& forall|k: int|
        0 <= k < sel.len() ==> r.positions@[k] == lumieres[#[trigger] sel[k]].position
            && r.couleurs@[k] == lumieres[sel[k]].couleur
    &&& forall|j: int, k: int|
        #![trigger lumieres[j], sel[k]]
        0 <= j < lumieres.len() && !indice_choisi(sel, j) && 0 <= k < sel.len() ==> distance2(
            position,
            lumieres[j].position,
        ) >= distance2(position, lumieres[sel[k]].position)
}

/// Le tableau borne de lumieres rendu au moteur : `NOMBRE_LUMIERES`
/// positions homogenes et autant de couleurs.
pub struct Lumieres {
    pub positions: Vec<Point4>,
    pub couleurs: Vec<Point4>,
}

/// Valeur sentinelle d'une fente inoccupee : un point a l'infini.
pub open spec fn position_sentinelle() -> Point4 {
    Point4 { x: INFINI_POSITION, y: INFINI_POSITION, z: INFINI_POSITION, w: 1 }
}

/// Couleur neutre (blanc plein) d'une fente inoccupee.
pub open spec fn couleur_sentinelle() -> Point4 {
    Point4 { x: COULEUR_UNITE, y: COULEUR_UNITE, z: COULEUR_UNITE, w: COULEUR_UNITE }
}

impl Lumieres {
    /// Le tableau a toujours exactement `NOMBRE_LUMIERES` fentes.
    pub open spec fn bien_forme(self) -> bool {
        self.positions@.len() == NOMBRE_LUMIERES && self.couleurs@.len() == NOMBRE_LUMIERES
    }

    /// Tableau entierement sentinelle : points a l'infini, couleurs neutres.
    pub fn new() -> (r: Lumieres)
        ensures
            r.bien_forme(),
            forall|i: int|
                0 <= i < NOMBRE_LUMIERES ==> #[trigger] r.positions@[i] == position_sentinelle(),
            forall|i: int|
                0 <= i < NOMBRE_LUMIERES ==> #[trigger] r.couleurs@[i] == couleur_sentinelle(),
    {
        let mut positions: Vec<Point4> = Vec::new();
        let mut couleurs: Vec<Point4> = Vec::new();
        let mut i: usize = 0;
        while i < NOMBRE_LUMIERES
            invariant
                i <= NOMBRE_LUMIERES,
                positions@.len() == i,
                couleurs@.len() == i,
                forall|j: int| 0 <= j < i ==> #[trigger] positions@[j] == position_sentinelle(),
                forall|j: int| 0 <= j < i ==> #[trigger] couleurs@[j] == couleur_sentinelle(),
            decreases NOMBRE_LUMIERES - i,
        {
            positions.push(
                Point4 { x: INFINI_POSITION, y: INFINI_POSITION, z: INFINI_POSITION, w: 1 },
            );
            couleurs.push(
                Point4 { x: COULEUR_UNITE, y: COULEUR_UNITE, z: COULEUR_UNITE, w: COULEUR_UNITE },
            );
            i = i + 1;
        }
        Lumieres { positions, couleurs }
    }
}

} // verus!

//! Geometrie a emettre pour le rendu : plans de murs, de sol et de
//! plafond en virgule fixe, torches, et flux d'indices en bande de
//! triangles avec raccords degeneres. Le moteur de rendu tesselle chaque
//! plan en sommets flottants; la bibliotheque fixe les coins exacts et le
//! flux d'indices.

use vstd::prelude::*;
use crate::cellule::Cellule;
use crate::grille::{cellule_a, dans_grille};
use crate::lumiere::{p3_vaut, Lumiere, Point3};

verus! {

/// Parametres de texture d'une surface : echelles de repetition en
/// virgule fixe (100 = une repetition par unite) et indice de texture.
#[derive(Clone, Copy, Debug, PartialEq, Eq, Structural)]
pub struct ParametresTexture {
    pub echelle_u: i64,
    pub echelle_v: i64,
    pub indice: u32,
}

/// Un plan rectangulaire a tesseller : trois coins en virgule fixe, le
/// nombre de colonnes et de rangees de la subdivision, et sa texture.
#[derive(Clone, Copy, Debug, PartialEq, Eq, Structural)]
pub struct Plan {
    pub colonnes: u32,
    pub rangees: u32,
    pub coin_bas_gauche: Point3,
    pub coin_haut_gauche: Point3,
    pub coin_bas_droit: Point3,
    pub texture: ParametresTexture,
}

/// Une torche a dessiner : la flamme, son attache basse, et sa texture.
#[derive(Clone, Copy, Debug, PartialEq, Eq, Structural)]
pub struct Torche {
    pub position: Point3,
    pub position_bas: Point3,
    pub indice_texture: u32,
}

/// Les donnees de geometrie accumulees pour le rendu.
pub struct DonneesGeometrie {
    pub plans: Vec<Plan>,
    pub torches: Vec<Torche>,
}

impl DonneesGeometrie {
    pub fn new() -> (r: DonneesGeometrie)
        ensures
            r.plans@.len() == 0,
            r.torches@.len() == 0,
    {
        DonneesGeometrie { plans: Vec::new(), torches: Vec::new() }
    }

    /// Ajoute un plan au flux.
    pub fn ajouter_plan(&mut self, plan: Plan)
        ensures
            final(self).plans@ == old(self).plans@.push(plan),
            final(self).torches@ == old(self).torches@,
    {
        self.plans.push(plan);
    }

    /// Ajoute une torche au flux.
    pub fn ajouter_torche(&mut self, torche: Torche)
        ensures
            final(self).plans@ == old(self).plans@,
            final(self).torches@ == old(self).torches@.push(torche),
    {
        self.torches.push(torche);
    }
}


/// Subdivision d'un plan de mur de cellule : colonnes et rangees.
pub const COLONNES_MUR: u32 = 8;

/// Subdivision d'un plan de mur de cellule : rangees.
pub const RANGEES_MUR: u32 = 16;

/// Subdivision des grandes surfaces, en quads par cellule.
pub const TRIANGLES_PAR_UNITE: u32 = 4;

/// Le plan est le mur gauche de la cellule `c` (face en `x`), du sol au
/// plafond, avec la texture des murs.
pub open spec fn plan_mur_gauche(p: Plan, c: Cellule, d: Point3, tex: ParametresTexture) -> bool {
    &&& p.colonnes == COLONNES_MUR && p.rangees == RANGEES_MUR && p.texture == tex
    &&& p3_vaut(p.coin_bas_gauche, d.x + 100 * c.x, d.y as int, d.z + 100 * c.z + 100)
    &&& p3_vaut(p.coin_haut_gauche, d.x + 100 * c.x, d.y + 200, d.z + 100 * c.z + 100)
    &&& p3_vaut(p.coin_bas_droit, d.x + 100 * c.x, d.y as int, d.z + 100 * c.z)
}

/// Le plan est le mur haut de la cellule `c` (face en `z + 1`).
pub open spec fn plan_mur_haut(p: Plan, c: Cellule, d: Point3, tex: ParametresTexture) -> bool {
    &&& p.colonnes == COLONNES_MUR && p.rangees == RANGEES_MUR && p.texture == tex
    &&& p3_vaut(p.coin_bas_gauche, d.x + 100 * c.x + 100, d.y as int, d.z + 100 * c.z + 100)
    &&& p3_vaut(p.coin_haut_gauche, d.x + 100 * c.x + 100, d.y + 200, d.z + 100 * c.z + 100)
    &&& p3_vaut(p.coin_bas_droit, d.x + 100 * c.x, d.y as int, d.z + 100 * c.z + 100)
}

/// Le plan est le mur droit de la cellule `c` (face en `x + 1`).
pub open spec fn plan_mur_droit(p: Plan, c: Cellule, d: Point3, tex: ParametresTexture) -> bool {
    &&& p.colonnes == COLONNES_MUR && p.rangees == RANGEES_MUR && p.texture == tex
    &&& p3_vaut(p.coin_bas_gauche, d.x + 100 * c.x + 100, d.y as int, d.z + 100 * c.z)
    &&& p3_vaut(p.coin_haut_gauche, d.x + 100 * c.x + 100, d.y + 200, d.z + 100 * c.z)
    &&& p3_vaut(p.coin_bas_droit, d.x + 100 * c.x + 100, d.y as int, d.z + 100 * c.z + 100)
}

/// Le plan est le mur bas de la cellule `c` (face en `z`).
pub open spec fn plan_mur_bas(p: Plan, c: Cellule, d: Point3, tex: ParametresTexture) -> bool {
    &&& p.colonnes == COLONNES_MUR && p.rangees == RANGEES_MUR && p.texture == tex
    &&& p3_vaut(p.coin_bas_gauche, d.x + 100 * c.x, d.y as int, d.z + 100 * c.z)
    &&& p3_vaut(p.coin_haut_gauche, d.x + 100 * c.x, d.y + 200, d.z + 100 * c.z)
    &&& p3_vaut(p.coin_bas_droit, d.x + 100 * c.x + 100, d.y as int, d.z + 100 * c.z)
}

/// Le plan est l'un des murs presents de la cellule `c`.
pub open spec fn plan_de_mur(p: Plan, c: Cellule, d: Point3, tex: ParametresTexture) -> bool {
    ||| (c.mur_gauche && plan_mur_gauche(p, c, d, tex))
    ||| (c.mur_haut && plan_mur_haut(p, c, d, tex))
    ||| (c.mur_droit && plan_mur_droit(p, c, d, tex))
    ||| (c.mur_bas && plan_mur_bas(p, c, d, tex))
}

/// Les plans `s` sont exactement ceux des murs presents de la cellule,
/// dans l'ordre gauche, haut, droit, bas.
pub open spec fn plans_de_cellule(s: Seq<Plan>, c: Cellule, d: Point3, tex: ParametresTexture) -> bool {
    let n_gauche: int = if c.mur_gauche { 1 } else { 0 };
    let n_haut: int = if c.mur_haut { 1 } else { 0 };
    let n_droit: int = if c.mur_droit { 1 } else { 0 };
    let n_bas: int = if c.mur_bas { 1 } else { 0 };
    &&& s.len() == n_gauche + n_haut + n_droit + n_bas
    &&& (c.mur_gauche ==> plan_mur_gauche(s[0], c, d, tex))
    &&& (c.mur_haut ==> plan_mur_haut(s[n_gauche], c, d, tex))
    &&& (c.mur_droit ==> plan_mur_droit(s[n_gauche + n_haut], c, d, tex))
    &&& (c.mur_bas ==> plan_mur_bas(s[n_gauche + n_haut + n_droit], c, d, tex))
}

/// La torche reprend la flamme et l'attache de la lumiere, et l'indice
/// de texture donne.
pub open spec fn torche_de_lumiere(t: Torche, l: Lumiere, indice: u32) -> bool {
    &&& t.indice_texture == indice
    &&& p3_vaut(t.position, l.position.x as int, l.position.y as int, l.position.z as int)
    &&& p3_vaut(t.position_bas, l.position_bas.x as int, l.position_bas.y as int, l.position_bas.z as int)
}


/// Le plan est le mur de l'une des cellules de la grille.
pub open spec fn plan_dans_grille(
    p: Plan,
    c: Seq<Seq<Cellule>>,
    longueur: int,
    largeur: int,
    d: Point3,
    tex: ParametresTexture,
) -> bool {
    exists|a: int, b: int|
        dans_grille(longueur, largeur, a, b) && plan_de_mur(p, cellule_a(c, a, b), d, tex)
}

/// Le flux `s` contient un plan pour chaque mur present de la cellule.
pub open spec fn plans_des_murs_presents(
    s: Seq<Plan>,
    c: Cellule,
    d: Point3,
    tex: ParametresTexture,
) -> bool {
    &&& c.mur_gauche ==> exists|i: int| 0 <= i < s.len() && plan_mur_gauche(#[trigger] s[i], c, d, tex)
    &&& c.mur_haut ==> exists|i: int| 0 <= i < s.len() && plan_mur_haut(#[trigger] s[i], c, d, tex)
    &&& c.mur_droit ==> exists|i: int| 0 <= i < s.len() && plan_mur_droit(#[trigger] s[i], c, d, tex)
    &&& c.mur_bas ==> exists|i: int| 0 <= i < s.len() && plan_mur_bas(#[trigger] s[i], c, d, tex)
}

/// Allonger le flux conserve les plans de murs deja presents.
pub proof fn lemme_murs_presents_prefixe(
    s1: Seq<Plan>,
    s2: Seq<Plan>,
    c: Cellule,
    d: Point3,
    tex: ParametresTexture,
)
    requires
        plans_des_murs_presents(s1, c, d, tex),
        s1.len() <= s2.len(),
        forall|i: int| 0 <= i < s1.len() ==> #[trigger] s2[i] == s1[i],
    ensures
        plans_des_murs_presents(s2, c, d, tex),
{
    if c.mur_gauche {
        let i = choose|i: int| 0 <= i < s1.len() && plan_mur_gauche(#[trigger] s1[i], c, d, tex);
        assert(plan_mur_gauche(s2[i], c, d, tex));
    }
    if c.mur_haut {
        let i = choose|i: int| 0 <= i < s1.len() && plan_mur_haut(#[trigger] s1[i], c, d, tex);
        assert(plan_mur_haut(s2[i], c, d, tex));
    }
    if c.mur_droit {
        let i = choose|i: int| 0 <= i < s1.len() && plan_mur_droit(#[trigger] s1[i], c, d, tex);
        assert(plan_mur_droit(s2[i], c, d, tex));
    }
    if c.mur_bas {
        let i = choose|i: int| 0 <= i < s1.len() && plan_mur_bas(#[trigger] s1[i], c, d, tex);
        assert(plan_mur_bas(s2[i], c, d, tex));
    }
}

/// Le plan est le sol du labyrinthe entier.
pub open spec fn plan_sol(
    p: Plan,
    longueur: int,
    largeur: int,
    d: Point3,
    tex: ParametresTexture,
) -> bool {
    &&& p.colonnes == TRIANGLES_PAR_UNITE * longueur && p.rangees == TRIANGLES_PAR_UNITE * largeur
    &&& p.texture.echelle_u == tex.echelle_u * longueur && p.texture.echelle_v == tex.echelle_v
        * largeur && p.texture.indice == tex.indice
    &&& p3_vaut(p.coin_bas_gauche, d.x as int, d.y as int, d.z as int)
    &&& p3_vaut(p.coin_haut_gauche, d.x as int, d.y as int, d.z + 100 * largeur)
    &&& p3_vaut(p.coin_bas_droit, d.x + 100 * longueur, d.y as int, d.z as int)
}

/// Le plan est le plafond du labyrinthe entier.
pub open spec fn plan_plafond(
    p: Plan,
    longueur: int,
    largeur: int,
    d: Point3,
    tex: ParametresTexture,
) -> bool {
    &&& p.colonnes == TRIANGLES_PAR_UNITE * longueur && p.rangees == TRIANGLES_PAR_UNITE * largeur
    &&& p.texture.echelle_u == tex.echelle_u * longueur && p.texture.echelle_v == tex.echelle_v
        * largeur && p.texture.indice == tex.indice
    &&& p3_vaut(p.coin_bas_gauche, d.x + 100 * longueur, d.y + 200, d.z + 100 * largeur)
    &&& p3_vaut(p.coin_haut_gauche, d.x as int, d.y + 200, d.z + 100 * largeur)
    &&& p3_vaut(p.coin_bas_droit, d.x + 100 * longueur, d.y + 200, d.z as int)
}

/// Le plan est le mur d'enceinte du cote gauche (`x` minimal).
pub open spec fn plan_enceinte_gauche(
    p: Plan,
    longueur: int,
    largeur: int,
    d: Point3,
    tex: ParametresTexture,
) -> bool {
    &&& p.colonnes == TRIANGLES_PAR_UNITE * longueur && p.rangees == TRIANGLES_PAR_UNITE * largeur
    &&& p.texture.echelle_u == tex.echelle_u * longueur && p.texture.echelle_v == tex.echelle_v
        && p.texture.indice == tex.indice
    &&& p3_vaut(p.coin_bas_gauche, d.x as int, d.y as int, d.z as int)
    &&& p3_vaut(p.coin_haut_gauche, d.x as int, d.y + 200, d.z as int)
    &&& p3_vaut(p.coin_bas_droit, d.x as int, d.y as int, d.z + 100 * largeur)
}

/// Le plan est le mur d'enceinte du cote bas (`z` minimal).
pub open spec fn plan_enceinte_bas(
    p: Plan,
    longueur: int,
    largeur: int,
    d: Point3,
    tex: ParametresTexture,
) -> bool {
    &&& p.colonnes == TRIANGLES_PAR_UNITE * longueur && p.rangees == TRIANGLES_PAR_UNITE * largeur
    &&& p.texture.echelle_u == tex.echelle_u * longueur && p.texture.echelle_v == tex.echelle_v
        && p.texture.indice == tex.indice
    &&& p3_vaut(p.coin_bas_gauche, d.x + 100 * longueur, d.y as int, d.z as int)
    &&& p3_vaut(p.coin_haut_gauche, d.x + 100 * longueur, d.y + 200, d.z as int)
    &&& p3_vaut(p.coin_bas_droit, d.x as int, d.y as int, d.z as int)
}

/// Le plan est le mur d'enceinte du cote droit (`x` maximal).
pub open spec fn plan_enceinte_droit(
    p: Plan,
    longueur: int,
    largeur: int,
    d: Point3,
    tex: ParametresTexture,
) -> bool {
    &&& p.colonnes == TRIANGLES_PAR_UNITE * longueur && p.rangees == TRIANGLES_PAR_UNITE * largeur
    &&& p.texture.echelle_u == tex.echelle_u * longueur && p.texture.echelle_v == tex.echelle_v
        && p.texture.indice == tex.indice
    &&& p3_vaut(p.coin_bas_gauche, d.x + 100 * longueur, d.y as int, d.z + 100 * largeur)
    &&& p3_vaut(p.coin_haut_gauche, d.x + 100 * longueur, d.y + 200, d.z + 100 * largeur)
    &&& p3_vaut(p.coin_bas_droit, d.x + 100 * longueur, d.y as int, d.z as int)
}

/// Le plan est le mur d'enceinte du cote haut (`z` maximal).
pub open spec fn plan_enceinte_haut(
    p: Plan,
    longueur: int,
    largeur: int,
    d: Point3,
    tex: ParametresTexture,
) -> bool {
    &&& p.colonnes == TRIANGLES_PAR_UNITE * longueur && p.rangees == TRIANGLES_PAR_UNITE * largeur
    &&& p.texture.echelle_u == tex.echelle_u * longueur && p.texture.echelle_v == tex.echelle_v
        && p.texture.indice == tex.indice
    &&& p3_vaut(p.coin_bas_gauche, d.x as int, d.y as int, d.z + 100 * largeur)
    &&& p3_vaut(p.coin_haut_gauche, d.x as int, d.y + 200, d.z + 100 * largeur)
    &&& p3_vaut(p.coin_bas_droit, d.x + 100 * longueur, d.y as int, d.z + 100 * largeur)
}

/// Nombre de sommets de la tessellation d'un plan.
pub open spec fn nb_sommets_plan(colonnes: int, rangees: int) -> int {
    (colonnes + 1) * (rangees + 1)
}

/// Indices d'une bande de triangles pour un plan subdivise : chaque
/// rangee parcourt deux rangees de sommets en zigzag, encadree de deux
/// indices redoubles qui forment des triangles degeneres entre rangees.
/// Tous les indices restent dans la plage des sommets du plan.
pub fn indices_plan(premier_sommet: u32, colonnes: u32, rangees: u32) -> (r: Vec<u32>)
    requires
        1 <= colonnes <= 16_000,
        1 <= rangees <= 16_000,
        premier_sommet + nb_sommets_plan(colonnes as int, rangees as int) <= u32::MAX,
    ensures
        r@.len() == rangees * (2 * (colonnes + 1) + 2),
        forall|i: int|
            0 <= i < r@.len() ==> premier_sommet <= #[trigger] r@[i] && r@[i] < premier_sommet
                + nb_sommets_plan(colonnes as int, rangees as int),
{
    let sommets_par_rangee: u32 = colonnes + 1;
    proof {
        assert(sommets_par_rangee * (rangees + 1) == nb_sommets_plan(
            colonnes as int,
            rangees as int,
        )) by (nonlinear_arith)
            requires
                sommets_par_rangee == colonnes + 1,
        ;
    }
    let mut indices: Vec<u32> = Vec::new();
    let mut rangee: u32 = 0;
    while rangee < rangees
        invariant
            rangee <= rangees,
            1 <= colonnes <= 16_000,
            1 <= rangees <= 16_000,
            sommets_par_rangee == colonnes + 1,
            premier_sommet + sommets_par_rangee * (rangees + 1) <= u32::MAX,
            indices@.len() == rangee * (2 * (colonnes + 1) + 2),
            forall|i: int|
                0 <= i < indices@.len() ==> premier_sommet <= #[trigger] indices@[i]
                    && indices@[i] < premier_sommet + sommets_par_rangee * (rangees + 1),
        decreases rangees - rangee,
    {
        proof {
            assert(sommets_par_rangee * (rangee + 2) <= sommets_par_rangee * (rangees + 1)
                && sommets_par_rangee * (rangee + 2) == sommets_par_rangee * rangee
                + sommets_par_rangee + sommets_par_rangee
                && sommets_par_rangee * rangee + sommets_par_rangee <= sommets_par_rangee * (
            rangees + 1) && (rangee + 1) * (2 * (colonnes + 1) + 2) <= rangees * (2 * (colonnes
                + 1) + 2) && rangees * (2 * (colonnes + 1) + 2) < 4_000_000_000)
                by (nonlinear_arith)
                requires
                    0 <= rangee < rangees,
                    1 <= colonnes <= 16_000,
                    1 <= rangees <= 16_000,
                    sommets_par_rangee == colonnes + 1,
            ;
        }
        let base = premier_sommet + sommets_par_rangee * rangee;

        // raccord degenere vers la nouvelle rangee
        indices.push(base);

        let mut colonne: u32 = 0;
        while colonne < sommets_par_rangee
            invariant
                colonne <= sommets_par_rangee,
                1 <= colonnes <= 16_000,
                1 <= rangees <= 16_000,
                sommets_par_rangee == colonnes + 1,
                rangee < rangees,
                premier_sommet + sommets_par_rangee * (rangees + 1) <= u32::MAX,
                base == premier_sommet + sommets_par_rangee * rangee,
                base + sommets_par_rangee + sommets_par_rangee <= premier_sommet
                    + sommets_par_rangee * (rangees + 1),
                indices@.len() == rangee * (2 * (colonnes + 1) + 2) + 1 + 2 * colonne,
                forall|i: int|
                    0 <= i < indices@.len() ==> premier_sommet <= #[trigger] indices@[i]
                        && indices@[i] < premier_sommet + sommets_par_rangee * (rangees + 1),
            decreases sommets_par_rangee - colonne,
        {
            indices.push(base + colonne);
            indices.push(base + sommets_par_rangee + colonne);
            colonne = colonne + 1;
        }

        // raccord degenere apres la rangee
        indices.push(base + sommets_par_rangee + sommets_par_rangee - 1);
        rangee = rangee + 1;
        proof {
            assert(rangee * (2 * (colonnes + 1) + 2) == (rangee - 1) * (2 * (colonnes + 1) + 2)
                + 2 * (colonnes + 1) + 2) by (nonlinear_arith);
        }
    }
    indices
}

/// Indices du tetraedre d'une torche, en bande de triangles avec
/// raccords degeneres, sur quatre sommets.
pub fn indices_torche(premier_sommet: u32) -> (r: Vec<u32>)
    requires
        premier_sommet + 4 <= u32::MAX,
    ensures
        r@.len() == 8,
        r@[0] == premier_sommet + 1,
        r@[1] == premier_sommet + 1,
        r@[2] == premier_sommet + 2,
        r@[3] == premier_sommet,
        r@[4] == premier_sommet + 3,
        r@[5] == premier_sommet + 1,
        r@[6] == premier_sommet + 2,
        r@[7] == premier_sommet + 2,
{
    let mut indices: Vec<u32> = Vec::new();
    indices.push(premier_sommet + 1);
    indices.push(premier_sommet + 1);
    indices.push(premier_sommet + 2);
    indices.push(premier_sommet);
    indices.push(premier_sommet + 3);
    indices.push(premier_sommet + 1);
    indices.push(premier_sommet + 2);
    indices.push(premier_sommet + 2);
    indices
}

} // verus!

//! Le labyrinthe : une grille de cellules creusee en arbre, elaguee de ses
//! murs doubles, puis garnie de torches. Les positions du monde sont en
//! virgule fixe (`COTE_FIXE` unites par cote de cellule), si bien que toute
//! la geometrie du coeur est exacte en arithmetique entiere.

use vstd::prelude::*;
use crate::aleatoire::GenerateurAleatoire;
use crate::cellule::{Cellule, Position, cellule_ouverte, COTE_FIXE, HAUTEUR_FIXE, DIMENSION_MAX};
use crate::grille::{
    adjacentes, cellule_a, dans_grille, elague_cellule, elague_grille, grille_bien_formee,
    lemme_nb_bornes, lemme_nb_egal, lemme_nb_maj, lemme_nb_nul, lemme_relie_etend,
    lemme_relie_monotone, lemme_relie_reflexif, murs_conformes, nb_sentiers, nb_voisins_sentier,
    peut_ouvrir,
    lemme_paires_egal, lemme_paires_maj, lemme_paires_nulles, nb_murs, nb_murs_cellule,
    nb_murs_grille, nb_murs_rangee, nb_paires_sentiers, pleine_a, relie, sentier_a, vue_cellules,
};
use crate::lumiere::{
    borne_reelle, couleur_halo, couleur_sentinelle, distance2, distance_carree, indice_choisi,
    lumiere_admissible, position_sentinelle, selection_correcte, torche_conforme,
    torche_de_grille, Lumiere, Lumieres, Point3, Point4, BORNE_MONDE, COULEUR_UNITE,
    INFINI_DISTANCE, NOMBRE_LUMIERES,
};
use crate::geometrie::{
    lemme_murs_presents_prefixe, plan_dans_grille, plan_de_mur, plan_enceinte_bas,
    plan_enceinte_droit, plan_enceinte_gauche, plan_enceinte_haut, plan_mur_bas, plan_mur_droit,
    plan_mur_gauche, plan_mur_haut, plan_plafond, plan_sol, plans_des_murs_presents,
    torche_de_lumiere, DonneesGeometrie, ParametresTexture, Plan, TRIANGLES_PAR_UNITE,
};
use crate::collision::{
    arrondir_cellule, cellule_la_plus_proche, cellule_obstacle, correction_cellule,
    dans_boite_elargie, expulsion_complete, expulsion_etapes, lemme_bord_sur_ligne,
    lemme_ligne_hors_interieur, strictement_dans_cellule, sur_ligne, BORNE_OBSERVATEUR,
};
use vstd::arithmetic::div_mod::lemma_div_multiples_vanish_fancy;
use vstd::arithmetic::div_mod::lemma_fundamental_div_mod;

verus! {

/// Un labyrinthe construit : la grille, ses dimensions, le decalage qui
/// centre la grille sur l'origine du monde, et les lumieres posees.
pub struct Labyrinthe {
    longueur: u32,
    largeur: u32,
    decalage: Point3,

    hauteur: i64,
    cote: i64,
    cellules: Vec<Vec<Cellule>>,
    lumieres: Vec<Lumiere>,
    ouvertures: u32,
}

impl Labyrinthe {
    /// Vue mathematique de la grille : rangee `z`, colonne `x`.
    pub closed spec fn vue(self) -> Seq<Seq<Cellule>> {
        vue_cellules(self.cellules)
    }

    pub closed spec fn spec_longueur(self) -> int {
        self.longueur as int
    }

    pub closed spec fn spec_largeur(self) -> int {
        self.largeur as int
    }

    pub closed spec fn spec_decalage(self) -> Point3 {
        self.decalage
    }

    pub closed spec fn spec_lumieres(self) -> Seq<Lumiere> {
        self.lumieres@
    }

    /// Nombre d'ouvertures de sentier operees par le creusage.
    pub closed spec fn spec_ouvertures(self) -> int {
        self.ouvertures as int
    }

    /// Dimensions que la construction accepte.
    pub open spec fn dimensions_admissibles(longueur: int, largeur: int) -> bool {
        2 <= longueur <= DIMENSION_MAX && 2 <= largeur <= DIMENSION_MAX
    }

    /// Invariant du labyrinthe : dimensions admissibles, grille bien formee,
    /// cotes en virgule fixe, grille centree sur l'origine, lumieres bornees.
    pub closed spec fn bien_forme(self) -> bool {
        &&& Self::dimensions_admissibles(self.spec_longueur(), self.spec_largeur())
        &&& grille_bien_formee(self.vue(), self.spec_longueur(), self.spec_largeur())
        &&& self.cote == COTE_FIXE
        &&& self.hauteur == HAUTEUR_FIXE
        &&& self.decalage.x == -50 * self.spec_longueur()
        &&& self.decalage.y == 0
        &&& self.decalage.z == -50 * self.spec_largeur()
        &&& forall|i: int|
            0 <= i < self.spec_lumieres().len() ==> lumiere_admissible(#[trigger] self.spec_lumieres()[i])
    }

    pub fn longueur(&self) -> (r: u32)
        ensures
            r as int == self.spec_longueur(),
    {
        self.longueur
    }

    pub fn largeur(&self) -> (r: u32)
        ensures
            r as int == self.spec_largeur(),
    {
        self.largeur
    }

    pub fn cote(&self) -> (r: i64)
        requires
            self.bien_forme(),
        ensures
            r == COTE_FIXE,
    {
        self.cote
    }

    pub fn hauteur(&self) -> (r: i64)
        requires
            self.bien_forme(),
        ensures
            r == HAUTEUR_FIXE,
    {
        self.hauteur
    }

    pub fn decalage(&self) -> (r: Point3)
        ensures
            r == self.spec_decalage(),
    {
        self.decalage
    }

    /// Nombre d'ouvertures de sentier operees par le creusage.
    pub fn nombre_ouvertures(&self) -> (r: u32)
        ensures
            r as int == self.spec_ouvertures(),
    {
        self.ouvertures
    }

    pub fn nombre_lumieres(&self) -> (r: usize)
        ensures
            r as int == self.spec_lumieres().len(),
    {
        self.lumieres.len()
    }

    pub fn lire_lumiere(&self, i: usize) -> (r: &Lumiere)
        requires
            i < self.spec_lumieres().len(),
        ensures
            *r == self.spec_lumieres()[i as int],
    {
        &self.lumieres[i]
    }

    pub fn position_valide(&self, x: i64, z: i64) -> (r: bool)
        ensures
            r == dans_grille(self.spec_longueur(), self.spec_largeur(), x as int, z as int),
    {
        0 <= x && x < self.longueur as i64 && 0 <= z && z < self.largeur as i64
    }

    /// La cellule en `(x, z)`, ou `None` hors de la grille : l'exterieur
    /// est traite partout comme plein.
    pub fn essayer_cellule(&self, x: i64, z: i64) -> (r: Option<&Cellule>)
        requires
            self.bien_forme(),
        ensures
            match r {
                Some(c) => dans_grille(self.spec_longueur(), self.spec_largeur(), x as int, z as int)
                    && *c == cellule_a(self.vue(), x as int, z as int),
                None => !dans_grille(self.spec_longueur(), self.spec_largeur(), x as int, z as int),
            },
    {
        if !self.position_valide(x, z) {
            return None;
        }
        proof {
            assert(self.vue()[z as int] == self.cellules@[z as int]@);
        }
        Some(&self.cellules[z as usize][x as usize])
    }

    /// La cellule a une position sue dans la grille.
    pub fn lire_cellule(&self, position: &Position) -> (r: &Cellule)
        requires
            self.bien_forme(),
            dans_grille(self.spec_longueur(), self.spec_largeur(), position.x as int, position.z as int),
        ensures
            *r == cellule_a(self.vue(), position.x as int, position.z as int),
    {
        proof {
            assert(self.vue()[position.z as int] == self.cellules@[position.z as int]@);
        }
        &self.cellules[position.z as usize][position.x as usize]
    }

    /// Remplace une cellule de la grille, a coordonnees conservees.
    fn remplacer(&mut self, x: u32, z: u32, c: Cellule)
        requires
            grille_bien_formee(
                old(self).vue(),
                old(self).spec_longueur(),
                old(self).spec_largeur(),
            ),
            dans_grille(old(self).spec_longueur(), old(self).spec_largeur(), x as int, z as int),
            c.x == x,
            c.z == z,
        ensures
            final(self).vue() == old(self).vue().update(
                z as int,
                old(self).vue()[z as int].update(x as int, c),
            ),
            grille_bien_formee(
                final(self).vue(),
                old(self).spec_longueur(),
                old(self).spec_largeur(),
            ),
            final(self).longueur == old(self).longueur,
            final(self).largeur == old(self).largeur,
            final(self).decalage == old(self).decalage,
            final(self).hauteur == old(self).hauteur,
            final(self).cote == old(self).cote,
            final(self).lumieres == old(self).lumieres,
            final(self).ouvertures == old(self).ouvertures,
    {
        proof {
            assert(old(self).vue()[z as int] == self.cellules@[z as int]@);
        }
        let rangee: &mut Vec<Cellule> = &mut self.cellules[z as usize];
        rangee.set(x as usize, c);
        proof {
            let avant = old(self).vue();
            let apres = vue_cellules(self.cellules);
            let attendu = avant.update(z as int, avant[z as int].update(x as int, c));
            assert forall|b: int| 0 <= b < apres.len() implies apres[b] == attendu[b] by {
                assert(apres[b] == self.cellules@[b]@);
                if b == z as int {
                    assert(self.cellules@[b]@ == old(self).cellules@[b]@.update(x as int, c));
                } else {
                    assert(self.cellules@[b] == old(self).cellules@[b]);
                }
            }
            assert(apres =~~= attendu);
            assert forall|a: int, b: int|
                dans_grille(old(self).spec_longueur(), old(self).spec_largeur(), a, b)
            implies (#[trigger] cellule_a(apres, a, b)).x == a && cellule_a(apres, a, b).z == b by {
                if !(a == x as int && b == z as int) {
                    assert(cellule_a(apres, a, b) == cellule_a(avant, a, b));
                }
            }
        }
    }

    /// Enleve les murs doubles : pour chaque paire de cellules pleines
    /// adjacentes, le mur partage tombe des deux cotes. Le resultat est
    /// exactement la grille elaguee, de sorte que repasser ne change rien.
    pub fn enlever_murs_inutiles(&mut self)
        requires
            old(self).bien_forme(),
        ensures
            final(self).bien_forme(),
            final(self).vue() == elague_grille(
                old(self).vue(),
                old(self).spec_longueur(),
                old(self).spec_largeur(),
            ),
            final(self).spec_longueur() == old(self).spec_longueur(),
            final(self).spec_largeur() == old(self).spec_largeur(),
            final(self).spec_decalage() == old(self).spec_decalage(),
            final(self).spec_lumieres() == old(self).spec_lumieres(),
            final(self).spec_ouvertures() == old(self).spec_ouvertures(),
    {
        let longueur = self.longueur;
        let largeur = self.largeur;
        let ghost avant = old(self).vue();
        let ghost lo = self.spec_longueur();
        let ghost la = self.spec_largeur();

        let mut nouvelles: Vec<Vec<Cellule>> = Vec::new();
        let mut z: u32 = 0;
        while z < largeur
            invariant
                z <= largeur,
                *self == *old(self),
                old(self).bien_forme(),
                longueur == self.longueur,
                largeur == self.largeur,
                lo == longueur as int,
                la == largeur as int,
                avant == self.vue(),
                nouvelles@.len() == z,
                forall|b: int| 0 <= b < z ==> (#[trigger] nouvelles@[b])@.len() == lo,
                forall|a: int, b: int|
                    0 <= b < z && 0 <= a < lo ==> (#[trigger] nouvelles@[b]@[a]) == elague_cellule(
                        avant,
                        lo,
                        la,
                        a,
                        b,
                    ),
            decreases largeur - z,
        {
            let mut rangee: Vec<Cellule> = Vec::new();
            let mut x: u32 = 0;
            while x < longueur
                invariant
                    x <= longueur,
                    z < largeur,
                    *self == *old(self),
                    old(self).bien_forme(),
                    longueur == self.longueur,
                    largeur == self.largeur,
                    lo == longueur as int,
                    la == largeur as int,
                    avant == self.vue(),
                    rangee@.len() == x,
                    forall|a: int|
                        0 <= a < x ==> (#[trigger] rangee@[a]) == elague_cellule(
                            avant,
                            lo,
                            la,
                            a,
                            z as int,
                        ),
                decreases longueur - x,
            {
                let mut c = self.cellules_lire(x, z);
                if !c.sentier {
                    if x > 0 {
                        if !self.cellules_lire(x - 1, z).sentier {
                            c.mur_gauche = false;
                        }
                    }
                    if x + 1 < longueur {
                        if !self.cellules_lire(x + 1, z).sentier {
                            c.mur_droit = false;
                        }
                    }
                    if z > 0 {
                        if !self.cellules_lire(x, z - 1).sentier {
                            c.mur_bas = false;
                        }
                    }
                    if z + 1 < largeur {
                        if !self.cellules_lire(x, z + 1).sentier {
                            c.mur_haut = false;
                        }
                    }
                }
                proof {
                    assert(c == elague_cellule(avant, lo, la, x as int, z as int));
                }
                rangee.push(c);
                x = x + 1;
            }
            nouvelles.push(rangee);
            z = z + 1;
        }
        self.cellules = nouvelles;
        proof {
            let fin = elague_grille(avant, lo, la);
            let apres = self.vue();
            assert forall|b: int| 0 <= b < apres.len() implies apres[b] == fin[b] by {
                assert(apres[b] == self.cellules@[b]@);
                assert forall|a: int| 0 <= a < apres[b].len() implies apres[b][a] == fin[b][a] by {
                    assert(apres[b][a] == elague_cellule(avant, lo, la, a, b));
                }
                assert(apres[b] =~= fin[b]);
            }
            assert(apres =~~= fin);
            assert forall|a: int, b: int| dans_grille(lo, la, a, b) implies (#[trigger] cellule_a(
                apres,
                a,
                b,
            )).x == a && cellule_a(apres, a, b).z == b by {
                assert(cellule_a(apres, a, b) == elague_cellule(avant, lo, la, a, b));
                assert(cellule_a(avant, a, b).x == a && cellule_a(avant, a, b).z == b);
            }
            assert(apres.len() == la);
            assert forall|b: int| 0 <= b < la implies (#[trigger] apres[b]).len() == lo by {
                assert(apres[b] == self.cellules@[b]@);
            }
            assert(grille_bien_formee(apres, lo, la));
            assert(self.lumieres == old(self).lumieres);
            assert forall|i: int| 0 <= i < self.spec_lumieres().len() implies lumiere_admissible(
                #[trigger] self.spec_lumieres()[i],
            ) by {
                assert(lumiere_admissible(old(self).spec_lumieres()[i]));
            }
        }
    }

    /// Vrai si la position designe une cellule sentier de la grille.
    fn voisin_est_sentier(&self, x: i64, z: i64) -> (r: bool)
        requires
            self.bien_forme(),
        ensures
            r == sentier_a(self.vue(), self.spec_longueur(), self.spec_largeur(), x as int, z as int),
    {
        match self.essayer_cellule(x, z) {
            Some(c) => c.est_un_sentier(),
            None => false,
        }
    }

    /// Regle d'ouverture du creusage : la position est dans la grille,
    /// n'est pas deja un sentier, et compte au plus un voisin sentier.
    pub fn peut_ouvrir_sentier(&self, x: i64, z: i64) -> (r: bool)
        requires
            self.bien_forme(),
        ensures
            r == peut_ouvrir(self.vue(), self.spec_longueur(), self.spec_largeur(), x as int, z as int),
    {
        match self.essayer_cellule(x, z) {
            None => false,
            Some(cellule) => {
                if cellule.est_un_sentier() {
                    return false;
                }
                let mut voisins: u32 = 0;
                if self.voisin_est_sentier(x - 1, z) {
                    voisins = voisins + 1;
                }
                if self.voisin_est_sentier(x, z + 1) {
                    voisins = voisins + 1;
                }
                if self.voisin_est_sentier(x + 1, z) {
                    voisins = voisins + 1;
                }
                if self.voisin_est_sentier(x, z - 1) {
                    voisins = voisins + 1;
                }
                voisins <= 1
            },
        }
    }

    /// Ouvre la cellule `(x, z)` en sentier dans la grille.
    fn marquer_sentier(&mut self, x: u32, z: u32)
        requires
            grille_bien_formee(
                old(self).vue(),
                old(self).spec_longueur(),
                old(self).spec_largeur(),
            ),
            Self::dimensions_admissibles(old(self).spec_longueur(), old(self).spec_largeur()),
            dans_grille(old(self).spec_longueur(), old(self).spec_largeur(), x as int, z as int),
        ensures
            final(self).vue() == old(self).vue().update(
                z as int,
                old(self).vue()[z as int].update(
                    x as int,
                    cellule_ouverte(
                        cellule_a(old(self).vue(), x as int, z as int),
                        old(self).spec_longueur(),
                        old(self).spec_largeur(),
                    ),
                ),
            ),
            grille_bien_formee(
                final(self).vue(),
                old(self).spec_longueur(),
                old(self).spec_largeur(),
            ),
            final(self).longueur == old(self).longueur,
            final(self).largeur == old(self).largeur,
            final(self).decalage == old(self).decalage,
            final(self).hauteur == old(self).hauteur,
            final(self).cote == old(self).cote,
            final(self).lumieres == old(self).lumieres,
            final(self).ouvertures == old(self).ouvertures,
    {
        let longueur = self.longueur;
        let largeur = self.largeur;
        let mut c = self.cellules_lire(x, z);
        c.ouvrir_sentier(longueur, largeur);
        self.remplacer(x, z, c);
    }

    /// Creuse le labyrinthe : un arbre croissant aleatoire part d'une
    /// cellule de depart et ouvre, tant qu'il le peut, des cellules voisines
    /// qui respectent la regle du voisin unique. A la fin, chaque sentier
    /// est relie au depart, et le nombre d'ouvertures operees vaut le
    /// nombre de sentiers moins un (le reseau est un arbre).
    #[verifier::rlimit(100)]
    pub fn detruire_murs(&mut self, generateur: &mut GenerateurAleatoire)
        requires
            old(self).bien_forme(),
            forall|a: int, b: int|
                dans_grille(old(self).spec_longueur(), old(self).spec_largeur(), a, b)
                    ==> (#[trigger] cellule_a(old(self).vue(), a, b)).vierge(),
        ensures
            final(self).bien_forme(),
            final(self).spec_longueur() == old(self).spec_longueur(),
            final(self).spec_largeur() == old(self).spec_largeur(),
            final(self).spec_decalage() == old(self).spec_decalage(),
            final(self).spec_lumieres() == old(self).spec_lumieres(),
            // Chaque cellule est soit restee vierge, soit ouverte en sentier.
            forall|a: int, b: int|
                dans_grille(final(self).spec_longueur(), final(self).spec_largeur(), a, b)
                    ==> #[trigger] cellule_a(final(self).vue(), a, b) == (if cellule_a(
                    final(self).vue(),
                    a,
                    b,
                ).sentier {
                    cellule_ouverte(
                        cellule_a(old(self).vue(), a, b),
                        final(self).spec_longueur(),
                        final(self).spec_largeur(),
                    )
                } else {
                    cellule_a(old(self).vue(), a, b)
                }),
            // Connexite : tout sentier est relie a la cellule de depart.
            exists|xd: int, zd: int|
                sentier_a(
                    final(self).vue(),
                    final(self).spec_longueur(),
                    final(self).spec_largeur(),
                    xd,
                    zd,
                ) && forall|a: int, b: int|
                    sentier_a(
                        final(self).vue(),
                        final(self).spec_longueur(),
                        final(self).spec_largeur(),
                        a,
                        b,
                    ) ==> #[trigger] relie(
                        final(self).vue(),
                        final(self).spec_longueur(),
                        final(self).spec_largeur(),
                        xd,
                        zd,
                        a,
                        b,
                    ),
            // Le reseau est un arbre : ouvertures == sentiers - 1, et le
            // graphe des sentiers adjacents compte autant d'aretes.
            final(self).spec_ouvertures() + 1 == nb_sentiers(final(self).vue()),
            nb_paires_sentiers(final(self).vue()) + 1 == nb_sentiers(final(self).vue()),
            1 <= nb_sentiers(final(self).vue()),
    {
        let longueur = self.longueur;
        let largeur = self.largeur;
        let ghost avant = old(self).vue();
        let ghost lo = self.spec_longueur();
        let ghost la = self.spec_largeur();

        proof {
            assert forall|z: int, x: int|
                0 <= z < avant.len() && 0 <= x < avant[z].len() implies !(#[trigger] avant[z][x]).sentier by {
                assert(cellule_a(avant, x, z).vierge());
            }
            lemme_nb_nul(avant);
            lemme_paires_nulles(avant);
            assert(lo * la <= 1_000_000) by (nonlinear_arith)
                requires
                    0 <= lo <= 1000,
                    0 <= la <= 1000,
            ;
        }

        let x_depart = generateur.entier_aleatoire(longueur);
        let z_depart = generateur.entier_aleatoire(largeur);
        self.marquer_sentier(x_depart, z_depart);
        proof {
            lemme_nb_maj(avant, self.vue(), x_depart as int, z_depart as int);
            lemme_paires_maj(avant, self.vue(), lo, la, x_depart as int, z_depart as int);
            assert(nb_voisins_sentier(avant, lo, la, x_depart as int, z_depart as int) == 0) by {
                assert(!sentier_a(avant, lo, la, x_depart as int - 1, z_depart as int));
                assert(!sentier_a(avant, lo, la, x_depart as int + 1, z_depart as int));
                assert(!sentier_a(avant, lo, la, x_depart as int, z_depart as int - 1));
                assert(!sentier_a(avant, lo, la, x_depart as int, z_depart as int + 1));
            }
            lemme_relie_reflexif(self.vue(), lo, la, x_depart as int, z_depart as int);
            lemme_nb_bornes(self.vue(), lo);
            assert forall|i: int| 0 <= i < self.spec_lumieres().len() implies lumiere_admissible(
                #[trigger] self.spec_lumieres()[i],
            ) by {
                assert(lumiere_admissible(old(self).spec_lumieres()[i]));
            }
            assert(self.bien_forme());
        }

        let mut explorables: Vec<(u32, u32)> = Vec::new();
        explorables.push((x_depart, z_depart));
        self.ouvertures = 0;

        while explorables.len() > 0
            invariant
                longueur == self.longueur,
                largeur == self.largeur,
                lo == longueur as int,
                la == largeur as int,
                Self::dimensions_admissibles(lo, la),
                lo * la <= 1_000_000,
                grille_bien_formee(self.vue(), lo, la),
                self.decalage == old(self).decalage,
                self.hauteur == old(self).hauteur,
                self.cote == old(self).cote,
                self.lumieres == old(self).lumieres,
                avant == old(self).vue(),
                grille_bien_formee(avant, lo, la),
                self.bien_forme(),
                forall|a: int, b: int|
                    dans_grille(lo, la, a, b) ==> (#[trigger] cellule_a(avant, a, b)).vierge(),
                sentier_a(self.vue(), lo, la, x_depart as int, z_depart as int),
                // structure des cellules
                forall|a: int, b: int|
                    dans_grille(lo, la, a, b) ==> #[trigger] cellule_a(self.vue(), a, b) == (
                    if cellule_a(self.vue(), a, b).sentier {
                        cellule_ouverte(cellule_a(avant, a, b), lo, la)
                    } else {
                        cellule_a(avant, a, b)
                    }),
                // connexite
                forall|a: int, b: int|
                    sentier_a(self.vue(), lo, la, a, b) ==> #[trigger] relie(
                        self.vue(),
                        lo,
                        la,
                        x_depart as int,
                        z_depart as int,
                        a,
                        b,
                    ),
                // les explorables sont des sentiers de la grille
                forall|i: int|
                    0 <= i < explorables@.len() ==> sentier_a(
                        self.vue(),
                        lo,
                        la,
                        (#[trigger] explorables@[i]).0 as int,
                        explorables@[i].1 as int,
                    ),
                // comptes
                nb_sentiers(self.vue()) == self.ouvertures + 1,
                nb_paires_sentiers(self.vue()) == self.ouvertures,
                0 <= nb_sentiers(self.vue()) <= lo * la,
                explorables@.len() <= nb_sentiers(self.vue()),
            decreases lo * la - nb_sentiers(self.vue()), explorables@.len(),
        {
            let ghost lumieres_entree = self.spec_lumieres();
            let choix = generateur.entier_aleatoire(explorables.len() as u32) as usize;
            let courante = explorables[choix];

            let gauche = (courante.0 as i64 - 1, courante.1 as i64);
            let haut = (courante.0 as i64, courante.1 as i64 + 1);
            let droit = (courante.0 as i64 + 1, courante.1 as i64);
            let bas = (courante.0 as i64, courante.1 as i64 - 1);

            let mut candidats: Vec<(i64, i64)> = Vec::new();
            if self.peut_ouvrir_sentier(gauche.0, gauche.1) {
                candidats.push(gauche);
            }
            if self.peut_ouvrir_sentier(haut.0, haut.1) {
                candidats.push(haut);
            }
            if self.peut_ouvrir_sentier(droit.0, droit.1) {
                candidats.push(droit);
            }
            if self.peut_ouvrir_sentier(bas.0, bas.1) {
                candidats.push(bas);
            }
            proof {
                assert forall|i: int| 0 <= i < candidats@.len() implies peut_ouvrir(
                    self.vue(),
                    lo,
                    la,
                    (#[trigger] candidats@[i]).0 as int,
                    candidats@[i].1 as int,
                ) && adjacentes(
                    candidats@[i].0 as int,
                    candidats@[i].1 as int,
                    courante.0 as int,
                    courante.1 as int,
                ) by {}
            }

            if candidats.len() == 0 {
                explorables.swap_remove(choix);
                proof {
                    assert forall|i: int| 0 <= i < explorables@.len() implies sentier_a(
                        self.vue(),
                        lo,
                        la,
                        (#[trigger] explorables@[i]).0 as int,
                        explorables@[i].1 as int,
                    ) by {}
                }
            } else {
                let idx = generateur.entier_aleatoire(candidats.len() as u32) as usize;
                let choisi = candidats[idx];
                let cx = choisi.0 as u32;
                let cz = choisi.1 as u32;
                let ghost vue1 = self.vue();
                self.marquer_sentier(cx, cz);
                let ghost vue2 = self.vue();
                proof {
                    lemme_nb_maj(vue1, vue2, cx as int, cz as int);
                    lemme_nb_bornes(vue2, lo);
                    lemme_paires_maj(vue1, vue2, lo, la, cx as int, cz as int);
                    // la cellule ouverte touche exactement un sentier : la
                    // cellule courante, voisine par construction.
                    assert(nb_voisins_sentier(vue1, lo, la, cx as int, cz as int) == 1) by {
                        assert(sentier_a(vue1, lo, la, courante.0 as int, courante.1 as int));
                        assert(adjacentes(cx as int, cz as int, courante.0 as int, courante.1 as int));
                        assert(nb_voisins_sentier(vue1, lo, la, cx as int, cz as int) >= 1);
                        assert(peut_ouvrir(vue1, lo, la, cx as int, cz as int));
                    }
                    // la grille ne perd aucun sentier
                    assert forall|a: int, b: int|
                        sentier_a(vue1, lo, la, a, b) implies #[trigger] sentier_a(
                        vue2,
                        lo,
                        la,
                        a,
                        b,
                    ) by {}
                    // structure
                    assert forall|a: int, b: int| dans_grille(lo, la, a, b) implies #[trigger] cellule_a(
                        vue2,
                        a,
                        b,
                    ) == (if cellule_a(vue2, a, b).sentier {
                        cellule_ouverte(cellule_a(avant, a, b), lo, la)
                    } else {
                        cellule_a(avant, a, b)
                    }) by {
                        if a == cx as int && b == cz as int {
                            assert(cellule_a(vue1, a, b) == cellule_a(avant, a, b));
                        } else {
                            assert(cellule_a(vue2, a, b) == cellule_a(vue1, a, b));
                        }
                    }
                    // connexite
                    lemme_relie_monotone(
                        vue1,
                        vue2,
                        lo,
                        la,
                        x_depart as int,
                        z_depart as int,
                        courante.0 as int,
                        courante.1 as int,
                    );
                    lemme_relie_etend(
                        vue2,
                        lo,
                        la,
                        x_depart as int,
                        z_depart as int,
                        courante.0 as int,
                        courante.1 as int,
                        cx as int,
                        cz as int,
                    );
                    assert forall|a: int, b: int|
                        sentier_a(vue2, lo, la, a, b) implies #[trigger] relie(
                        vue2,
                        lo,
                        la,
                        x_depart as int,
                        z_depart as int,
                        a,
                        b,
                    ) by {
                        if a == cx as int && b == cz as int {
                        } else {
                            assert(sentier_a(vue1, lo, la, a, b));
                            assert(relie(vue1, lo, la, x_depart as int, z_depart as int, a, b));
                            lemme_relie_monotone(
                                vue1,
                                vue2,
                                lo,
                                la,
                                x_depart as int,
                                z_depart as int,
                                a,
                                b,
                            );
                        }
                    }
                }
                proof {
                    assert forall|i: int|
                        0 <= i < self.spec_lumieres().len() implies lumiere_admissible(
                        #[trigger] self.spec_lumieres()[i],
                    ) by {
                        assert(lumiere_admissible(lumieres_entree[i]));
                    }
                    assert(self.bien_forme());
                }
                explorables.push((cx, cz));
                self.ouvertures = self.ouvertures + 1;
            }
        }
        proof {
            assert(sentier_a(self.vue(), lo, la, x_depart as int, z_depart as int) && forall|
                a: int,
                b: int,
            |
                sentier_a(self.vue(), lo, la, a, b) ==> #[trigger] relie(
                    self.vue(),
                    lo,
                    la,
                    x_depart as int,
                    z_depart as int,
                    a,
                    b,
                ));
        }
    }

    /// Seme les torches : chaque cellule interieure tiree a pile ou face
    /// recoit une tentative de pose. Les murs et les sentiers ne bougent
    /// pas; chaque lumiere emise est une torche conforme d'une cellule
    /// pleine interieure.
    fn ajouter_lumieres(&mut self, generateur: &mut GenerateurAleatoire)
        requires
            old(self).bien_forme(),
        ensures
            final(self).bien_forme(),
            final(self).longueur == old(self).longueur,
            final(self).largeur == old(self).largeur,
            final(self).decalage == old(self).decalage,
            final(self).hauteur == old(self).hauteur,
            final(self).cote == old(self).cote,
            final(self).ouvertures == old(self).ouvertures,
            forall|a: int, b: int|
                dans_grille(old(self).spec_longueur(), old(self).spec_largeur(), a, b)
                    ==> #[trigger] cellule_a(final(self).vue(), a, b) == cellule_a(
                    old(self).vue(),
                    a,
                    b,
                ) || cellule_a(final(self).vue(), a, b) == (Cellule {
                    eclaire: true,
                    ..cellule_a(old(self).vue(), a, b)
                }),
            old(self).lumieres@.len() <= final(self).lumieres@.len(),
            forall|i: int|
                0 <= i < old(self).lumieres@.len() ==> #[trigger] final(self).lumieres@[i]
                    == old(self).lumieres@[i],
            forall|i: int|
                old(self).lumieres@.len() <= i < final(self).lumieres@.len()
                    ==> torche_de_grille(
                    old(self).vue(),
                    old(self).spec_longueur(),
                    old(self).spec_largeur(),
                    old(self).spec_decalage(),
                    #[trigger] final(self).lumieres@[i],
                ),
    {
        let longueur = self.longueur;
        let largeur = self.largeur;
        let hauteur = self.hauteur;
        let cote = self.cote;
        let decalage = self.decalage;
        let ghost avant = old(self).vue();
        let ghost lum_avant = old(self).spec_lumieres();
        let ghost lo = self.spec_longueur();
        let ghost la = self.spec_largeur();

        let mut x: u32 = 1;
        while x < longueur - 1
            invariant
                1 <= x <= longueur - 1,
                longueur == self.longueur,
                largeur == self.largeur,
                hauteur == self.hauteur,
                cote == self.cote,
                decalage == self.decalage,
                lo == longueur as int,
                la == largeur as int,
                self.bien_forme(),
                self.decalage == old(self).decalage,
                self.hauteur == old(self).hauteur,
                self.cote == old(self).cote,
                self.ouvertures == old(self).ouvertures,
                avant == old(self).vue(),
                lum_avant == old(self).spec_lumieres(),
                forall|a: int, b: int|
                    dans_grille(lo, la, a, b) ==> #[trigger] cellule_a(self.vue(), a, b)
                        == cellule_a(avant, a, b) || cellule_a(self.vue(), a, b) == (Cellule {
                        eclaire: true,
                        ..cellule_a(avant, a, b)
                    }),
                lum_avant.len() <= self.spec_lumieres().len(),
                forall|i: int|
                    0 <= i < lum_avant.len() ==> #[trigger] self.spec_lumieres()[i]
                        == lum_avant[i],
                forall|i: int|
                    lum_avant.len() <= i < self.spec_lumieres().len() ==> torche_de_grille(
                        avant,
                        lo,
                        la,
                        decalage,
                        #[trigger] self.spec_lumieres()[i],
                    ),
            decreases longueur - 1 - x,
        {
            let mut z: u32 = 1;
            while z < largeur - 1
                invariant
                    1 <= x < longueur - 1,
                    1 <= z <= largeur - 1,
                    longueur == self.longueur,
                    largeur == self.largeur,
                    hauteur == self.hauteur,
                    cote == self.cote,
                    decalage == self.decalage,
                    lo == longueur as int,
                    la == largeur as int,
                    self.bien_forme(),
                    self.decalage == old(self).decalage,
                    self.hauteur == old(self).hauteur,
                    self.cote == old(self).cote,
                    self.ouvertures == old(self).ouvertures,
                    avant == old(self).vue(),
                    lum_avant == old(self).spec_lumieres(),
                    forall|a: int, b: int|
                        dans_grille(lo, la, a, b) ==> #[trigger] cellule_a(self.vue(), a, b)
                            == cellule_a(avant, a, b) || cellule_a(self.vue(), a, b) == (Cellule {
                            eclaire: true,
                            ..cellule_a(avant, a, b)
                        }),
                    lum_avant.len() <= self.spec_lumieres().len(),
                    forall|i: int|
                        0 <= i < lum_avant.len() ==> #[trigger] self.spec_lumieres()[i]
                            == lum_avant[i],
                    forall|i: int|
                        lum_avant.len() <= i < self.spec_lumieres().len() ==> torche_de_grille(
                            avant,
                            lo,
                            la,
                            decalage,
                            #[trigger] self.spec_lumieres()[i],
                        ),
                decreases largeur - 1 - z,
            {
                if generateur.entier_aleatoire(2) == 0 {
                    let ghost vue1 = self.vue();
                    let ghost lum1 = self.spec_lumieres();
                    let mut c = self.cellules_lire(x, z);
                    let ghost c_entree = c;
                    let resultat = c.essayer_eclairer(hauteur, cote, &decalage, generateur);
                    self.remplacer(x, z, c);
                    proof {
                        assert forall|a: int, b: int|
                            dans_grille(lo, la, a, b) implies #[trigger] cellule_a(
                            self.vue(),
                            a,
                            b,
                        ) == cellule_a(avant, a, b) || cellule_a(self.vue(), a, b) == (Cellule {
                            eclaire: true,
                            ..cellule_a(avant, a, b)
                        }) by {
                            if a == x as int && b == z as int {
                                assert(cellule_a(vue1, a, b) == cellule_a(avant, a, b)
                                    || cellule_a(vue1, a, b) == (Cellule {
                                    eclaire: true,
                                    ..cellule_a(avant, a, b)
                                }));
                            } else {
                                assert(cellule_a(self.vue(), a, b) == cellule_a(vue1, a, b));
                            }
                        }
                        assert(self.spec_lumieres() == lum1);
                        assert forall|i: int|
                            0 <= i < self.spec_lumieres().len() implies lumiere_admissible(
                            #[trigger] self.spec_lumieres()[i],
                        ) by {
                            assert(lumiere_admissible(lum1[i]));
                        }
                        assert forall|i: int|
                            lum_avant.len() <= i < self.spec_lumieres().len() implies torche_de_grille(
                            avant,
                            lo,
                            la,
                            decalage,
                            #[trigger] self.spec_lumieres()[i],
                        ) by {
                            assert(torche_de_grille(avant, lo, la, decalage, lum1[i]));
                        }
                        assert(self.bien_forme());
                    }
                    match resultat {
                        Some(lumiere) => {
                            proof {
                                assert(torche_conforme(c_entree, decalage, lumiere));
                                assert(c_entree == cellule_a(vue1, x as int, z as int));
                                assert(torche_conforme(
                                    cellule_a(avant, x as int, z as int),
                                    decalage,
                                    lumiere,
                                ));
                                assert(!cellule_a(avant, x as int, z as int).sentier);
                                assert(1 <= (x as int) && (x as int) < lo - 1);
                                assert(1 <= (z as int) && (z as int) < la - 1);
                                assert(torche_de_grille(avant, lo, la, decalage, lumiere));
                            }
                            let ghost lum2 = self.spec_lumieres();
                            self.lumieres.push(lumiere);
                            proof {
                                assert(self.spec_lumieres() == lum2.push(lumiere));
                                assert forall|i: int|
                                    lum_avant.len() <= i < self.spec_lumieres().len() implies torche_de_grille(
                                    avant,
                                    lo,
                                    la,
                                    decalage,
                                    #[trigger] self.spec_lumieres()[i],
                                ) by {
                                    if i < self.spec_lumieres().len() - 1 {
                                        assert(self.spec_lumieres()[i] == lum2[i]);
                                        assert(torche_de_grille(avant, lo, la, decalage, lum2[i]));
                                    } else {
                                        assert(self.spec_lumieres()[i] == lumiere);
                                    }
                                }
                                assert forall|i: int|
                                    0 <= i < self.spec_lumieres().len() implies lumiere_admissible(
                                    #[trigger] self.spec_lumieres()[i],
                                ) by {
                                    if i < self.spec_lumieres().len() - 1 {
                                        assert(lumiere_admissible(lum2[i]));
                                    }
                                }
                                assert forall|i: int|
                                    0 <= i < lum_avant.len() implies #[trigger] self.spec_lumieres()[i]
                                        == lum_avant[i] by {
                                    assert(self.spec_lumieres()[i] == lum2[i]);
                                }
                                assert(self.bien_forme());
                            }
                        },
                        None => {},
                    }
                }
                z = z + 1;
            }
            x = x + 1;
        }
    }

    /// Construit le labyrinthe : grille vierge, creusage en arbre, elagage
    /// des murs doubles, pose des torches. A la sortie : tout sentier est
    /// relie a la cellule de depart; le nombre d'ouvertures vaut le nombre
    /// de sentiers moins un; les murs sont conformes (aucun mur epais);
    /// chaque lumiere est une torche conforme d'une cellule pleine
    /// interieure.
    pub fn new(longueur: u32, largeur: u32, generateur: &mut GenerateurAleatoire) -> (l: Labyrinthe)
        requires
            Labyrinthe::dimensions_admissibles(longueur as int, largeur as int),
        ensures
            l.bien_forme(),
            l.spec_longueur() == longueur,
            l.spec_largeur() == largeur,
            l.spec_ouvertures() + 1 == nb_sentiers(l.vue()),
            // Le graphe des sentiers adjacents est un arbre : autant
            // d'aretes que de sentiers moins un.
            nb_paires_sentiers(l.vue()) + 1 == nb_sentiers(l.vue()),
            1 <= nb_sentiers(l.vue()),
            murs_conformes(l.vue(), l.spec_longueur(), l.spec_largeur()),
            exists|xd: int, zd: int|
                sentier_a(l.vue(), l.spec_longueur(), l.spec_largeur(), xd, zd) && forall|
                    a: int,
                    b: int,
                |
                    sentier_a(l.vue(), l.spec_longueur(), l.spec_largeur(), a, b)
                        ==> #[trigger] relie(
                        l.vue(),
                        l.spec_longueur(),
                        l.spec_largeur(),
                        xd,
                        zd,
                        a,
                        b,
                    ),
            forall|i: int|
                0 <= i < l.spec_lumieres().len() ==> torche_de_grille(
                    l.vue(),
                    l.spec_longueur(),
                    l.spec_largeur(),
                    l.spec_decalage(),
                    #[trigger] l.spec_lumieres()[i],
                ),
    {
        let mut cellules: Vec<Vec<Cellule>> = Vec::new();
        let mut z: u32 = 0;
        while z < largeur
            invariant
                z <= largeur,
                cellules@.len() == z,
                forall|b: int| 0 <= b < z ==> (#[trigger] cellules@[b])@.len() == longueur,
                forall|a: int, b: int|
                    0 <= b < z && 0 <= a < longueur ==> (#[trigger] cellules@[b]@[a]).x == a
                        && cellules@[b]@[a].z == b && cellules@[b]@[a].vierge(),
            decreases largeur - z,
        {
            let mut rangee: Vec<Cellule> = Vec::new();
            let mut x: u32 = 0;
            while x < longueur
                invariant
                    x <= longueur,
                    z < largeur,
                    rangee@.len() == x,
                    forall|a: int|
                        0 <= a < x ==> (#[trigger] rangee@[a]).x == a && rangee@[a].z == z
                            && rangee@[a].vierge(),
                decreases longueur - x,
            {
                rangee.push(Cellule::new(x, z));
                x = x + 1;
            }
            cellules.push(rangee);
            z = z + 1;
        }

        let mut labyrinthe = Labyrinthe {
            longueur,
            largeur,
            decalage: Point3 {
                x: -(longueur as i64) * 50,
                y: 0,
                z: -(largeur as i64) * 50,
            },
            hauteur: HAUTEUR_FIXE,
            cote: COTE_FIXE,
            cellules,
            lumieres: Vec::new(),
            ouvertures: 0,
        };
        let ghost lo = longueur as int;
        let ghost la = largeur as int;
        proof {
            assert forall|b: int| 0 <= b < la implies (#[trigger] labyrinthe.vue()[b]).len() == lo by {
                assert(labyrinthe.vue()[b] == labyrinthe.cellules@[b]@);
            }
            assert forall|a: int, b: int| dans_grille(lo, la, a, b) implies (#[trigger] cellule_a(
                labyrinthe.vue(),
                a,
                b,
            )).x == a && cellule_a(labyrinthe.vue(), a, b).z == b && cellule_a(
                labyrinthe.vue(),
                a,
                b,
            ).vierge() by {
                assert(cellule_a(labyrinthe.vue(), a, b) == labyrinthe.cellules@[b]@[a]);
            }
            assert(labyrinthe.bien_forme());
        }

        labyrinthe.detruire_murs(generateur);
        let ghost vue_creusee = labyrinthe.vue();
        labyrinthe.enlever_murs_inutiles();
        let ghost vue_elaguee = labyrinthe.vue();

        proof {
            // L'elagage conserve les sentiers cellule par cellule.
            assert forall|a: int, b: int| dans_grille(lo, la, a, b) implies (#[trigger] cellule_a(
                vue_elaguee,
                a,
                b,
            )).sentier == cellule_a(vue_creusee, a, b).sentier && cellule_a(vue_elaguee, a, b).x
                == cellule_a(vue_creusee, a, b).x && cellule_a(vue_elaguee, a, b).z == cellule_a(
                vue_creusee,
                a,
                b,
            ).z && cellule_a(vue_elaguee, a, b).eclaire == cellule_a(vue_creusee, a, b).eclaire by {
                assert(cellule_a(vue_elaguee, a, b) == elague_cellule(vue_creusee, lo, la, a, b));
            }
            lemme_nb_egal(vue_elaguee, vue_creusee);
            lemme_paires_egal(vue_elaguee, vue_creusee);
            // Les murs sont conformes apres l'elagage.
            assert forall|a: int, b: int| dans_grille(lo, la, a, b) implies {
                let cel = #[trigger] cellule_a(vue_elaguee, a, b);
                if cel.sentier {
                    &&& cel.mur_gauche == (a == 0)
                    &&& cel.mur_droit == (a + 1 == lo)
                    &&& cel.mur_bas == (b == 0)
                    &&& cel.mur_haut == (b + 1 == la)
                } else {
                    &&& cel.mur_gauche == !pleine_a(vue_elaguee, lo, la, a - 1, b)
                    &&& cel.mur_droit == !pleine_a(vue_elaguee, lo, la, a + 1, b)
                    &&& cel.mur_bas == !pleine_a(vue_elaguee, lo, la, a, b - 1)
                    &&& cel.mur_haut == !pleine_a(vue_elaguee, lo, la, a, b + 1)
                }
            } by {
                assert(cellule_a(vue_elaguee, a, b) == elague_cellule(vue_creusee, lo, la, a, b));
            }
            assert(murs_conformes(vue_elaguee, lo, la));
        }

        labyrinthe.ajouter_lumieres(generateur);

        proof {
            let vue_finale = labyrinthe.vue();
            // La pose des lumieres ne change ni murs ni sentiers.
            assert forall|a: int, b: int| dans_grille(lo, la, a, b) implies (#[trigger] cellule_a(
                vue_finale,
                a,
                b,
            )).sentier == cellule_a(vue_elaguee, a, b).sentier && cellule_a(vue_finale, a, b).x
                == cellule_a(vue_elaguee, a, b).x && cellule_a(vue_finale, a, b).z == cellule_a(
                vue_elaguee,
                a,
                b,
            ).z && cellule_a(vue_finale, a, b).mur_gauche == cellule_a(vue_elaguee, a, b).mur_gauche
                && cellule_a(vue_finale, a, b).mur_droit == cellule_a(vue_elaguee, a, b).mur_droit
                && cellule_a(vue_finale, a, b).mur_bas == cellule_a(vue_elaguee, a, b).mur_bas
                && cellule_a(vue_finale, a, b).mur_haut == cellule_a(vue_elaguee, a, b).mur_haut by {
            }
            assert(vue_finale.len() == la && vue_elaguee.len() == la);
            assert forall|b: int| 0 <= b < la implies (#[trigger] vue_finale[b]).len() == lo
                && vue_elaguee[b].len() == lo by {}
            assert forall|b: int, a: int|
                0 <= b < vue_finale.len() && 0 <= a < vue_finale[b].len() implies (
            #[trigger] vue_finale[b][a]).sentier == vue_elaguee[b][a].sentier by {
                assert(cellule_a(vue_finale, a, b).sentier == cellule_a(vue_elaguee, a, b).sentier);
            }
            lemme_nb_egal(vue_finale, vue_elaguee);
            lemme_nb_egal(vue_elaguee, vue_creusee);
            lemme_paires_egal(vue_finale, vue_elaguee);
            // Les murs restent conformes.
            assert forall|a: int, b: int| dans_grille(lo, la, a, b) implies {
                let cel = #[trigger] cellule_a(vue_finale, a, b);
                if cel.sentier {
                    &&& cel.mur_gauche == (a == 0)
                    &&& cel.mur_droit == (a + 1 == lo)
                    &&& cel.mur_bas == (b == 0)
                    &&& cel.mur_haut == (b + 1 == la)
                } else {
                    &&& cel.mur_gauche == !pleine_a(vue_finale, lo, la, a - 1, b)
                    &&& cel.mur_droit == !pleine_a(vue_finale, lo, la, a + 1, b)
                    &&& cel.mur_bas == !pleine_a(vue_finale, lo, la, a, b - 1)
                    &&& cel.mur_haut == !pleine_a(vue_finale, lo, la, a, b + 1)
                }
            } by {
                assert(cellule_a(vue_finale, a, b).sentier == cellule_a(vue_elaguee, a, b).sentier);
            }
            assert(murs_conformes(vue_finale, lo, la));
            // La connexite traverse l'elagage puis la pose des lumieres.
            let (xd, zd) = choose|xd: int, zd: int|
                sentier_a(vue_creusee, lo, la, xd, zd) && forall|a: int, b: int|
                    sentier_a(vue_creusee, lo, la, a, b) ==> #[trigger] relie(
                        vue_creusee,
                        lo,
                        la,
                        xd,
                        zd,
                        a,
                        b,
                    );
            assert forall|a: int, b: int|
                sentier_a(vue_finale, lo, la, a, b) implies #[trigger] relie(
                vue_finale,
                lo,
                la,
                xd,
                zd,
                a,
                b,
            ) by {
                assert(sentier_a(vue_creusee, lo, la, a, b));
                assert(relie(vue_creusee, lo, la, xd, zd, a, b));
                lemme_relie_monotone(vue_creusee, vue_finale, lo, la, xd, zd, a, b);
            }
            assert(sentier_a(vue_finale, lo, la, xd, zd) && forall|a: int, b: int|
                sentier_a(vue_finale, lo, la, a, b) ==> #[trigger] relie(
                    vue_finale,
                    lo,
                    la,
                    xd,
                    zd,
                    a,
                    b,
                ));
            // Chaque lumiere est conforme a une cellule de la grille finale.
            assert forall|i: int| 0 <= i < labyrinthe.spec_lumieres().len() implies torche_de_grille(
                vue_finale,
                lo,
                la,
                labyrinthe.spec_decalage(),
                #[trigger] labyrinthe.spec_lumieres()[i],
            ) by {
                assert(torche_de_grille(
                    vue_elaguee,
                    lo,
                    la,
                    labyrinthe.spec_decalage(),
                    labyrinthe.spec_lumieres()[i],
                ));
                let (a, b) = choose|a: int, b: int|
                    1 <= a < lo - 1 && 1 <= b < la - 1 && !cellule_a(vue_elaguee, a, b).sentier
                        && torche_conforme(
                        cellule_a(vue_elaguee, a, b),
                        labyrinthe.spec_decalage(),
                        labyrinthe.spec_lumieres()[i],
                    );
                assert(cellule_a(vue_finale, a, b) == cellule_a(vue_elaguee, a, b) || cellule_a(
                    vue_finale,
                    a,
                    b,
                ) == (Cellule { eclaire: true, ..cellule_a(vue_elaguee, a, b) }));
                assert(1 <= a < lo - 1 && 1 <= b < la - 1 && !cellule_a(vue_finale, a, b).sentier
                    && torche_conforme(
                    cellule_a(vue_finale, a, b),
                    labyrinthe.spec_decalage(),
                    labyrinthe.spec_lumieres()[i],
                ));
            }
        }

        labyrinthe
    }

    /// Expulse l'observateur des cellules pleines : pour chacune des neuf
    /// cellules autour de la sienne (l'exterieur de la grille compte comme
    /// plein), si la position tombe dans la boite de la cellule elargie de
    /// la marge, la coordonnee de plus faible penetration est ramenee sur
    /// le bord de cellule le plus proche. A la sortie, la position n'est
    /// strictement a l'interieur d'aucun obstacle du voisinage; une
    /// position hors de toutes les boites elargies ressort inchangee.
    #[verifier::rlimit(100)]
    pub fn expulser_murs(&self, position: &mut Point3)
        requires
            self.bien_forme(),
            -BORNE_OBSERVATEUR <= old(position).x <= BORNE_OBSERVATEUR,
            -BORNE_OBSERVATEUR <= old(position).z <= BORNE_OBSERVATEUR,
        ensures
            final(position).y == old(position).y,
            // La position finale est exactement celle du balayage de
            // correction des neuf cellules du voisinage.
            (final(position).x as int, final(position).z as int) == expulsion_complete(
                self.vue(),
                self.spec_longueur(),
                self.spec_largeur(),
                self.spec_decalage().x as int,
                self.spec_decalage().z as int,
                old(position).x as int,
                old(position).z as int,
            ),
            old(position).x - 250 <= final(position).x <= old(position).x + 250,
            old(position).z - 250 <= final(position).z <= old(position).z + 250,
            final(position).x == old(position).x || sur_ligne(
                final(position).x as int,
                self.spec_decalage().x as int,
            ),
            final(position).z == old(position).z || sur_ligne(
                final(position).z as int,
                self.spec_decalage().z as int,
            ),
            forall|cx: int, cz: int|
                cellule_la_plus_proche(old(position).x as int, self.spec_decalage().x as int) - 1
                    <= cx <= cellule_la_plus_proche(
                    old(position).x as int,
                    self.spec_decalage().x as int,
                ) + 1 && cellule_la_plus_proche(
                    old(position).z as int,
                    self.spec_decalage().z as int,
                ) - 1 <= cz <= cellule_la_plus_proche(
                    old(position).z as int,
                    self.spec_decalage().z as int,
                ) + 1 && #[trigger] cellule_obstacle(
                    self.vue(),
                    self.spec_longueur(),
                    self.spec_largeur(),
                    cx,
                    cz,
                ) ==> !strictement_dans_cellule(
                    final(position).x as int,
                    final(position).z as int,
                    self.spec_decalage().x as int,
                    self.spec_decalage().z as int,
                    cx,
                    cz,
                ),
            (forall|cx: int, cz: int|
                cellule_la_plus_proche(old(position).x as int, self.spec_decalage().x as int) - 1
                    <= cx <= cellule_la_plus_proche(
                    old(position).x as int,
                    self.spec_decalage().x as int,
                ) + 1 && cellule_la_plus_proche(
                    old(position).z as int,
                    self.spec_decalage().z as int,
                ) - 1 <= cz <= cellule_la_plus_proche(
                    old(position).z as int,
                    self.spec_decalage().z as int,
                ) + 1 && #[trigger] cellule_obstacle(
                    self.vue(),
                    self.spec_longueur(),
                    self.spec_largeur(),
                    cx,
                    cz,
                ) ==> !dans_boite_elargie(
                    old(position).x as int,
                    old(position).z as int,
                    self.spec_decalage().x as int,
                    self.spec_decalage().z as int,
                    cx,
                    cz,
                )) ==> *final(position) == *old(position),
    {
        let ox = self.decalage.x;
        let oz = self.decalage.z;
        let ghost lo = self.spec_longueur();
        let ghost la = self.spec_largeur();
        let ghost vx = old(position).x as int;
        let ghost vz = old(position).z as int;

        let centre_x = arrondir_cellule(position.x, ox);
        let centre_z = arrondir_cellule(position.z, oz);
        proof {
            lemma_fundamental_div_mod(vx - ox + 50, 100);
            lemma_fundamental_div_mod(vz - oz + 50, 100);
            assert(100 * centre_x <= vx - ox + 50 < 100 * centre_x + 100);
            assert(100 * centre_z <= vz - oz + 50 < 100 * centre_z + 100);
        }

        let mut px = position.x;
        let mut pz = position.z;

        let mut i: u8 = 0;
        while i < 3
            invariant
                i <= 3,
                self.bien_forme(),
                ox == self.decalage.x,
                oz == self.decalage.z,
                -50_000 <= ox <= 0,
                -50_000 <= oz <= 0,
                lo == self.spec_longueur(),
                la == self.spec_largeur(),
                -BORNE_OBSERVATEUR <= vx <= BORNE_OBSERVATEUR,
                -BORNE_OBSERVATEUR <= vz <= BORNE_OBSERVATEUR,
                centre_x == cellule_la_plus_proche(vx, ox as int),
                centre_z == cellule_la_plus_proche(vz, oz as int),
                -2_000_000 <= centre_x <= 2_000_000,
                -2_000_000 <= centre_z <= 2_000_000,
                100 * centre_x <= vx - ox + 50 < 100 * centre_x + 100,
                100 * centre_z <= vz - oz + 50 < 100 * centre_z + 100,
                vx - 250 <= px <= vx + 250,
                vz - 250 <= pz <= vz + 250,
                px == vx || sur_ligne(px as int, ox as int),
                pz == vz || sur_ligne(pz as int, oz as int),
                (px as int, pz as int) == expulsion_etapes(
                    self.vue(),
                    lo,
                    la,
                    ox as int,
                    oz as int,
                    centre_x as int,
                    centre_z as int,
                    vx,
                    vz,
                    3 * i,
                ),
                forall|cx: int, cz: int|
                    centre_x - 1 <= cx <= centre_x + 1 && centre_z - 1 <= cz <= centre_z + 1
                        && cx < centre_x + i - 1 && #[trigger] cellule_obstacle(
                        self.vue(),
                        lo,
                        la,
                        cx,
                        cz,
                    ) ==> !strictement_dans_cellule(
                        px as int,
                        pz as int,
                        ox as int,
                        oz as int,
                        cx,
                        cz,
                    ),
                (forall|cx: int, cz: int|
                    centre_x - 1 <= cx <= centre_x + 1 && centre_z - 1 <= cz <= centre_z + 1
                        && cx < centre_x + i - 1 && #[trigger] cellule_obstacle(
                        self.vue(),
                        lo,
                        la,
                        cx,
                        cz,
                    ) ==> !dans_boite_elargie(vx, vz, ox as int, oz as int, cx, cz)) ==> px == vx
                    && pz == vz,
            decreases 3 - i,
        {
            let mut j: u8 = 0;
            while j < 3
                invariant
                    i < 3,
                    j <= 3,
                    self.bien_forme(),
                    ox == self.decalage.x,
                    oz == self.decalage.z,
                    -50_000 <= ox <= 0,
                    -50_000 <= oz <= 0,
                    lo == self.spec_longueur(),
                    la == self.spec_largeur(),
                    -BORNE_OBSERVATEUR <= vx <= BORNE_OBSERVATEUR,
                    -BORNE_OBSERVATEUR <= vz <= BORNE_OBSERVATEUR,
                    centre_x == cellule_la_plus_proche(vx, ox as int),
                    centre_z == cellule_la_plus_proche(vz, oz as int),
                    -2_000_000 <= centre_x <= 2_000_000,
                    -2_000_000 <= centre_z <= 2_000_000,
                    100 * centre_x <= vx - ox + 50 < 100 * centre_x + 100,
                    100 * centre_z <= vz - oz + 50 < 100 * centre_z + 100,
                    vx - 250 <= px <= vx + 250,
                    vz - 250 <= pz <= vz + 250,
                    px == vx || sur_ligne(px as int, ox as int),
                    pz == vz || sur_ligne(pz as int, oz as int),
                    (px as int, pz as int) == expulsion_etapes(
                        self.vue(),
                        lo,
                        la,
                        ox as int,
                        oz as int,
                        centre_x as int,
                        centre_z as int,
                        vx,
                        vz,
                        3 * i + j,
                    ),
                    forall|cx: int, cz: int|
                        centre_x - 1 <= cx <= centre_x + 1 && centre_z - 1 <= cz <= centre_z + 1
                            && (cx < centre_x + i - 1 || (cx == centre_x + i - 1 && cz < centre_z
                            + j - 1)) && #[trigger] cellule_obstacle(
                            self.vue(),
                            lo,
                            la,
                            cx,
                            cz,
                        ) ==> !strictement_dans_cellule(
                            px as int,
                            pz as int,
                            ox as int,
                            oz as int,
                            cx,
                            cz,
                        ),
                    (forall|cx: int, cz: int|
                        centre_x - 1 <= cx <= centre_x + 1 && centre_z - 1 <= cz <= centre_z + 1
                            && (cx < centre_x + i - 1 || (cx == centre_x + i - 1 && cz < centre_z
                            + j - 1)) && #[trigger] cellule_obstacle(
                            self.vue(),
                            lo,
                            la,
                            cx,
                            cz,
                        ) ==> !dans_boite_elargie(vx, vz, ox as int, oz as int, cx, cz)) ==> px
                        == vx && pz == vz,
                decreases 3 - j,
            {
                let ghost px_avant = px as int;
                let ghost pz_avant = pz as int;
                let cx = centre_x + (i as i64) - 1;
                let cz = centre_z + (j as i64) - 1;

                let obstacle = match self.essayer_cellule(cx, cz) {
                    Some(cellule) => !cellule.est_un_sentier(),
                    None => true,
                };
                proof {
                    assert(obstacle == cellule_obstacle(self.vue(), lo, la, cx as int, cz as int));
                }

                if obstacle {
                    let gauche = cx * 100 + ox - 20;
                    let droit = gauche + 140;
                    let bas = cz * 100 + oz - 20;
                    let haut = bas + 140;

                    if gauche <= px && px <= droit && bas <= pz && pz <= haut {
                        let marge_x = if px - gauche < droit - px {
                            px - gauche
                        } else {
                            droit - px
                        };
                        let marge_z = if pz - bas < haut - pz {
                            pz - bas
                        } else {
                            haut - pz
                        };
                        if marge_x < marge_z {
                            if px - gauche < droit - px {
                                px = gauche + 20;
                            } else {
                                px = droit - 20;
                            }
                            proof {
                                lemme_bord_sur_ligne(ox as int, cx as int);
                                assert(sur_ligne(px as int, ox as int));
                                assert forall|cx2: int, cz2: int|
                                    centre_x - 1 <= cx2 <= centre_x + 1 && centre_z - 1 <= cz2
                                        <= centre_z + 1 && #[trigger] cellule_obstacle(
                                        self.vue(),
                                        lo,
                                        la,
                                        cx2,
                                        cz2,
                                    ) implies !strictement_dans_cellule(
                                    px as int,
                                    pz as int,
                                    ox as int,
                                    oz as int,
                                    cx2,
                                    cz2,
                                ) by {
                                    lemme_ligne_hors_interieur(px as int, ox as int, cx2);
                                }
                            }
                        } else {
                            if pz - bas < haut - pz {
                                pz = bas + 20;
                            } else {
                                pz = haut - 20;
                            }
                            proof {
                                lemme_bord_sur_ligne(oz as int, cz as int);
                                assert(sur_ligne(pz as int, oz as int));
                                assert forall|cx2: int, cz2: int|
                                    centre_x - 1 <= cx2 <= centre_x + 1 && centre_z - 1 <= cz2
                                        <= centre_z + 1 && #[trigger] cellule_obstacle(
                                        self.vue(),
                                        lo,
                                        la,
                                        cx2,
                                        cz2,
                                    ) implies !strictement_dans_cellule(
                                    px as int,
                                    pz as int,
                                    ox as int,
                                    oz as int,
                                    cx2,
                                    cz2,
                                ) by {
                                    lemme_ligne_hors_interieur(pz as int, oz as int, cz2);
                                }
                            }
                        }
                    }
                }
                proof {
                    let k: int = 3 * (i as int) + (j as int);
                    lemma_div_multiples_vanish_fancy(i as int, j as int, 3);
                    assert(k / 3 == i as int);
                    assert(k % 3 == j as int) by {
                        lemma_fundamental_div_mod(k, 3);
                    }
                    assert((px as int, pz as int) == correction_cellule(
                        self.vue(),
                        lo,
                        la,
                        ox as int,
                        oz as int,
                        cx as int,
                        cz as int,
                        px_avant,
                        pz_avant,
                    ));
                    assert((px as int, pz as int) == expulsion_etapes(
                        self.vue(),
                        lo,
                        la,
                        ox as int,
                        oz as int,
                        centre_x as int,
                        centre_z as int,
                        vx,
                        vz,
                        k + 1,
                    ));
                }
                j = j + 1;
            }
            i = i + 1;
        }

        position.x = px;
        position.z = pz;
    }

    /// Selectionne les lumieres les plus proches de l'observateur :
    /// `NOMBRE_LUMIERES - 1` fentes recoivent, par remplacement du maximum
    /// courant, les lumieres de plus faible distance carree; la derniere
    /// fente porte le halo de l'observateur. Les fentes inoccupees gardent
    /// leur sentinelle a l'infini. Aucune lumiere non retenue n'est
    /// strictement plus proche qu'une lumiere retenue.
    #[verifier::rlimit(100)]
    pub fn obtenir_lumieres_proches(&self, position: &Point3) -> (r: Lumieres)
        requires
            self.bien_forme(),
            -BORNE_MONDE <= position.x <= BORNE_MONDE,
            -BORNE_MONDE <= position.y <= BORNE_MONDE,
            -BORNE_MONDE <= position.z <= BORNE_MONDE,
        ensures
            r.bien_forme(),
            r.positions@[NOMBRE_LUMIERES - 1] == (Point4 {
                x: position.x,
                y: position.y,
                z: position.z,
                w: 1,
            }),
            r.couleurs@[NOMBRE_LUMIERES - 1] == couleur_halo(),
            forall|t: int|
                borne_reelle(self.spec_lumieres().len() as int) <= t < NOMBRE_LUMIERES - 1
                    ==> #[trigger] r.positions@[t] == position_sentinelle() && r.couleurs@[t]
                    == couleur_sentinelle(),
            exists|sel: Seq<int>| selection_correcte(self.spec_lumieres(), *position, r, sel),
    {
        let nb_lumieres = self.lumieres.len();
        let nb_reelles: usize = if nb_lumieres < NOMBRE_LUMIERES - 1 {
            nb_lumieres
        } else {
            NOMBRE_LUMIERES - 1
        };
        let ghost lum = self.spec_lumieres();
        let ghost pos = *position;

        let mut proches: Vec<(i64, usize)> = Vec::new();
        let mut amorce: usize = 0;
        while amorce < NOMBRE_LUMIERES - 1
            invariant
                amorce <= NOMBRE_LUMIERES - 1,
                proches@.len() == amorce,
                forall|t: int| 0 <= t < amorce ==> #[trigger] proches@[t] == (INFINI_DISTANCE, 0usize),
            decreases NOMBRE_LUMIERES - 1 - amorce,
        {
            proches.push((INFINI_DISTANCE, 0));
            amorce = amorce + 1;
        }

        let mut index: usize = 0;
        while index < nb_lumieres
            invariant
                index <= nb_lumieres,
                self.bien_forme(),
                lum == self.spec_lumieres(),
                pos == *position,
                -BORNE_MONDE <= pos.x <= BORNE_MONDE,
                -BORNE_MONDE <= pos.y <= BORNE_MONDE,
                -BORNE_MONDE <= pos.z <= BORNE_MONDE,
                nb_lumieres == lum.len(),
                proches@.len() == NOMBRE_LUMIERES - 1,
                forall|t: int|
                    0 <= t < borne_fentes(index as int) ==> (#[trigger] proches@[t]).1 < index
                        && proches@[t].0 == distance2(pos, lum[proches@[t].1 as int].position)
                        && 0 <= proches@[t].0 < INFINI_DISTANCE,
                forall|t: int|
                    borne_fentes(index as int) <= t < NOMBRE_LUMIERES - 1 ==> #[trigger] proches@[t]
                        == (INFINI_DISTANCE, 0usize),
                forall|t1: int, t2: int|
                    0 <= t1 < t2 < borne_fentes(index as int) ==> (#[trigger] proches@[t1]).1 != (
                    #[trigger] proches@[t2]).1,
                index <= NOMBRE_LUMIERES - 1 ==> forall|j: int|
                    0 <= j < index ==> fente_tient(proches@, borne_fentes(index as int), j),
                forall|j: int, t: int|
                    #![trigger lum[j], proches@[t]]
                    0 <= j < index && !fente_tient(proches@, borne_fentes(index as int), j) && 0
                        <= t < NOMBRE_LUMIERES - 1 ==> distance2(pos, lum[j].position)
                        >= proches@[t].0,
            decreases nb_lumieres - index,
        {
            let mut m: usize = 0;
            let mut t: usize = 1;
            while t < NOMBRE_LUMIERES - 1
                invariant
                    m < t <= NOMBRE_LUMIERES - 1,
                    proches@.len() == NOMBRE_LUMIERES - 1,
                    forall|u: int| 0 <= u < t ==> (#[trigger] proches@[u]).0 <= proches@[m as int].0,
                    forall|u: int| 0 <= u < m ==> (#[trigger] proches@[u]).0 < proches@[m as int].0,
                decreases NOMBRE_LUMIERES - 1 - t,
            {
                if proches[t].0 > proches[m].0 {
                    m = t;
                }
                t = t + 1;
            }

            proof {
                assert(lumiere_admissible(lum[index as int]));
            }
            let d = distance_carree(position, &self.lumieres[index].position);
            let ghost avant = proches@;
            let ghost bmin = borne_fentes(index as int);
            let ghost bmin2 = borne_fentes(index as int + 1);

            if d <= proches[m].0 {
                proches.set(m, (d, index));
                proof {
                    if index < NOMBRE_LUMIERES - 1 {
                        // la premiere fente maximale est la premiere sentinelle
                        assert(avant[bmin] == (INFINI_DISTANCE, 0usize));
                        if (m as int) < bmin {
                            assert(avant[m as int].0 < INFINI_DISTANCE);
                            assert(avant[bmin].0 <= avant[m as int].0);
                            assert(false);
                        }
                        if (m as int) > bmin {
                            assert(avant[bmin].0 < avant[m as int].0);
                            assert(avant[m as int].0 <= INFINI_DISTANCE) by {
                                if (m as int) < bmin {
                                } else {
                                    assert(avant[m as int] == (INFINI_DISTANCE, 0usize));
                                }
                            }
                            assert(false);
                        }
                        assert(m as int == bmin);
                        assert forall|j: int| 0 <= j < index + 1 implies fente_tient(
                            proches@,
                            bmin2,
                            j,
                        ) by {
                            if j < index {
                                assert(fente_tient(avant, bmin, j));
                                let t3 = choose|t3: int| 0 <= t3 < bmin && avant[t3].1 == j;
                                assert(proches@[t3] == avant[t3]);
                            } else {
                                assert(proches@[m as int].1 == index);
                            }
                        }
                        assert forall|j: int, t4: int|
                            #![trigger lum[j], proches@[t4]]
                            0 <= j < index + 1 && !fente_tient(proches@, bmin2, j) && 0 <= t4
                                < NOMBRE_LUMIERES - 1 implies distance2(pos, lum[j].position)
                            >= proches@[t4].0 by {
                            assert(fente_tient(proches@, bmin2, j));
                        }
                    } else {
                        // phase de remplacement : la fente maximale est evincee
                        let evince = avant[m as int].1 as int;
                        assert forall|j: int, t4: int|
                            #![trigger lum[j], proches@[t4]]
                            0 <= j < index + 1 && !fente_tient(proches@, bmin2, j) && 0 <= t4
                                < NOMBRE_LUMIERES - 1 implies distance2(pos, lum[j].position)
                            >= proches@[t4].0 by {
                            assert(proches@[t4].0 <= avant[t4].0);
                            if j == index {
                                assert(proches@[m as int].1 == index);
                                assert(fente_tient(proches@, bmin2, j));
                            } else if j == evince && !fente_tient(avant, bmin, j) {
                                assert(distance2(pos, lum[j].position) >= avant[t4].0);
                            } else if j == evince {
                                assert(distance2(pos, lum[j].position) == avant[m as int].0);
                                assert(avant[t4].0 <= avant[m as int].0);
                            } else {
                                if fente_tient(avant, bmin, j) {
                                    let t3 = choose|t3: int| 0 <= t3 < bmin && avant[t3].1 == j;
                                    assert(t3 != m as int);
                                    assert(proches@[t3] == avant[t3]);
                                    assert(fente_tient(proches@, bmin2, j));
                                } else {
                                    assert(distance2(pos, lum[j].position) >= avant[t4].0);
                                }
                            }
                        }
                    }
                }
            } else {
                proof {
                    if index < NOMBRE_LUMIERES - 1 {
                        assert(avant[bmin].0 <= avant[m as int].0);
                        assert(false);
                    }
                    assert forall|j: int, t4: int|
                        #![trigger lum[j], proches@[t4]]
                        0 <= j < index + 1 && !fente_tient(proches@, bmin2, j) && 0 <= t4
                            < NOMBRE_LUMIERES - 1 implies distance2(pos, lum[j].position)
                        >= proches@[t4].0 by {
                        if j == index {
                            assert(proches@[t4].0 <= proches@[m as int].0);
                        } else {
                            assert(!fente_tient(proches@, bmin, j));
                        }
                    }
                }
            }
            index = index + 1;
        }

        let mut resultat = Lumieres::new();
        let mut sortie: usize = 0;
        while sortie < nb_reelles
            invariant
                sortie <= nb_reelles,
                self.bien_forme(),
                lum == self.spec_lumieres(),
                pos == *position,
                nb_lumieres == lum.len(),
                nb_reelles as int == borne_reelle(lum.len() as int),
                proches@.len() == NOMBRE_LUMIERES - 1,
                resultat.positions@.len() == NOMBRE_LUMIERES,
                resultat.couleurs@.len() == NOMBRE_LUMIERES,
                forall|t: int|
                    0 <= t < nb_reelles ==> (#[trigger] proches@[t]).1 < nb_lumieres
                        && proches@[t].0 == distance2(pos, lum[proches@[t].1 as int].position),
                forall|t1: int, t2: int|
                    0 <= t1 < t2 < nb_reelles ==> (#[trigger] proches@[t1]).1 != (
                    #[trigger] proches@[t2]).1,
                forall|j: int, t: int|
                    #![trigger lum[j], proches@[t]]
                    0 <= j < nb_lumieres && !fente_tient(proches@, nb_reelles as int, j) && 0 <= t
                        < NOMBRE_LUMIERES - 1 ==> distance2(pos, lum[j].position)
                        >= proches@[t].0,
                forall|u: int|
                    0 <= u < sortie ==> #[trigger] resultat.positions@[u] == lum[proches@[u].1 as int].position
                        && resultat.couleurs@[u] == lum[proches@[u].1 as int].couleur,
                forall|u: int|
                    sortie <= u < NOMBRE_LUMIERES ==> #[trigger] resultat.positions@[u]
                        == position_sentinelle() && resultat.couleurs@[u] == couleur_sentinelle(),
            decreases nb_reelles - sortie,
        {
            let quel = proches[sortie].1;
            let copie_position = self.lumieres[quel].position;
            let copie_couleur = self.lumieres[quel].couleur;
            let ghost positions_entree = resultat.positions@;
            let ghost couleurs_entree = resultat.couleurs@;
            resultat.positions.set(sortie, copie_position);
            resultat.couleurs.set(sortie, copie_couleur);
            proof {
                assert forall|u: int|
                    sortie + 1 <= u < NOMBRE_LUMIERES implies #[trigger] resultat.positions@[u]
                    == position_sentinelle() && resultat.couleurs@[u] == couleur_sentinelle() by {
                    assert(resultat.positions@[u] == positions_entree[u]);
                    assert(resultat.couleurs@[u] == couleurs_entree[u]);
                }
                assert forall|u: int|
                    0 <= u < sortie + 1 implies #[trigger] resultat.positions@[u] == lum[proches@[u].1 as int].position
                        && resultat.couleurs@[u] == lum[proches@[u].1 as int].couleur by {
                    if u < sortie {
                        assert(resultat.positions@[u] == positions_entree[u]);
                        assert(resultat.couleurs@[u] == couleurs_entree[u]);
                    } else {
                        assert(resultat.positions@[u] == copie_position);
                        assert(resultat.couleurs@[u] == copie_couleur);
                    }
                }
            }
            sortie = sortie + 1;
        }

        resultat.positions.set(
            NOMBRE_LUMIERES - 1,
            Point4 { x: position.x, y: position.y, z: position.z, w: 1 },
        );
        resultat.couleurs.set(
            NOMBRE_LUMIERES - 1,
            Point4 { x: 5_000, y: 5_200, z: 5_400, w: COULEUR_UNITE },
        );

        proof {
            let sel = Seq::new(nb_reelles as nat, |k: int| proches@[k].1 as int);
            assert forall|k: int| 0 <= k < sel.len() implies 0 <= #[trigger] sel[k] < lum.len() by {
                assert(proches@[k].1 < nb_lumieres);
            }
            assert forall|k1: int, k2: int| 0 <= k1 < k2 < sel.len() implies sel[k1] != sel[k2] by {
                assert(proches@[k1].1 != proches@[k2].1);
            }
            assert forall|k: int|
                0 <= k < sel.len() implies resultat.positions@[k] == lum[#[trigger] sel[k]].position
                && resultat.couleurs@[k] == lum[sel[k]].couleur by {
                assert(resultat.positions@[k] == lum[proches@[k].1 as int].position);
            }
            assert forall|j: int, k: int|
                #![trigger lum[j], sel[k]]
                0 <= j < lum.len() && !indice_choisi(sel, j) && 0 <= k < sel.len() implies distance2(
                pos,
                lum[j].position,
            ) >= distance2(pos, lum[sel[k]].position) by {
                assert(!fente_tient(proches@, nb_reelles as int, j)) by {
                    if fente_tient(proches@, nb_reelles as int, j) {
                        let t3 = choose|t3: int|
                            0 <= t3 < nb_reelles as int && proches@[t3].1 == j;
                        assert(sel[t3] == j);
                        assert(indice_choisi(sel, j));
                    }
                }
                assert(distance2(pos, lum[j].position) >= proches@[k].0);
                assert(proches@[k].0 == distance2(pos, lum[proches@[k].1 as int].position));
            }
            assert(sel.len() == borne_reelle(lum.len() as int));
            assert(selection_correcte(lum, pos, resultat, sel));
        }

        resultat
    }

    /// Emet toute la geometrie du labyrinthe : les plans des murs de
    /// chaque cellule (rangee par rangee), puis le sol, le plafond et les
    /// quatre murs d'enceinte, puis une torche par lumiere posee. Chaque
    /// plan emis pour une cellule correspond a un mur present, et chaque
    /// mur present d'une cellule a son plan dans le flux.
    #[verifier::rlimit(100)]
    pub fn ajouter_geometrie(
        &self,
        texture_plafond: &ParametresTexture,
        texture_sol: &ParametresTexture,
        texture_mur: &ParametresTexture,
        texture_torche: u32,
        donnees: &mut DonneesGeometrie,
    )
        requires
            self.bien_forme(),
            -1_000_000 <= texture_plafond.echelle_u <= 1_000_000,
            -1_000_000 <= texture_plafond.echelle_v <= 1_000_000,
            -1_000_000 <= texture_sol.echelle_u <= 1_000_000,
            -1_000_000 <= texture_sol.echelle_v <= 1_000_000,
            -1_000_000 <= texture_mur.echelle_u <= 1_000_000,
            -1_000_000 <= texture_mur.echelle_v <= 1_000_000,
        ensures
            forall|i: int|
                0 <= i < old(donnees).plans@.len() ==> #[trigger] final(donnees).plans@[i] == old(
                    donnees,
                ).plans@[i],
            forall|i: int|
                0 <= i < old(donnees).torches@.len() ==> #[trigger] final(donnees).torches@[i]
                    == old(donnees).torches@[i],
            final(donnees).torches@.len() == old(donnees).torches@.len()
                + self.spec_lumieres().len(),
            forall|k: int|
                0 <= k < self.spec_lumieres().len() ==> torche_de_lumiere(
                    final(donnees).torches@[old(donnees).torches@.len() + k],
                    #[trigger] self.spec_lumieres()[k],
                    texture_torche,
                ),
            final(donnees).plans@.len() == old(donnees).plans@.len() + nb_murs(self.vue()) + 6,
            plan_sol(
                final(donnees).plans@[final(donnees).plans@.len() - 6],
                self.spec_longueur(),
                self.spec_largeur(),
                self.spec_decalage(),
                *texture_sol,
            ),
            plan_plafond(
                final(donnees).plans@[final(donnees).plans@.len() - 5],
                self.spec_longueur(),
                self.spec_largeur(),
                self.spec_decalage(),
                *texture_plafond,
            ),
            plan_enceinte_gauche(
                final(donnees).plans@[final(donnees).plans@.len() - 4],
                self.spec_longueur(),
                self.spec_largeur(),
                self.spec_decalage(),
                *texture_mur,
            ),
            plan_enceinte_bas(
                final(donnees).plans@[final(donnees).plans@.len() - 3],
                self.spec_longueur(),
                self.spec_largeur(),
                self.spec_decalage(),
                *texture_mur,
            ),
            plan_enceinte_droit(
                final(donnees).plans@[final(donnees).plans@.len() - 2],
                self.spec_longueur(),
                self.spec_largeur(),
                self.spec_decalage(),
                *texture_mur,
            ),
            plan_enceinte_haut(
                final(donnees).plans@[final(donnees).plans@.len() - 1],
                self.spec_longueur(),
                self.spec_largeur(),
                self.spec_decalage(),
                *texture_mur,
            ),
            forall|a: int, b: int|
                dans_grille(self.spec_longueur(), self.spec_largeur(), a, b)
                    ==> plans_des_murs_presents(
                    final(donnees).plans@,
                    #[trigger] cellule_a(self.vue(), a, b),
                    self.spec_decalage(),
                    *texture_mur,
                ),
            forall|i: int|
                old(donnees).plans@.len() <= i < final(donnees).plans@.len() - 6
                    ==> plan_dans_grille(
                    #[trigger] final(donnees).plans@[i],
                    self.vue(),
                    self.spec_longueur(),
                    self.spec_largeur(),
                    self.spec_decalage(),
                    *texture_mur,
                ),
    {
        let longueur = self.longueur;
        let largeur = self.largeur;
        let hauteur = self.hauteur;
        let cote = self.cote;
        let decalage = self.decalage;
        let ghost vue = self.vue();
        let ghost lo = self.spec_longueur();
        let ghost la = self.spec_largeur();
        let ghost n0p = old(donnees).plans@.len() as int;
        let ghost n0t = old(donnees).torches@.len() as int;

        let mut z: u32 = 0;
        while z < largeur
            invariant
                z <= largeur,
                self.bien_forme(),
                longueur == self.longueur,
                largeur == self.largeur,
                hauteur == self.hauteur,
                cote == self.cote,
                decalage == self.decalage,
                vue == self.vue(),
                lo == longueur as int,
                la == largeur as int,
                n0p <= donnees.plans@.len(),
                donnees.plans@.len() == n0p + nb_murs_grille(vue, z as int),
                donnees.torches@ == old(donnees).torches@,
                n0p == old(donnees).plans@.len(),
                forall|i: int|
                    0 <= i < n0p ==> #[trigger] donnees.plans@[i] == old(donnees).plans@[i],
                forall|i: int|
                    n0p <= i < donnees.plans@.len() ==> plan_dans_grille(
                        #[trigger] donnees.plans@[i],
                        vue,
                        lo,
                        la,
                        decalage,
                        *texture_mur,
                    ),
                forall|a: int, b: int|
                    dans_grille(lo, la, a, b) && b < z ==> plans_des_murs_presents(
                        donnees.plans@,
                        #[trigger] cellule_a(vue, a, b),
                        decalage,
                        *texture_mur,
                    ),
            decreases largeur - z,
        {
            let mut x: u32 = 0;
            while x < longueur
                invariant
                    x <= longueur,
                    z < largeur,
                    self.bien_forme(),
                    longueur == self.longueur,
                    largeur == self.largeur,
                    hauteur == self.hauteur,
                    cote == self.cote,
                    decalage == self.decalage,
                    vue == self.vue(),
                    lo == longueur as int,
                    la == largeur as int,
                    n0p <= donnees.plans@.len(),
                    donnees.plans@.len() == n0p + nb_murs_grille(vue, z as int) + nb_murs_rangee(
                        vue[z as int],
                        x as int,
                    ),
                    donnees.torches@ == old(donnees).torches@,
                    n0p == old(donnees).plans@.len(),
                    forall|i: int|
                        0 <= i < n0p ==> #[trigger] donnees.plans@[i] == old(donnees).plans@[i],
                    forall|i: int|
                        n0p <= i < donnees.plans@.len() ==> plan_dans_grille(
                            #[trigger] donnees.plans@[i],
                            vue,
                            lo,
                            la,
                            decalage,
                            *texture_mur,
                        ),
                    forall|a: int, b: int|
                        dans_grille(lo, la, a, b) && (b < z || (b == z && a < x))
                            ==> plans_des_murs_presents(
                            donnees.plans@,
                            #[trigger] cellule_a(vue, a, b),
                            decalage,
                            *texture_mur,
                        ),
                decreases longueur - x,
            {
                let ghost plans_entree = donnees.plans@;
                let ghost n1 = donnees.plans@.len() as int;
                let cellule = self.cellules_lire(x, z);
                cellule.ajouter_geometrie(hauteur, cote, &decalage, texture_mur, donnees);
                proof {
                    let s = donnees.plans@.skip(n1);
                    assert forall|k: int| 0 <= k < s.len() implies #[trigger] s[k]
                        == donnees.plans@[n1 + k] by {}
                    assert(s.len() == donnees.plans@.len() - n1);
                    assert(donnees.plans@.len() == n1 + nb_murs_cellule(cellule));
                    assert(cellule == vue[z as int][x as int]);
                    assert(nb_murs_rangee(vue[z as int], x as int + 1) == nb_murs_rangee(
                        vue[z as int],
                        x as int,
                    ) + nb_murs_cellule(vue[z as int][x as int]));
                    // exactitude des plans frais
                    assert forall|i: int|
                        n0p <= i < donnees.plans@.len() implies plan_dans_grille(
                        #[trigger] donnees.plans@[i],
                        vue,
                        lo,
                        la,
                        decalage,
                        *texture_mur,
                    ) by {
                        if i < n1 {
                            assert(donnees.plans@[i] == plans_entree[i]);
                        } else {
                            assert(donnees.plans@[i] == s[i - n1]);
                            assert(plan_de_mur(s[i - n1], cellule, decalage, *texture_mur));
                            assert(dans_grille(lo, la, x as int, z as int) && plan_de_mur(
                                donnees.plans@[i],
                                cellule_a(vue, x as int, z as int),
                                decalage,
                                *texture_mur,
                            ));
                        }
                    }
                    // completude pour la cellule courante
                    assert(plans_des_murs_presents(
                        donnees.plans@,
                        cellule,
                        decalage,
                        *texture_mur,
                    )) by {
                        let n_gauche: int = if cellule.mur_gauche { 1 } else { 0 };
                        let n_haut: int = if cellule.mur_haut { 1 } else { 0 };
                        let n_droit: int = if cellule.mur_droit { 1 } else { 0 };
                        if cellule.mur_gauche {
                            assert(plan_mur_gauche(
                                donnees.plans@[n1],
                                cellule,
                                decalage,
                                *texture_mur,
                            ));
                        }
                        if cellule.mur_haut {
                            assert(plan_mur_haut(
                                donnees.plans@[n1 + n_gauche],
                                cellule,
                                decalage,
                                *texture_mur,
                            ));
                        }
                        if cellule.mur_droit {
                            assert(plan_mur_droit(
                                donnees.plans@[n1 + n_gauche + n_haut],
                                cellule,
                                decalage,
                                *texture_mur,
                            ));
                        }
                        if cellule.mur_bas {
                            assert(plan_mur_bas(
                                donnees.plans@[n1 + n_gauche + n_haut + n_droit],
                                cellule,
                                decalage,
                                *texture_mur,
                            ));
                        }
                    }
                    // completude conservee pour les cellules deja traitees
                    assert forall|a: int, b: int|
                        dans_grille(lo, la, a, b) && (b < z || (b == z && a < x + 1))
                            implies plans_des_murs_presents(
                        donnees.plans@,
                        #[trigger] cellule_a(vue, a, b),
                        decalage,
                        *texture_mur,
                    ) by {
                        if a == x as int && b == z as int {
                        } else {
                            lemme_murs_presents_prefixe(
                                plans_entree,
                                donnees.plans@,
                                cellule_a(vue, a, b),
                                decalage,
                                *texture_mur,
                            );
                        }
                    }
                }
                x = x + 1;
            }
            proof {
                assert(vue[z as int].len() == lo);
                assert(nb_murs_grille(vue, z as int + 1) == nb_murs_grille(vue, z as int)
                    + nb_murs_rangee(vue[z as int], vue[z as int].len() as int));
            }
            z = z + 1;
        }

        let ghost plans_cellules = donnees.plans@;
        proof {
            assert(vue.len() == la);
            assert(donnees.plans@.len() == n0p + nb_murs(vue));
        }
        proof {
            assert(-2_000_000_000 <= texture_sol.echelle_u * (longueur as i64)
                <= 2_000_000_000 && -2_000_000_000 <= texture_sol.echelle_v * (largeur as i64)
                <= 2_000_000_000 && -2_000_000_000 <= texture_plafond.echelle_u * (
            longueur as i64) <= 2_000_000_000 && -2_000_000_000 <= texture_plafond.echelle_v * (
            largeur as i64) <= 2_000_000_000 && -2_000_000_000 <= texture_mur.echelle_u * (
            longueur as i64) <= 2_000_000_000) by (nonlinear_arith)
                requires
                    -1_000_000 <= texture_sol.echelle_u <= 1_000_000,
                    -1_000_000 <= texture_sol.echelle_v <= 1_000_000,
                    -1_000_000 <= texture_plafond.echelle_u <= 1_000_000,
                    -1_000_000 <= texture_plafond.echelle_v <= 1_000_000,
                    -1_000_000 <= texture_mur.echelle_u <= 1_000_000,
                    0 <= longueur <= 1000,
                    0 <= largeur <= 1000,
            ;
        }
        let cote_total_x = cote * (longueur as i64);
        let cote_total_z = cote * (largeur as i64);
        let y_haut = decalage.y + hauteur;
        let div_x: u32 = TRIANGLES_PAR_UNITE * longueur;
        let div_z: u32 = TRIANGLES_PAR_UNITE * largeur;

        // le sol
        donnees.ajouter_plan(
            Plan {
                colonnes: div_x,
                rangees: div_z,
                coin_bas_gauche: Point3 { x: decalage.x, y: decalage.y, z: decalage.z },
                coin_haut_gauche: Point3 {
                    x: decalage.x,
                    y: decalage.y,
                    z: decalage.z + cote_total_z,
                },
                coin_bas_droit: Point3 {
                    x: decalage.x + cote_total_x,
                    y: decalage.y,
                    z: decalage.z,
                },
                texture: ParametresTexture {
                    echelle_u: texture_sol.echelle_u * (longueur as i64),
                    echelle_v: texture_sol.echelle_v * (largeur as i64),
                    indice: texture_sol.indice,
                },
            },
        );

        // le plafond
        donnees.ajouter_plan(
            Plan {
                colonnes: div_x,
                rangees: div_z,
                coin_bas_gauche: Point3 {
                    x: decalage.x + cote_total_x,
                    y: y_haut,
                    z: decalage.z + cote_total_z,
                },
                coin_haut_gauche: Point3 { x: decalage.x, y: y_haut, z: decalage.z + cote_total_z },
                coin_bas_droit: Point3 { x: decalage.x + cote_total_x, y: y_haut, z: decalage.z },
                texture: ParametresTexture {
                    echelle_u: texture_plafond.echelle_u * (longueur as i64),
                    echelle_v: texture_plafond.echelle_v * (largeur as i64),
                    indice: texture_plafond.indice,
                },
            },
        );

        let texture_enceinte = ParametresTexture {
            echelle_u: texture_mur.echelle_u * (longueur as i64),
            echelle_v: texture_mur.echelle_v,
            indice: texture_mur.indice,
        };

        // le mur d'enceinte gauche
        donnees.ajouter_plan(
            Plan {
                colonnes: div_x,
                rangees: div_z,
                coin_bas_gauche: Point3 { x: decalage.x, y: decalage.y, z: decalage.z },
                coin_haut_gauche: Point3 { x: decalage.x, y: y_haut, z: decalage.z },
                coin_bas_droit: Point3 {
                    x: decalage.x,
                    y: decalage.y,
                    z: decalage.z + cote_total_z,
                },
                texture: texture_enceinte,
            },
        );

        // le mur d'enceinte bas
        donnees.ajouter_plan(
            Plan {
                colonnes: div_x,
                rangees: div_z,
                coin_bas_gauche: Point3 {
                    x: decalage.x + cote_total_x,
                    y: decalage.y,
                    z: decalage.z,
                },
                coin_haut_gauche: Point3 { x: decalage.x + cote_total_x, y: y_haut, z: decalage.z },
                coin_bas_droit: Point3 { x: decalage.x, y: decalage.y, z: decalage.z },
                texture: texture_enceinte,
            },
        );

        // le mur d'enceinte droit
        donnees.ajouter_plan(
            Plan {
                colonnes: div_x,
                rangees: div_z,
                coin_bas_gauche: Point3 {
                    x: decalage.x + cote_total_x,
                    y: decalage.y,
                    z: decalage.z + cote_total_z,
                },
                coin_haut_gauche: Point3 {
                    x: decalage.x + cote_total_x,
                    y: y_haut,
                    z: decalage.z + cote_total_z,
                },
                coin_bas_droit: Point3 {
                    x: decalage.x + cote_total_x,
                    y: decalage.y,
                    z: decalage.z,
                },
                texture: texture_enceinte,
            },
        );

        // le mur d'enceinte haut
        donnees.ajouter_plan(
            Plan {
                colonnes: div_x,
                rangees: div_z,
                coin_bas_gauche: Point3 {
                    x: decalage.x,
                    y: decalage.y,
                    z: decalage.z + cote_total_z,
                },
                coin_haut_gauche: Point3 { x: decalage.x, y: y_haut, z: decalage.z + cote_total_z },
                coin_bas_droit: Point3 {
                    x: decalage.x + cote_total_x,
                    y: decalage.y,
                    z: decalage.z + cote_total_z,
                },
                texture: texture_enceinte,
            },
        );

        proof {
            assert forall|a: int, b: int| dans_grille(lo, la, a, b) implies plans_des_murs_presents(
                donnees.plans@,
                #[trigger] cellule_a(vue, a, b),
                decalage,
                *texture_mur,
            ) by {
                lemme_murs_presents_prefixe(
                    plans_cellules,
                    donnees.plans@,
                    cellule_a(vue, a, b),
                    decalage,
                    *texture_mur,
                );
            }
        }
        let ghost plans_finaux = donnees.plans@;

        // les torches
        let mut quelle: usize = 0;
        let nb_lumieres = self.lumieres.len();
        while quelle < nb_lumieres
            invariant
                quelle <= nb_lumieres,
                self.bien_forme(),
                nb_lumieres == self.spec_lumieres().len(),
                donnees.plans@ == plans_finaux,
                donnees.torches@.len() == n0t + quelle,
                n0t == old(donnees).torches@.len(),
                forall|i: int|
                    0 <= i < n0t ==> #[trigger] donnees.torches@[i] == old(donnees).torches@[i],
                forall|k: int|
                    0 <= k < quelle ==> torche_de_lumiere(
                        donnees.torches@[n0t + k],
                        #[trigger] self.spec_lumieres()[k],
                        texture_torche,
                    ),
            decreases nb_lumieres - quelle,
        {
            let lumiere = self.lumieres[quelle];
            lumiere.ajouter_geometrie(texture_torche, donnees);
            quelle = quelle + 1;
        }
    }

    /// Copie de la cellule en `(x, z)` (lecture interne).
    fn cellules_lire(&self, x: u32, z: u32) -> (r: Cellule)
        requires
            grille_bien_formee(self.vue(), self.spec_longueur(), self.spec_largeur()),
            dans_grille(self.spec_longueur(), self.spec_largeur(), x as int, z as int),
        ensures
            r == cellule_a(self.vue(), x as int, z as int),
    {
        proof {
            assert(self.vue()[z as int] == self.cellules@[z as int]@);
        }
        self.cellules[z as usize][x as usize]
    }
}


/// Nombre de fentes deja occupees apres `index` lumieres examinees.
spec fn borne_fentes(index: int) -> int {
    if index < NOMBRE_LUMIERES - 1 {
        index
    } else {
        NOMBRE_LUMIERES as int - 1
    }
}

/// L'indice de lumiere `j` occupe l'une des `borne` premieres fentes.
spec fn fente_tient(proches: Seq<(i64, usize)>, borne: int, j: int) -> bool {
    exists|t: int| 0 <= t < borne && (#[trigger] proches[t]).1 == j
}

} // verus!

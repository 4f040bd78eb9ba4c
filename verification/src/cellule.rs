//! Cellules de la grille : quatre drapeaux de murs, etat de sentier et
//! d'eclairage. Les coordonnees d'une cellule sont fixees a sa creation.

use vstd::prelude::*;
use crate::aleatoire::GenerateurAleatoire;
use crate::lumiere::{
    couleur_torche_fixe, lumiere_admissible, torche_conforme, torche_premier_mur, Lumiere, Point3,
};
use crate::geometrie::{
    plans_de_cellule, DonneesGeometrie, ParametresTexture, Plan, COLONNES_MUR, RANGEES_MUR,
};

verus! {

/// Cote d'une cellule, en unites de virgule fixe (100 unites = un cote).
pub const COTE_FIXE: i64 = 100;

/// Hauteur d'une cellule, en unites de virgule fixe.
pub const HAUTEUR_FIXE: i64 = 200;

/// Dimension maximale (en cellules) d'un cote de la grille.
pub const DIMENSION_MAX: u32 = 1000;

/// Coordonnees d'une cellule dans la grille.
#[derive(Clone, Copy, Debug, PartialEq, Eq, Structural)]
pub struct Position {
    pub x: u32,
    pub z: u32,
}

impl Position {
    pub fn new(x: u32, z: u32) -> (p: Position)
        ensures
            p.x == x,
            p.z == z,
    {
        Position { x, z }
    }
}

/// Une cellule de la grille. Les drapeaux de murs sont vrais quand un mur
/// plein se dresse du cote correspondant (vue de dessus : gauche = x,
/// droit = x + 1, bas = z, haut = z + 1).
#[derive(Clone, Copy, Debug, PartialEq, Eq, Structural)]
pub struct Cellule {
    pub x: u32,
    pub z: u32,

    pub sentier: bool,
    pub eclaire: bool,

    pub mur_gauche: bool,
    pub mur_haut: bool,
    pub mur_droit: bool,
    pub mur_bas: bool,
}

/// Valeur d'une cellule apres ouverture en sentier : les murs tombent,
/// sauf ceux qui donnent sur l'exterieur de la grille.
pub open spec fn cellule_ouverte(c: Cellule, longueur: int, largeur: int) -> Cellule {
    Cellule {
        sentier: true,
        mur_gauche: c.x == 0,
        mur_haut: c.z + 1 == largeur,
        mur_droit: c.x + 1 == longueur,
        mur_bas: c.z == 0,
        ..c
    }
}

impl Cellule {
    /// Cellule vierge : pleine (non sentier), non eclairee, quatre murs.
    pub open spec fn vierge(self) -> bool {
        &&& !self.sentier
        &&& !self.eclaire
        &&& self.mur_gauche
        &&& self.mur_haut
        &&& self.mur_droit
        &&& self.mur_bas
    }

    pub fn new(x: u32, z: u32) -> (c: Cellule)
        ensures
            c.x == x,
            c.z == z,
            c.vierge(),
    {
        Cellule {
            x,
            z,
            sentier: false,
            eclaire: false,
            mur_gauche: true,
            mur_haut: true,
            mur_droit: true,
            mur_bas: true,
        }
    }

    pub fn est_un_sentier(&self) -> (r: bool)
        ensures
            r == self.sentier,
    {
        self.sentier
    }

    /// Ouvre la cellule en sentier : abat ses murs, sauf ceux du perimetre
    /// de la grille, qui restent en place.
    pub fn ouvrir_sentier(&mut self, longueur: u32, largeur: u32)
        requires
            old(self).x < longueur,
            old(self).z < largeur,
        ensures
            *final(self) == cellule_ouverte(*old(self), longueur as int, largeur as int),
    {
        self.sentier = true;

        self.mur_gauche = self.x == 0;
        self.mur_haut = self.z + 1 == largeur;
        self.mur_droit = self.x + 1 == longueur;
        self.mur_bas = self.z == 0;
    }
    /// Tente de poser une torche sur cette cellule. Une cellule sentier ou
    /// deja visitee n'est pas touchee; sinon la cellule est marquee visitee
    /// (au plus une tentative par cellule), puis chaque mur present recoit
    /// sa chance dans l'ordre gauche, haut, droit, bas : les trois premiers
    /// derriere un tirage, le mur bas a coup sur en dernier recours.
    pub fn essayer_eclairer(
        &mut self,
        hauteur: i64,
        cote: i64,
        decalage: &Point3,
        generateur: &mut GenerateurAleatoire,
    ) -> (r: Option<Lumiere>)
        requires
            hauteur == HAUTEUR_FIXE,
            cote == COTE_FIXE,
            old(self).x < DIMENSION_MAX,
            old(self).z < DIMENSION_MAX,
            -50_000 <= decalage.x <= 0,
            decalage.y == 0,
            -50_000 <= decalage.z <= 0,
        ensures
            *final(self) == (if old(self).sentier || old(self).eclaire {
                *old(self)
            } else {
                Cellule { eclaire: true, ..*old(self) }
            }),
            match r {
                Some(l) => !old(self).sentier && !old(self).eclaire && torche_conforme(
                    *old(self),
                    *decalage,
                    l,
                ) && lumiere_admissible(l),
                None => old(self).sentier || old(self).eclaire || !old(self).mur_bas,
            },
            !old(self).sentier && !old(self).eclaire && old(self).mur_bas ==> r is Some,
            // Sous la source fixe toutes les portes passent : la torche va
            // au premier mur present, couleur sans part aleatoire.
            *old(generateur) is Fixe && !old(self).sentier && !old(self).eclaire && (old(
                self,
            ).mur_gauche || old(self).mur_haut || old(self).mur_droit || old(self).mur_bas) ==> (
            r matches Some(l) && torche_premier_mur(*old(self), *decalage, l) && l.couleur
                == couleur_torche_fixe()),
    {
        if self.sentier || self.eclaire {
            return None;
        }
        self.eclaire = true;

        let ecart_centre = (cote * 7) / 10;
        let hauteur_lumiere = (hauteur * 85) / 100;

        let x = decalage.x + cote * (self.x as i64) + cote / 2;
        let y = decalage.y + hauteur_lumiere;
        let z = decalage.z + cote * (self.z as i64) + cote / 2;

        let ecart_bas = (cote * 45) / 100;
        let hauteur_bas = y - hauteur / 5;

        if self.mur_gauche && generateur.entier_aleatoire(4) == 0 {
            return Some(
                Lumiere::new(x - ecart_centre, y, z, x - ecart_bas, hauteur_bas, z, generateur),
            );
        }
        if self.mur_haut && generateur.entier_aleatoire(3) == 0 {
            return Some(
                Lumiere::new(x, y, z + ecart_centre, x, hauteur_bas, z + ecart_bas, generateur),
            );
        }
        if self.mur_droit && generateur.entier_aleatoire(2) == 0 {
            return Some(
                Lumiere::new(x + ecart_centre, y, z, x + ecart_bas, hauteur_bas, z, generateur),
            );
        }
        if self.mur_bas {
            return Some(
                Lumiere::new(x, y, z - ecart_centre, x, hauteur_bas, z - ecart_bas, generateur),
            );
        }

        None
    }

    /// Emet les plans des murs presents de la cellule, dans l'ordre
    /// gauche, haut, droit, bas, aux coins exacts en virgule fixe.
    pub fn ajouter_geometrie(
        &self,
        hauteur: i64,
        cote: i64,
        decalage: &Point3,
        texture: &ParametresTexture,
        donnees: &mut DonneesGeometrie,
    )
        requires
            hauteur == HAUTEUR_FIXE,
            cote == COTE_FIXE,
            self.x < DIMENSION_MAX,
            self.z < DIMENSION_MAX,
            -50_000 <= decalage.x <= 0,
            -1_000_000 <= decalage.y <= 1_000_000,
            -50_000 <= decalage.z <= 0,
        ensures
            final(donnees).torches@ == old(donnees).torches@,
            old(donnees).plans@.len() <= final(donnees).plans@.len() <= old(donnees).plans@.len()
                + 4,
            forall|i: int|
                0 <= i < old(donnees).plans@.len() ==> #[trigger] final(donnees).plans@[i] == old(
                    donnees,
                ).plans@[i],
            plans_de_cellule(
                final(donnees).plans@.skip(old(donnees).plans@.len() as int),
                *self,
                *decalage,
                *texture,
            ),
    {
        let ghost n = old(donnees).plans@.len() as int;

        let x_gauche = decalage.x + cote * (self.x as i64);
        let x_droit = x_gauche + cote;
        let y_bas = decalage.y;
        let y_haut = decalage.y + hauteur;
        let z_bas = decalage.z + cote * (self.z as i64);
        let z_haut = z_bas + cote;

        if self.mur_gauche {
            donnees.ajouter_plan(
                Plan {
                    colonnes: COLONNES_MUR,
                    rangees: RANGEES_MUR,
                    coin_bas_gauche: Point3 { x: x_gauche, y: y_bas, z: z_haut },
                    coin_haut_gauche: Point3 { x: x_gauche, y: y_haut, z: z_haut },
                    coin_bas_droit: Point3 { x: x_gauche, y: y_bas, z: z_bas },
                    texture: *texture,
                },
            );
        }
        if self.mur_haut {
            donnees.ajouter_plan(
                Plan {
                    colonnes: COLONNES_MUR,
                    rangees: RANGEES_MUR,
                    coin_bas_gauche: Point3 { x: x_droit, y: y_bas, z: z_haut },
                    coin_haut_gauche: Point3 { x: x_droit, y: y_haut, z: z_haut },
                    coin_bas_droit: Point3 { x: x_gauche, y: y_bas, z: z_haut },
                    texture: *texture,
                },
            );
        }
        if self.mur_droit {
            donnees.ajouter_plan(
                Plan {
                    colonnes: COLONNES_MUR,
                    rangees: RANGEES_MUR,
                    coin_bas_gauche: Point3 { x: x_droit, y: y_bas, z: z_bas },
                    coin_haut_gauche: Point3 { x: x_droit, y: y_haut, z: z_bas },
                    coin_bas_droit: Point3 { x: x_droit, y: y_bas, z: z_haut },
                    texture: *texture,
                },
            );
        }
        if self.mur_bas {
            donnees.ajouter_plan(
                Plan {
                    colonnes: COLONNES_MUR,
                    rangees: RANGEES_MUR,
                    coin_bas_gauche: Point3 { x: x_gauche, y: y_bas, z: z_bas },
                    coin_haut_gauche: Point3 { x: x_gauche, y: y_haut, z: z_bas },
                    coin_bas_droit: Point3 { x: x_droit, y: y_bas, z: z_bas },
                    texture: *texture,
                },
            );
        }
        proof {
            let s = donnees.plans@.skip(n);
            assert forall|k: int| 0 <= k < s.len() implies #[trigger] s[k] == donnees.plans@[n
                + k] by {}
        }
    }
}

} // verus!
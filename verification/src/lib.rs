//! Coeur verifie d'un jeu de labyrinthe en trois dimensions.
//!
//! La bibliotheque construit un labyrinthe sur une grille rectangulaire
//! (creusage aleatoire en arbre, elagage des murs doubles, pose de torches),
//! puis repond aux requetes par image : selection bornee des lumieres les
//! plus proches et expulsion de l'observateur hors des cellules pleines.
//! Toutes les coordonnees du monde sont des entiers en virgule fixe :
//! `COTE_FIXE` unites par cote de cellule.

pub mod aleatoire;
pub mod cellule;
pub mod clavier;
pub mod collision;
pub mod geometrie;
pub mod grille;
pub mod labyrinthe;
pub mod lumiere;
pub mod shaders;

pub use aleatoire::GenerateurAleatoire;
pub use cellule::{Cellule, Position};
pub use labyrinthe::Labyrinthe;
pub use lumiere::{Lumiere, Lumieres, Point3, Point4};

//! Expulsion de l'observateur hors des cellules pleines.

use labyrinthe::aleatoire::GenerateurAleatoire;
use labyrinthe::labyrinthe::Labyrinthe;
use labyrinthe::lumiere::Point3;

/// Le labyrinthe determine de trois par trois : la cellule centrale
/// `(1, 1)` reste pleine, tout le reste de la grille est creuse sauf
/// `(0, 2)`.
fn labyrinthe_de_reference() -> Labyrinthe {
    let mut generateur = GenerateurAleatoire::Fixe;
    Labyrinthe::new(3, 3, &mut generateur)
}

/// Vrai si la position est strictement dans l'interieur d'une cellule
/// pleine du voisinage trois par trois de sa cellule.
fn dans_un_obstacle(lab: &Labyrinthe, position: &Point3) -> bool {
    let decalage = lab.decalage();
    let centre_x = (position.x - decalage.x + 50).div_euclid(100);
    let centre_z = (position.z - decalage.z + 50).div_euclid(100);
    for cx in (centre_x - 1)..=(centre_x + 1) {
        for cz in (centre_z - 1)..=(centre_z + 1) {
            let pleine = match lab.essayer_cellule(cx, cz) {
                Some(cellule) => !cellule.est_un_sentier(),
                None => true,
            };
            if pleine {
                let gauche = decalage.x + 100 * cx;
                let bas = decalage.z + 100 * cz;
                if gauche < position.x
                    && position.x < gauche + 100
                    && bas < position.z
                    && position.z < bas + 100
                {
                    return true;
                }
            }
        }
    }
    false
}

#[test]
fn expulsion_hors_de_la_cellule_pleine() {
    // Observateur strictement au coeur de la cellule pleine centrale.
    let lab = labyrinthe_de_reference();
    let mut position = Point3 { x: 0, y: 150, z: 0 };
    assert!(dans_un_obstacle(&lab, &position));
    lab.expulser_murs(&mut position);
    assert!(!dans_un_obstacle(&lab, &position));
    assert_eq!(position.y, 150);
    // La penetration la plus faible est selon l'axe z : la coordonnee est
    // ramenee sur le bord de cellule.
    assert_eq!(position, Point3 { x: 0, y: 150, z: 50 });
}

#[test]
fn retour_exact_sur_la_frontiere() {
    // Observateur sur la ligne entre la cellule pleine (1, 1) et le
    // sentier (1, 2), decale de moins que la marge vers la cellule
    // pleine : il revient exactement sur la frontiere, pas plus loin.
    let lab = labyrinthe_de_reference();
    let mut position = Point3 { x: 0, y: 150, z: 40 };
    lab.expulser_murs(&mut position);
    assert_eq!(position, Point3 { x: 0, y: 150, z: 50 });
}

#[test]
fn position_libre_inchangee() {
    // Au milieu d'un couloir creuse, loin de toute boite elargie, la
    // position ressort telle quelle.
    let lab = labyrinthe_de_reference();
    // Cellule (2, 0) est un sentier; son centre est en (100, -100).
    let mut position = Point3 { x: 100, y: 150, z: -100 };
    assert!(!dans_un_obstacle(&lab, &position));
    lab.expulser_murs(&mut position);
    assert_eq!(position, Point3 { x: 100, y: 150, z: -100 });
}

#[test]
fn exterieur_de_la_grille_repousse() {
    // L'exterieur du labyrinthe compte partout comme plein : un
    // observateur qui a traverse le bord est ramene sur une ligne de
    // la grille.
    let lab = labyrinthe_de_reference();
    // Bord gauche de la grille en x = -150; 10 unites au-dela.
    let mut position = Point3 { x: -160, y: 150, z: 0 };
    lab.expulser_murs(&mut position);
    assert!(!dans_un_obstacle(&lab, &position));
    assert_eq!((position.x - lab.decalage().x).rem_euclid(100), 0);
}

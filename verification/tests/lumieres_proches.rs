//! Pose des torches et selection bornee des lumieres les plus proches.

use labyrinthe::aleatoire::GenerateurAleatoire;
use labyrinthe::cellule::Cellule;
use labyrinthe::labyrinthe::Labyrinthe;
use labyrinthe::lumiere::{Lumieres, Point3, Point4};

fn distance_carree(p: &Point3, q: &Point4) -> i64 {
    let dx = p.x - q.x;
    let dy = p.y - q.y;
    let dz = p.z - q.z;
    dx * dx + dy * dy + dz * dz
}

#[test]
fn tableau_sentinelle() {
    let lumieres = Lumieres::new();
    assert_eq!(lumieres.positions.len(), 8);
    assert_eq!(lumieres.couleurs.len(), 8);
    for i in 0..8 {
        assert_eq!(
            lumieres.positions[i],
            Point4 { x: 100_000_000, y: 100_000_000, z: 100_000_000, w: 1 }
        );
        assert_eq!(
            lumieres.couleurs[i],
            Point4 { x: 10_000, y: 10_000, z: 10_000, w: 10_000 }
        );
    }
}

#[test]
fn scenario_une_seule_lumiere() {
    // Le labyrinthe determine de trois par trois pose exactement une
    // torche : sur le mur gauche de la cellule pleine centrale, couleur
    // sans part aleatoire.
    let mut generateur = GenerateurAleatoire::Fixe;
    let lab = Labyrinthe::new(3, 3, &mut generateur);
    assert_eq!(lab.nombre_lumieres(), 1);
    let lumiere = *lab.lire_lumiere(0);
    assert_eq!(lumiere.position, Point4 { x: -70, y: 170, z: 0, w: 1 });
    assert_eq!(lumiere.position_bas, Point4 { x: -45, y: 130, z: 0, w: 1 });
    assert_eq!(lumiere.couleur, Point4 { x: 4_000, y: 4_000, z: 4_000, w: 10_000 });

    let observateur = Point3 { x: 0, y: 150, z: 0 };
    let proches = lab.obtenir_lumieres_proches(&observateur);
    assert_eq!(proches.positions.len(), 8);
    assert_eq!(proches.couleurs.len(), 8);
    // La seule torche occupe la premiere fente.
    assert_eq!(proches.positions[0], lumiere.position);
    assert_eq!(proches.couleurs[0], lumiere.couleur);
    // Les fentes inoccupees gardent leur sentinelle.
    for i in 1..7 {
        assert_eq!(
            proches.positions[i],
            Point4 { x: 100_000_000, y: 100_000_000, z: 100_000_000, w: 1 }
        );
        assert_eq!(
            proches.couleurs[i],
            Point4 { x: 10_000, y: 10_000, z: 10_000, w: 10_000 }
        );
    }
    // La derniere fente porte le halo de l'observateur.
    assert_eq!(proches.positions[7], Point4 { x: 0, y: 150, z: 0, w: 1 });
    assert_eq!(proches.couleurs[7], Point4 { x: 5_000, y: 5_200, z: 5_400, w: 10_000 });
}

#[test]
fn selection_sans_aucune_lumiere() {
    // Une grille de deux par deux n'a aucune cellule interieure : aucune
    // torche n'est posee, le tableau reste sentinelle plus halo.
    let mut generateur = GenerateurAleatoire::Graine(1);
    let lab = Labyrinthe::new(2, 2, &mut generateur);
    assert_eq!(lab.nombre_lumieres(), 0);
    let observateur = Point3 { x: 10, y: 20, z: 30 };
    let proches = lab.obtenir_lumieres_proches(&observateur);
    for i in 0..7 {
        assert_eq!(
            proches.positions[i],
            Point4 { x: 100_000_000, y: 100_000_000, z: 100_000_000, w: 1 }
        );
    }
    assert_eq!(proches.positions[7], Point4 { x: 10, y: 20, z: 30, w: 1 });
}

#[test]
fn aucune_ecartee_plus_proche_qu_une_retenue() {
    // Sur un grand labyrinthe a graine fixe, verifie la propriete de
    // selection : aucune lumiere non retenue n'est strictement plus
    // proche de l'observateur qu'une lumiere retenue.
    let mut generateur = GenerateurAleatoire::Graine(2024);
    let lab = Labyrinthe::new(16, 16, &mut generateur);
    let nb = lab.nombre_lumieres();
    assert!(nb > 7, "il faut plus de sept torches pour exercer la selection");

    let observateur = Point3 { x: 125, y: 150, z: -75 };
    let proches = lab.obtenir_lumieres_proches(&observateur);

    // Les sept fentes reelles sont occupees : aucune sentinelle.
    let mut retenues: Vec<Point4> = Vec::new();
    for i in 0..7 {
        assert_ne!(proches.positions[i].x, 100_000_000);
        retenues.push(proches.positions[i]);
    }
    let pire_retenue = retenues
        .iter()
        .map(|p| distance_carree(&observateur, p))
        .max()
        .unwrap();
    for i in 0..nb {
        let lumiere = *lab.lire_lumiere(i);
        if !retenues.contains(&lumiere.position) {
            assert!(
                distance_carree(&observateur, &lumiere.position) >= pire_retenue,
                "une lumiere ecartee est plus proche qu'une retenue"
            );
        }
    }
}

#[test]
fn couleurs_et_hauteurs_des_torches() {
    let mut generateur = GenerateurAleatoire::Graine(99);
    let lab = Labyrinthe::new(12, 12, &mut generateur);
    for i in 0..lab.nombre_lumieres() {
        let lumiere = *lab.lire_lumiere(i);
        // Couleur chaude bornee : part fixe plus part aleatoire.
        for canal in [lumiere.couleur.x, lumiere.couleur.y, lumiere.couleur.z] {
            assert!((4_000..10_000).contains(&canal));
        }
        assert_eq!(lumiere.couleur.w, 10_000);
        // Flamme a 85 % de la hauteur, attache 20 % plus bas.
        assert_eq!(lumiere.position.y, 170);
        assert_eq!(lumiere.position_bas.y, 130);
        assert_eq!(lumiere.position.w, 1);
        assert_eq!(lumiere.position_bas.w, 1);
    }
}

#[test]
fn tentative_d_eclairage_unique_par_cellule() {
    let mut generateur = GenerateurAleatoire::Fixe;
    let mut cellule = Cellule::new(1, 1);
    let decalage = Point3 { x: -150, y: 0, z: -150 };
    let premiere = cellule.essayer_eclairer(200, 100, &decalage, &mut generateur);
    let lumiere = premiere.expect("le mur gauche est present, la source repond zero");
    assert_eq!(lumiere.position, Point4 { x: -70, y: 170, z: 0, w: 1 });
    assert_eq!(lumiere.position_bas, Point4 { x: -45, y: 130, z: 0, w: 1 });
    // La cellule est marquee visitee : plus aucune tentative n'aboutit.
    let seconde = cellule.essayer_eclairer(200, 100, &decalage, &mut generateur);
    assert!(seconde.is_none());
}

#[test]
fn cellule_sentier_jamais_eclairee() {
    let mut generateur = GenerateurAleatoire::Fixe;
    let mut cellule = Cellule::new(1, 1);
    cellule.ouvrir_sentier(3, 3);
    let decalage = Point3 { x: -150, y: 0, z: -150 };
    assert!(cellule.essayer_eclairer(200, 100, &decalage, &mut generateur).is_none());
}

//! Creusage, elagage et structure du labyrinthe.

use labyrinthe::aleatoire::GenerateurAleatoire;
use labyrinthe::cellule::Cellule;
use labyrinthe::labyrinthe::Labyrinthe;

/// Copie toutes les cellules de la grille.
fn copier_grille(lab: &Labyrinthe) -> Vec<Vec<Cellule>> {
    let mut grille = Vec::new();
    for z in 0..lab.largeur() {
        let mut rangee = Vec::new();
        for x in 0..lab.longueur() {
            rangee.push(*lab.essayer_cellule(x as i64, z as i64).unwrap());
        }
        grille.push(rangee);
    }
    grille
}

/// Nombre de cellules sentier.
fn compter_sentiers(lab: &Labyrinthe) -> u32 {
    let mut nb = 0;
    for z in 0..lab.largeur() {
        for x in 0..lab.longueur() {
            if lab.essayer_cellule(x as i64, z as i64).unwrap().est_un_sentier() {
                nb += 1;
            }
        }
    }
    nb
}

/// Parcours en largeur depuis une cellule sentier, en ne franchissant que
/// des murs ouverts des deux cotes, entre cellules sentier.
fn sentiers_atteints(lab: &Labyrinthe, depart: (u32, u32)) -> u32 {
    let longueur = lab.longueur() as usize;
    let largeur = lab.largeur() as usize;
    let mut vu = vec![false; longueur * largeur];
    let mut pile = vec![depart];
    vu[depart.1 as usize * longueur + depart.0 as usize] = true;
    let mut nb = 0;
    while let Some((x, z)) = pile.pop() {
        nb += 1;
        let ici = *lab.essayer_cellule(x as i64, z as i64).unwrap();
        let voisins = [
            (x as i64 - 1, z as i64, ici.mur_gauche, 2),
            (x as i64, z as i64 + 1, ici.mur_haut, 3),
            (x as i64 + 1, z as i64, ici.mur_droit, 0),
            (x as i64, z as i64 - 1, ici.mur_bas, 1),
        ];
        for (vx, vz, mur_ici, sens) in voisins {
            if mur_ici {
                continue;
            }
            if let Some(voisin) = lab.essayer_cellule(vx, vz) {
                let mur_voisin = match sens {
                    0 => voisin.mur_gauche,
                    1 => voisin.mur_haut,
                    2 => voisin.mur_droit,
                    _ => voisin.mur_bas,
                };
                if voisin.est_un_sentier() && !mur_voisin {
                    let indice = vz as usize * longueur + vx as usize;
                    if !vu[indice] {
                        vu[indice] = true;
                        pile.push((vx as u32, vz as u32));
                    }
                }
            }
        }
    }
    nb
}

/// Premiere cellule sentier trouvee.
fn premier_sentier(lab: &Labyrinthe) -> (u32, u32) {
    for z in 0..lab.largeur() {
        for x in 0..lab.longueur() {
            if lab.essayer_cellule(x as i64, z as i64).unwrap().est_un_sentier() {
                return (x, z);
            }
        }
    }
    panic!("aucun sentier");
}

#[test]
fn connexite_graine_fixe() {
    let mut generateur = GenerateurAleatoire::Graine(42);
    let lab = Labyrinthe::new(12, 12, &mut generateur);
    let nb = compter_sentiers(&lab);
    assert!(nb >= 1);
    let depart = premier_sentier(&lab);
    assert_eq!(sentiers_atteints(&lab, depart), nb);
}

#[test]
fn connexite_generateur_systeme() {
    // Exerce le tirage du processus : les contrats tiennent quel que soit
    // le hasard rendu.
    let mut generateur = GenerateurAleatoire::Systeme;
    let lab = Labyrinthe::new(9, 7, &mut generateur);
    let nb = compter_sentiers(&lab);
    assert!(nb >= 1);
    let depart = premier_sentier(&lab);
    assert_eq!(sentiers_atteints(&lab, depart), nb);
    assert_eq!(lab.nombre_ouvertures() + 1, nb);
}

#[test]
fn ouvertures_egalent_sentiers_moins_un() {
    let mut generateur = GenerateurAleatoire::Graine(7);
    let lab = Labyrinthe::new(12, 12, &mut generateur);
    assert_eq!(lab.nombre_ouvertures() + 1, compter_sentiers(&lab));
}

#[test]
fn aucun_mur_epais_apres_elagage() {
    let mut generateur = GenerateurAleatoire::Graine(3);
    let lab = Labyrinthe::new(10, 14, &mut generateur);
    for z in 0..lab.largeur() as i64 {
        for x in 0..lab.longueur() as i64 {
            let ici = *lab.essayer_cellule(x, z).unwrap();
            if let Some(droite) = lab.essayer_cellule(x + 1, z) {
                if !ici.est_un_sentier() && !droite.est_un_sentier() {
                    assert!(!ici.mur_droit);
                    assert!(!droite.mur_gauche);
                }
            }
            if let Some(dessus) = lab.essayer_cellule(x, z + 1) {
                if !ici.est_un_sentier() && !dessus.est_un_sentier() {
                    assert!(!ici.mur_haut);
                    assert!(!dessus.mur_bas);
                }
            }
        }
    }
}

#[test]
fn elagage_idempotent() {
    let mut generateur = GenerateurAleatoire::Graine(11);
    let mut lab = Labyrinthe::new(8, 8, &mut generateur);
    let avant = copier_grille(&lab);
    lab.enlever_murs_inutiles();
    let apres = copier_grille(&lab);
    assert_eq!(avant, apres);
}

#[test]
fn scenario_grille_trois_par_trois() {
    // Grille de trois par trois, creusee avec la source qui repond
    // toujours zero : le deroulement est entierement determine.
    let mut generateur = GenerateurAleatoire::Fixe;
    let lab = Labyrinthe::new(3, 3, &mut generateur);

    let sentiers_attendus = [
        (0u32, 0u32),
        (0, 1),
        (1, 0),
        (2, 0),
        (2, 1),
        (2, 2),
        (1, 2),
    ];
    for z in 0..3i64 {
        for x in 0..3i64 {
            let attendu = sentiers_attendus.iter().any(|&(a, b)| a as i64 == x && b as i64 == z);
            assert_eq!(
                lab.essayer_cellule(x, z).unwrap().est_un_sentier(),
                attendu,
                "cellule ({}, {})",
                x,
                z
            );
        }
    }

    // Le reseau est un arbre couvrant des cellules creusees : chaque
    // ouverture attache une cellule de plus au reseau.
    assert_eq!(compter_sentiers(&lab), 7);
    assert_eq!(lab.nombre_ouvertures(), 6);
    let depart = premier_sentier(&lab);
    assert_eq!(sentiers_atteints(&lab, depart), 7);

    // La cellule centrale a toujours eu plus d'un voisin sentier au moment
    // de chaque examen : la regle du voisin unique l'a laissee pleine.
    let centre = *lab.essayer_cellule(1, 1).unwrap();
    assert!(!centre.est_un_sentier());
    assert!(!lab.peut_ouvrir_sentier(1, 1));
    assert!(centre.mur_gauche && centre.mur_haut && centre.mur_droit && centre.mur_bas);

    // Les cellules du perimetre gardent leurs murs vers l'exterieur.
    let coin = *lab.essayer_cellule(0, 0).unwrap();
    assert!(coin.est_un_sentier());
    assert!(coin.mur_gauche && coin.mur_bas);
    assert!(!coin.mur_droit && !coin.mur_haut);
}

#[test]
fn cellules_hors_grille_absentes() {
    let mut generateur = GenerateurAleatoire::Graine(5);
    let lab = Labyrinthe::new(4, 4, &mut generateur);
    assert!(lab.essayer_cellule(-1, 0).is_none());
    assert!(lab.essayer_cellule(0, -1).is_none());
    assert!(lab.essayer_cellule(4, 0).is_none());
    assert!(lab.essayer_cellule(0, 4).is_none());
    assert!(lab.essayer_cellule(3, 3).is_some());
    assert!(lab.position_valide(3, 3));
    assert!(!lab.position_valide(4, 3));
}

#[test]
fn cellule_vierge_et_ouverture() {
    let cellule = Cellule::new(2, 1);
    assert_eq!(cellule.x, 2);
    assert_eq!(cellule.z, 1);
    assert!(!cellule.est_un_sentier());
    assert!(cellule.mur_gauche && cellule.mur_haut && cellule.mur_droit && cellule.mur_bas);

    let mut coin = Cellule::new(0, 0);
    coin.ouvrir_sentier(3, 3);
    assert!(coin.est_un_sentier());
    assert!(coin.mur_gauche);
    assert!(coin.mur_bas);
    assert!(!coin.mur_droit);
    assert!(!coin.mur_haut);

    let mut milieu = Cellule::new(1, 1);
    milieu.ouvrir_sentier(3, 3);
    assert!(!milieu.mur_gauche && !milieu.mur_haut && !milieu.mur_droit && !milieu.mur_bas);
}

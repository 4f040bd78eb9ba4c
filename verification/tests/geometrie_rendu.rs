//! Emission de la geometrie et flux d'indices en bande de triangles.

use labyrinthe::aleatoire::GenerateurAleatoire;
use labyrinthe::geometrie::{indices_plan, indices_torche, DonneesGeometrie, ParametresTexture};
use labyrinthe::labyrinthe::Labyrinthe;
use labyrinthe::lumiere::Point3;

#[test]
fn indices_d_un_plan_minimal() {
    // Un plan d'une colonne et d'une rangee : quatre sommets, un zigzag
    // encadre de deux indices redoubles.
    let indices = indices_plan(0, 1, 1);
    assert_eq!(indices, vec![0, 0, 2, 1, 3, 3]);
}

#[test]
fn indices_d_un_plan_decale() {
    let indices = indices_plan(10, 2, 1);
    assert_eq!(indices, vec![10, 10, 13, 11, 14, 12, 15, 15]);
}

#[test]
fn longueur_et_bornes_des_indices() {
    let colonnes = 8;
    let rangees = 16;
    let premier = 100;
    let indices = indices_plan(premier, colonnes, rangees);
    assert_eq!(indices.len() as u32, rangees * (2 * (colonnes + 1) + 2));
    let nb_sommets = (colonnes + 1) * (rangees + 1);
    for &i in &indices {
        assert!(premier <= i && i < premier + nb_sommets);
    }
}

#[test]
fn indices_d_une_torche() {
    let indices = indices_torche(5);
    assert_eq!(indices, vec![6, 6, 7, 5, 8, 6, 7, 7]);
}

#[test]
fn geometrie_du_labyrinthe_de_reference() {
    let mut generateur = GenerateurAleatoire::Fixe;
    let lab = Labyrinthe::new(3, 3, &mut generateur);

    let texture_plafond = ParametresTexture { echelle_u: 100, echelle_v: 100, indice: 2 };
    let texture_sol = ParametresTexture { echelle_u: 200, echelle_v: 200, indice: 1 };
    let texture_mur = ParametresTexture { echelle_u: 200, echelle_v: 200, indice: 0 };
    let mut donnees = DonneesGeometrie::new();
    lab.ajouter_geometrie(&texture_plafond, &texture_sol, &texture_mur, 3, &mut donnees);

    // Une torche par lumiere posee.
    assert_eq!(donnees.torches.len(), lab.nombre_lumieres());
    let torche = donnees.torches[0];
    assert_eq!(torche.indice_texture, 3);
    assert_eq!(torche.position, Point3 { x: -70, y: 170, z: 0 });
    assert_eq!(torche.position_bas, Point3 { x: -45, y: 130, z: 0 });

    // Les six dernieres surfaces : sol, plafond, quatre murs d'enceinte.
    let nb = donnees.plans.len();
    assert!(nb >= 6);
    let sol = donnees.plans[nb - 6];
    assert_eq!(sol.coin_bas_gauche, Point3 { x: -150, y: 0, z: -150 });
    assert_eq!(sol.coin_haut_gauche, Point3 { x: -150, y: 0, z: 150 });
    assert_eq!(sol.coin_bas_droit, Point3 { x: 150, y: 0, z: -150 });
    assert_eq!(sol.colonnes, 12);
    assert_eq!(sol.rangees, 12);
    assert_eq!(sol.texture.echelle_u, 600);
    assert_eq!(sol.texture.echelle_v, 600);
    assert_eq!(sol.texture.indice, 1);

    let plafond = donnees.plans[nb - 5];
    assert_eq!(plafond.coin_bas_gauche, Point3 { x: 150, y: 200, z: 150 });
    assert_eq!(plafond.texture.indice, 2);

    let enceinte_gauche = donnees.plans[nb - 4];
    assert_eq!(enceinte_gauche.coin_bas_gauche, Point3 { x: -150, y: 0, z: -150 });
    assert_eq!(enceinte_gauche.coin_haut_gauche, Point3 { x: -150, y: 200, z: -150 });
    assert_eq!(enceinte_gauche.coin_bas_droit, Point3 { x: -150, y: 0, z: 150 });
    assert_eq!(enceinte_gauche.texture.echelle_u, 600);
    assert_eq!(enceinte_gauche.texture.echelle_v, 200);

    // Chaque mur present d'une cellule a son plan; la cellule pleine
    // centrale garde ses quatre murs, donc quatre plans verticaux en
    // bordure de la cellule (1, 1).
    let plans_cellules = &donnees.plans[..nb - 6];
    let centre_gauche = plans_cellules.iter().any(|p| {
        p.coin_bas_gauche == Point3 { x: -50, y: 0, z: 50 } && p.coin_bas_droit == Point3 {
            x: -50,
            y: 0,
            z: -50,
        }
    });
    assert!(centre_gauche, "le mur gauche de la cellule centrale doit etre emis");

    // Aucun plan de cellule n'est emis pour un mur absent : le mur droit
    // de la cellule creusee (0, 0) est tombe, aucun plan vertical ne se
    // dresse entre (0, 0) et (1, 0).
    let mur_fantome = plans_cellules.iter().any(|p| {
        p.coin_bas_gauche == Point3 { x: -50, y: 0, z: -150 } && p.coin_bas_droit == Point3 {
            x: -50,
            y: 0,
            z: -50,
        }
    });
    assert!(!mur_fantome, "aucun plan pour un mur absent");
}

#[test]
fn un_plan_par_mur_leve() {
    // Le flux compte exactement un plan par drapeau de mur leve, plus les
    // six grandes surfaces.
    let mut generateur = GenerateurAleatoire::Graine(31);
    let lab = Labyrinthe::new(7, 5, &mut generateur);
    let texture = ParametresTexture { echelle_u: 100, echelle_v: 100, indice: 0 };
    let mut donnees = DonneesGeometrie::new();
    lab.ajouter_geometrie(&texture, &texture, &texture, 1, &mut donnees);

    let mut murs = 0usize;
    for z in 0..lab.largeur() as i64 {
        for x in 0..lab.longueur() as i64 {
            let cellule = lab.essayer_cellule(x, z).unwrap();
            for present in [cellule.mur_gauche, cellule.mur_haut, cellule.mur_droit, cellule.mur_bas]
            {
                if present {
                    murs += 1;
                }
            }
        }
    }
    assert_eq!(donnees.plans.len(), murs + 6);
}

#[test]
fn sources_des_nuanceurs() {
    let sommet = labyrinthe::shaders::vertex_shader();
    let fragment = labyrinthe::shaders::fragment_shader();
    assert!(sommet.contains("camera_perspective"));
    assert!(sommet.contains("NBR_LUMIERES = 8"));
    assert!(fragment.contains("sampler2DArray"));
    assert!(fragment.contains("NBR_LUMIERES = 8"));
}

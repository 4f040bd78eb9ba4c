//! Automate des touches et generateurs de nombres.

use labyrinthe::aleatoire::GenerateurAleatoire;
use labyrinthe::clavier::{Clavier, TOUCHE_ESPACE, TOUCHE_W};

#[test]
fn touches_de_base_inconnues() {
    let clavier = Clavier::new();
    assert!(!clavier.est_appuyee(TOUCHE_W));
    assert!(!clavier.est_appuyee(TOUCHE_ESPACE));
    assert!(!clavier.vient_etre_appuyee(TOUCHE_W));
}

#[test]
fn appui_et_stabilisation() {
    let mut clavier = Clavier::new();
    clavier.mise_a_jour_touche(TOUCHE_W, true);
    assert!(clavier.est_appuyee(TOUCHE_W));
    assert!(clavier.vient_etre_appuyee(TOUCHE_W));
    assert!(!clavier.est_appuyee(TOUCHE_ESPACE));

    // Fin d'image : la touche reste enfoncee, le drapeau retombe.
    clavier.mise_a_jour_changement_etat();
    assert!(clavier.est_appuyee(TOUCHE_W));
    assert!(!clavier.vient_etre_appuyee(TOUCHE_W));

    // Un appui repete sur une touche stabilisee ne releve pas le drapeau.
    clavier.mise_a_jour_touche(TOUCHE_W, true);
    assert!(clavier.est_appuyee(TOUCHE_W));
    assert!(!clavier.vient_etre_appuyee(TOUCHE_W));

    clavier.mise_a_jour_touche(TOUCHE_W, false);
    assert!(!clavier.est_appuyee(TOUCHE_W));
}

#[test]
fn touche_non_suivie_ignoree() {
    let mut clavier = Clavier::new();
    clavier.mise_a_jour_touche(99, true);
    assert!(!clavier.est_appuyee(99));

    clavier.ajouter_touche(99);
    clavier.mise_a_jour_touche(99, true);
    assert!(clavier.est_appuyee(99));

    // Resuivre une touche la ramene a l'etat inconnu.
    clavier.ajouter_touche(99);
    assert!(!clavier.est_appuyee(99));
}

#[test]
fn tirages_bornes() {
    let mut systeme = GenerateurAleatoire::Systeme;
    for _ in 0..100 {
        assert!(systeme.entier_aleatoire(3) < 3);
    }
    // Un tirage sous une limite de un ne peut etre que zero : un tirage
    // qui rendrait sa borne violerait son contrat.
    assert_eq!(systeme.entier_aleatoire(1), 0);
    let fraction = systeme.nombre_aleatoire(6_000);
    assert!((0..6_000).contains(&fraction));
}

#[test]
fn graine_reproductible() {
    let mut premier = GenerateurAleatoire::Graine(1234);
    let mut second = GenerateurAleatoire::Graine(1234);
    for limite in [2u32, 3, 10, 10_000] {
        assert_eq!(premier.entier_aleatoire(limite), second.entier_aleatoire(limite));
    }
    let mut autre = GenerateurAleatoire::Graine(4321);
    let mut distincts = false;
    for _ in 0..16 {
        if premier.entier_aleatoire(1_000_000) != autre.entier_aleatoire(1_000_000) {
            distincts = true;
        }
    }
    assert!(distincts, "deux graines differentes doivent diverger");
}

#[test]
fn source_fixe_toujours_zero() {
    let mut fixe = GenerateurAleatoire::Fixe;
    assert_eq!(fixe.entier_aleatoire(10), 0);
    assert_eq!(fixe.nombre_aleatoire(6_000), 0);
}

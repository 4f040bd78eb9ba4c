//! Etat du clavier : chaque touche suivie porte un petit automate
//! (appuyee, relachee, inconnue) avec un drapeau "vient de changer".
//! Les touches sont des identifiants entiers; la couche d'entree de
//! l'application les fait correspondre aux touches physiques.

use vstd::prelude::*;

verus! {

pub const TOUCHE_A: u32 = 0;

pub const TOUCHE_D: u32 = 1;

pub const TOUCHE_S: u32 = 2;

pub const TOUCHE_W: u32 = 3;

pub const TOUCHE_MAJ_GAUCHE: u32 = 4;

pub const TOUCHE_ESPACE: u32 = 5;

pub const TOUCHE_ECHAPPE: u32 = 6;

/// Etat d'une touche suivie.
#[derive(Clone, Copy, Debug, PartialEq, Eq, Structural)]
pub enum EtatTouche {
    Appuyee { vient_etre_appuyee: bool },
    Relachee { vient_etre_relache: bool },
    Inconnue,
}

/// Transition de l'automate d'une touche : un appui garde le drapeau
/// "vient d'etre appuyee" d'un appui repete, le leve sinon; symetrique
/// pour un relachement.
pub open spec fn changement(e: EtatTouche, appuyee: bool) -> EtatTouche {
    if appuyee {
        EtatTouche::Appuyee {
            vient_etre_appuyee: match e {
                EtatTouche::Appuyee { vient_etre_appuyee } => vient_etre_appuyee,
                _ => true,
            },
        }
    } else {
        EtatTouche::Relachee {
            vient_etre_relache: match e {
                EtatTouche::Relachee { vient_etre_relache } => vient_etre_relache,
                _ => true,
            },
        }
    }
}

/// Apaisement de fin d'image : les drapeaux "vient de changer" retombent.
pub open spec fn stabilisation(e: EtatTouche) -> EtatTouche {
    match e {
        EtatTouche::Appuyee { .. } => EtatTouche::Appuyee { vient_etre_appuyee: false },
        EtatTouche::Relachee { .. } => EtatTouche::Relachee { vient_etre_relache: false },
        EtatTouche::Inconnue => EtatTouche::Inconnue,
    }
}

impl EtatTouche {
    /// Applique la transition d'appui ou de relachement.
    pub fn changer_etat(&mut self, appuyee: bool)
        ensures
            *final(self) == changement(*old(self), appuyee),
    {
        *self = if appuyee {
            EtatTouche::Appuyee {
                vient_etre_appuyee: match self {
                    EtatTouche::Appuyee { vient_etre_appuyee } => *vient_etre_appuyee,
                    _ => true,
                },
            }
        } else {
            EtatTouche::Relachee {
                vient_etre_relache: match self {
                    EtatTouche::Relachee { vient_etre_relache } => *vient_etre_relache,
                    _ => true,
                },
            }
        };
    }
}

/// La table suit la touche `t`.
pub open spec fn possede(s: Seq<(u32, EtatTouche)>, t: u32) -> bool {
    exists|k: int| 0 <= k < s.len() && (#[trigger] s[k]).0 == t
}

/// Les touches de la table sont toutes distinctes.
pub open spec fn touches_distinctes(s: Seq<(u32, EtatTouche)>) -> bool {
    forall|k1: int, k2: int|
        0 <= k1 < k2 < s.len() ==> (#[trigger] s[k1]).0 != (#[trigger] s[k2]).0
}

/// Etat de la touche `t` dans la table (bien defini quand la table la
/// suit et que les touches sont distinctes).
pub open spec fn etat_en(s: Seq<(u32, EtatTouche)>, t: u32) -> EtatTouche {
    let k = choose|k: int| 0 <= k < s.len() && (#[trigger] s[k]).0 == t;
    s[k].1
}

/// Dans une table a touches distinctes, l'etat de la touche est celui de
/// sa ligne.
pub proof fn lemme_etat_en(s: Seq<(u32, EtatTouche)>, t: u32, k: int)
    requires
        touches_distinctes(s),
        0 <= k < s.len(),
        s[k].0 == t,
    ensures
        possede(s, t),
        etat_en(s, t) == s[k].1,
{
    assert(possede(s, t));
    let k2 = choose|k2: int| 0 <= k2 < s.len() && (#[trigger] s[k2]).0 == t;
    if k2 != k {
        if k2 < k {
            assert(s[k2].0 != s[k].0);
        } else {
            assert(s[k].0 != s[k2].0);
        }
        assert(false);
    }
}

/// Memorise l'etat des touches suivies.
pub struct Clavier {
    touches: Vec<(u32, EtatTouche)>,
}

impl Clavier {
    /// La table des touches suivies.
    pub closed spec fn table(self) -> Seq<(u32, EtatTouche)> {
        self.touches@
    }

    pub open spec fn bien_forme(self) -> bool {
        touches_distinctes(self.table())
    }

    /// Clavier suivant les touches de base du deplacement, toutes en
    /// etat inconnu.
    pub fn new() -> (c: Clavier)
        ensures
            c.bien_forme(),
            forall|t: u32|
                #[trigger] possede(c.table(), t) <==> t < 7,
            forall|t: u32|
                t < 7 ==> #[trigger] etat_en(c.table(), t) == EtatTouche::Inconnue,
    {
        let mut clavier = Clavier { touches: Vec::new() };
        clavier.ajouter_touches_base();
        clavier
    }

    /// Suit les sept touches de base (deplacement, vol, sortie).
    fn ajouter_touches_base(&mut self)
        requires
            old(self).table().len() == 0,
        ensures
            final(self).bien_forme(),
            forall|t: u32| #[trigger] possede(final(self).table(), t) <==> t < 7,
            forall|t: u32|
                t < 7 ==> #[trigger] etat_en(final(self).table(), t) == EtatTouche::Inconnue,
    {
        let mut quelle: u32 = 0;
        while quelle < 7
            invariant
                quelle <= 7,
                self.touches@.len() == quelle,
                forall|k: int|
                    0 <= k < quelle ==> (#[trigger] self.touches@[k]).0 == k && self.touches@[k].1
                        == EtatTouche::Inconnue,
            decreases 7 - quelle,
        {
            self.touches.push((quelle, EtatTouche::Inconnue));
            quelle = quelle + 1;
        }
        proof {
            assert forall|t: u32| #[trigger] possede(self.table(), t) implies t < 7 by {
                let k = choose|k: int|
                    0 <= k < self.table().len() && (#[trigger] self.table()[k]).0 == t;
                assert(self.table()[k].0 == k);
            }
            assert forall|t: u32| t < 7 implies #[trigger] possede(self.table(), t) by {
                assert(self.table()[t as int].0 == t);
                lemme_etat_en(self.table(), t, t as int);
            }
            assert forall|t: u32| t < 7 implies #[trigger] etat_en(self.table(), t)
                == EtatTouche::Inconnue by {
                assert(self.table()[t as int].0 == t);
                lemme_etat_en(self.table(), t, t as int);
            }
        }
    }

    /// Suit une touche de plus, en etat inconnu; une touche deja suivie
    /// revient a l'etat inconnu.
    pub fn ajouter_touche(&mut self, touche: u32)
        requires
            old(self).bien_forme(),
        ensures
            final(self).bien_forme(),
            possede(final(self).table(), touche),
            etat_en(final(self).table(), touche) == EtatTouche::Inconnue,
            forall|t: u32|
                t != touche ==> #[trigger] possede(final(self).table(), t) == possede(
                    old(self).table(),
                    t,
                ),
            forall|t: u32|
                t != touche && possede(old(self).table(), t) ==> #[trigger] etat_en(
                    final(self).table(),
                    t,
                ) == etat_en(old(self).table(), t),
    {
        let ghost avant = self.table();
        let position = self.chercher(touche);
        match position {
            Some(k) => {
                self.touches.set(k, (touche, EtatTouche::Inconnue));
                proof {
                    assert(avant[k as int].0 == touche);
                    assert forall|i: int|
                        0 <= i < avant.len() implies (#[trigger] self.table()[i]).0
                        == avant[i].0 by {}
                    assert(touches_distinctes(self.table()));
                    lemme_etat_en(self.table(), touche, k as int);
                    assert forall|t: u32|
                        t != touche implies #[trigger] possede(self.table(), t) == possede(
                        avant,
                        t,
                    ) by {
                        if possede(avant, t) {
                            let k2 = choose|k2: int|
                                0 <= k2 < avant.len() && (#[trigger] avant[k2]).0 == t;
                            assert(self.table()[k2].0 == t);
                        }
                        if possede(self.table(), t) {
                            let k2 = choose|k2: int|
                                0 <= k2 < self.table().len() && (#[trigger] self.table()[k2]).0
                                    == t;
                            assert(avant[k2].0 == t);
                        }
                    }
                    assert forall|t: u32|
                        t != touche && possede(avant, t) implies #[trigger] etat_en(
                        self.table(),
                        t,
                    ) == etat_en(avant, t) by {
                        let k2 = choose|k2: int|
                            0 <= k2 < avant.len() && (#[trigger] avant[k2]).0 == t;
                        assert(k2 != k as int);
                        assert(self.table()[k2] == avant[k2]);
                        lemme_etat_en(self.table(), t, k2);
                        lemme_etat_en(avant, t, k2);
                    }
                }
            },
            None => {
                self.touches.push((touche, EtatTouche::Inconnue));
                proof {
                    let n = avant.len() as int;
                    assert(self.table()[n].0 == touche);
                    assert forall|k1: int, k2: int|
                        0 <= k1 < k2 < self.table().len() implies (#[trigger] self.table()[k1]).0
                        != (#[trigger] self.table()[k2]).0 by {
                        if k2 < n {
                            assert(avant[k1].0 != avant[k2].0);
                        } else {
                            assert(self.table()[k1] == avant[k1]);
                        }
                    }
                    lemme_etat_en(self.table(), touche, n);
                    assert forall|t: u32|
                        t != touche implies #[trigger] possede(self.table(), t) == possede(
                        avant,
                        t,
                    ) by {
                        if possede(avant, t) {
                            let k2 = choose|k2: int|
                                0 <= k2 < avant.len() && (#[trigger] avant[k2]).0 == t;
                            assert(self.table()[k2].0 == t);
                        }
                        if possede(self.table(), t) {
                            let k2 = choose|k2: int|
                                0 <= k2 < self.table().len() && (#[trigger] self.table()[k2]).0
                                    == t;
                            assert(k2 < n);
                            assert(avant[k2].0 == t);
                        }
                    }
                    assert forall|t: u32|
                        t != touche && possede(avant, t) implies #[trigger] etat_en(
                        self.table(),
                        t,
                    ) == etat_en(avant, t) by {
                        let k2 = choose|k2: int|
                            0 <= k2 < avant.len() && (#[trigger] avant[k2]).0 == t;
                        assert(self.table()[k2] == avant[k2]);
                        lemme_etat_en(self.table(), t, k2);
                        lemme_etat_en(avant, t, k2);
                    }
                }
            },
        }
    }

    /// Position de la touche dans la table, si elle est suivie.
    fn chercher(&self, touche: u32) -> (r: Option<usize>)
        ensures
            match r {
                Some(k) => k < self.table().len() && self.table()[k as int].0 == touche,
                None => !possede(self.table(), touche),
            },
    {
        let mut k: usize = 0;
        while k < self.touches.len()
            invariant
                k <= self.touches@.len(),
                forall|k2: int| 0 <= k2 < k ==> (#[trigger] self.touches@[k2]).0 != touche,
            decreases self.touches@.len() - k,
        {
            if self.touches[k].0 == touche {
                return Some(k);
            }
            k = k + 1;
        }
        None
    }

    /// La touche est-elle enfoncee en ce moment ?
    pub fn est_appuyee(&self, touche: u32) -> (r: bool)
        requires
            self.bien_forme(),
        ensures
            r == (possede(self.table(), touche) && etat_en(self.table(), touche) is Appuyee),
    {
        match self.chercher(touche) {
            Some(k) => {
                proof {
                    lemme_etat_en(self.table(), touche, k as int);
                }
                match self.touches[k].1 {
                    EtatTouche::Appuyee { .. } => true,
                    _ => false,
                }
            },
            None => false,
        }
    }

    /// La touche vient-elle d'etre enfoncee (depuis la derniere image) ?
    pub fn vient_etre_appuyee(&self, touche: u32) -> (r: bool)
        requires
            self.bien_forme(),
        ensures
            r == (possede(self.table(), touche) && (etat_en(self.table(), touche) matches
                EtatTouche::Appuyee { vient_etre_appuyee } && vient_etre_appuyee)),
    {
        match self.chercher(touche) {
            Some(k) => {
                proof {
                    lemme_etat_en(self.table(), touche, k as int);
                }
                match self.touches[k].1 {
                    EtatTouche::Appuyee { vient_etre_appuyee } => vient_etre_appuyee,
                    _ => false,
                }
            },
            None => false,
        }
    }

    /// Enregistre un appui ou un relachement; une touche non suivie est
    /// ignoree.
    pub fn mise_a_jour_touche(&mut self, touche: u32, appuyee: bool)
        requires
            old(self).bien_forme(),
        ensures
            final(self).bien_forme(),
            forall|t: u32|
                #[trigger] possede(final(self).table(), t) == possede(old(self).table(), t),
            possede(old(self).table(), touche) ==> etat_en(final(self).table(), touche)
                == changement(etat_en(old(self).table(), touche), appuyee),
            forall|t: u32|
                t != touche && possede(old(self).table(), t) ==> #[trigger] etat_en(
                    final(self).table(),
                    t,
                ) == etat_en(old(self).table(), t),
    {
        let ghost avant = self.table();
        match self.chercher(touche) {
            Some(k) => {
                let mut etat = self.touches[k].1;
                etat.changer_etat(appuyee);
                self.touches.set(k, (touche, etat));
                proof {
                    lemme_etat_en(avant, touche, k as int);
                    lemme_etat_en(self.table(), touche, k as int);
                    assert forall|t: u32|
                        #[trigger] possede(self.table(), t) == possede(avant, t) by {
                        if possede(avant, t) {
                            let k2 = choose|k2: int|
                                0 <= k2 < avant.len() && (#[trigger] avant[k2]).0 == t;
                            assert(self.table()[k2].0 == t);
                        }
                        if possede(self.table(), t) {
                            let k2 = choose|k2: int|
                                0 <= k2 < self.table().len() && (#[trigger] self.table()[k2]).0
                                    == t;
                            assert(avant[k2].0 == t);
                        }
                    }
                    assert forall|t: u32|
                        t != touche && possede(avant, t) implies #[trigger] etat_en(
                        self.table(),
                        t,
                    ) == etat_en(avant, t) by {
                        let k2 = choose|k2: int|
                            0 <= k2 < avant.len() && (#[trigger] avant[k2]).0 == t;
                        assert(k2 != k as int);
                        assert(self.table()[k2] == avant[k2]);
                        lemme_etat_en(self.table(), t, k2);
                        lemme_etat_en(avant, t, k2);
                    }
                }
            },
            None => {},
        }
    }

    /// Fin d'image : les drapeaux "vient de changer" de toutes les
    /// touches retombent.
    pub fn mise_a_jour_changement_etat(&mut self)
        requires
            old(self).bien_forme(),
        ensures
            final(self).bien_forme(),
            forall|t: u32|
                #[trigger] possede(final(self).table(), t) == possede(old(self).table(), t),
            forall|t: u32|
                possede(old(self).table(), t) ==> #[trigger] etat_en(final(self).table(), t)
                    == stabilisation(etat_en(old(self).table(), t)),
    {
        let ghost avant = self.table();
        let mut k: usize = 0;
        while k < self.touches.len()
            invariant
                k <= self.touches@.len(),
                self.touches@.len() == avant.len(),
                forall|k2: int|
                    0 <= k2 < avant.len() ==> (#[trigger] self.touches@[k2]).0 == avant[k2].0,
                forall|k2: int|
                    0 <= k2 < k ==> (#[trigger] self.touches@[k2]).1 == stabilisation(
                        avant[k2].1,
                    ),
                forall|k2: int| k <= k2 < avant.len() ==> (#[trigger] self.touches@[k2]) == avant[k2],
            decreases self.touches@.len() - k,
        {
            let (touche, etat) = self.touches[k];
            let nouveau = match etat {
                EtatTouche::Appuyee { .. } => EtatTouche::Appuyee { vient_etre_appuyee: false },
                EtatTouche::Relachee { .. } => EtatTouche::Relachee { vient_etre_relache: false },
                EtatTouche::Inconnue => EtatTouche::Inconnue,
            };
            self.touches.set(k, (touche, nouveau));
            k = k + 1;
        }
        proof {
            assert(touches_distinctes(self.table()));
            assert forall|t: u32| #[trigger] possede(self.table(), t) == possede(avant, t) by {
                if possede(avant, t) {
                    let k2 = choose|k2: int| 0 <= k2 < avant.len() && (#[trigger] avant[k2]).0 == t;
                    assert(self.table()[k2].0 == t);
                }
                if possede(self.table(), t) {
                    let k2 = choose|k2: int|
                        0 <= k2 < self.table().len() && (#[trigger] self.table()[k2]).0 == t;
                    assert(avant[k2].0 == t);
                }
            }
            assert forall|t: u32| possede(avant, t) implies #[trigger] etat_en(self.table(), t)
                == stabilisation(etat_en(avant, t)) by {
                let k2 = choose|k2: int| 0 <= k2 < avant.len() && (#[trigger] avant[k2]).0 == t;
                assert(self.table()[k2].0 == t);
                lemme_etat_en(self.table(), t, k2);
                lemme_etat_en(avant, t, k2);
            }
        }
    }
}

} // verus!

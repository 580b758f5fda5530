//! Formations: named templates of player positions.

use crate::names::FormationName;
use crate::player::{stripped, PBCPlayer, PlayerView};
use vstd::prelude::*;

verus! {

/// A named, ordered list of players lining up on the field. Formations are
/// templates: copying one into a play strips the players' routes/motions.
#[derive(Debug)]
pub struct PBCFormation {
    pub name: FormationName,
    pub players: Vec<PBCPlayer>,
}

/// The mathematical content of a formation.
#[verifier::ext_equal]
pub ghost struct FormationView {
    pub name: Seq<char>,
    pub players: Seq<PlayerView>,
}

impl View for PBCFormation {
    type V = FormationView;

    open spec fn view(&self) -> FormationView {
        FormationView { name: self.name@, players: self.players@.map_values(|p: PBCPlayer| p@) }
    }
}

impl PBCFormation {
    /// Creates an empty formation with the given name.
    pub fn new(name: &str) -> (r: Self)
        ensures
            r@ == (FormationView { name: name@, players: Seq::<PlayerView>::empty() }),
    {
        let r = PBCFormation { name: FormationName::new(name), players: Vec::new() };
        proof {
            assert(r.players@.map_values(|p: PBCPlayer| p@) =~= Seq::<PlayerView>::empty());
        }
        r
    }

    /// Creates a formation with the given players.
    pub fn with_players(name: &str, players: Vec<PBCPlayer>) -> (r: Self)
        ensures
            r@ == (FormationView {
                name: name@,
                players: players@.map_values(|p: PBCPlayer| p@),
            }),
    {
        PBCFormation { name: FormationName::new(name), players }
    }

    /// Appends a player to the formation.
    pub fn add_player(&mut self, player: PBCPlayer)
        ensures
            final(self)@ == (FormationView {
                name: old(self)@.name,
                players: old(self)@.players.push(player@),
            }),
    {
        self.players.push(player);
        proof {
            assert(self.players@.map_values(|p: PBCPlayer| p@) =~= old(self)@.players.push(
                self.players@.last()@,
            ));
        }
    }

    /// The number of players in the formation.
    pub fn player_count(&self) -> (r: usize)
        ensures
            r == self@.players.len(),
    {
        self.players.len()
    }

    /// A copy of this formation in which every player keeps role, color,
    /// position, name and number exactly, but has no route, option routes,
    /// alternative routes or motion.
    pub fn copy_without_routes(&self) -> (r: Self)
        ensures
            r@.name == self@.name,
            r@.players == self@.players.map_values(|p: PlayerView| stripped(p)),
    {
        let mut players: Vec<PBCPlayer> = Vec::new();
        let mut i: usize = 0;
        while i < self.players.len()
            invariant
                0 <= i <= self.players@.len(),
                players@.len() == i,
                forall|j: int| 0 <= j < i ==> players@[j]@ == stripped(self.players@[j]@),
            decreases self.players@.len() - i,
        {
            players.push(self.players[i].copy_stripped());
            i += 1;
        }
        let r = PBCFormation { name: self.name.clone(), players };
        proof {
            assert(r@.players =~= self@.players.map_values(|p: PlayerView| stripped(p)));
        }
        r
    }
}

impl Clone for PBCFormation {
    fn clone(&self) -> (r: Self)
        ensures
            r@ == self@,
    {
        let r = PBCFormation { name: self.name.clone(), players: self.players.clone() };
        proof {
            assert(r@.players =~= self@.players);
            assert(r@ =~= self@);
        }
        r
    }
}

impl PartialEq for PBCFormation {
    fn eq(&self, other: &Self) -> (r: bool)
        ensures
            r == (self@ == other@),
    {
        let mut players_eq = self.players.len() == other.players.len();
        proof {
            assert(self@.players.len() == self.players@.len());
            assert(other@.players.len() == other.players@.len());
        }
        let mut i: usize = 0;
        while players_eq && i < self.players.len()
            invariant
                0 <= i <= self.players@.len(),
                players_eq ==> self.players@.len() == other.players@.len(),
                players_eq ==> forall|j: int|
                    0 <= j < i ==> self.players@[j]@ == other.players@[j]@,
                !players_eq ==> self@.players != other@.players,
            decreases self.players@.len() - i,
        {
            if self.players[i] == other.players[i] {
                i += 1;
            } else {
                proof {
                    assert(self@.players[i as int] != other@.players[i as int]);
                }
                players_eq = false;
                i = self.players.len();
            }
        }
        proof {
            if players_eq {
                assert(self@.players =~= other@.players);
            }
        }
        let r = players_eq && self.name == other.name;
        proof {
            if r {
                assert(self@ =~= other@);
            }
        }
        r
    }
}

impl vstd::std_specs::cmp::PartialEqSpecImpl for PBCFormation {
    open spec fn obeys_eq_spec() -> bool {
        true
    }

    open spec fn eq_spec(&self, other: &Self) -> bool {
        self@ == other@
    }
}

} // verus!

//! Plays: a named document unit combining one owned formation instance with
//! a code name and a comment.

use crate::formation::{FormationView, PBCFormation};
use crate::names::PlayName;
use vstd::prelude::*;

verus! {

/// A play in the playbook. The play/category relation is managed by the
/// playbook, not stored here.
#[derive(Debug)]
pub struct PBCPlay {
    pub name: PlayName,
    pub code_name: String,
    pub formation: PBCFormation,
    pub comment: String,
}

/// The mathematical content of a play.
#[verifier::ext_equal]
pub ghost struct PlayView {
    pub name: Seq<char>,
    pub code_name: Seq<char>,
    pub formation: FormationView,
    pub comment: Seq<char>,
}

impl View for PBCPlay {
    type V = PlayView;

    open spec fn view(&self) -> PlayView {
        PlayView {
            name: self.name@,
            code_name: self.code_name@,
            formation: self.formation@,
            comment: self.comment@,
        }
    }
}

impl PBCPlay {
    /// Creates a play owning the given formation, with an empty comment.
    pub fn new(name: &str, code_name: &str, formation: PBCFormation) -> (r: Self)
        ensures
            r@ == (PlayView {
                name: name@,
                code_name: code_name@,
                formation: formation@,
                comment: Seq::<char>::empty(),
            }),
    {
        PBCPlay {
            name: PlayName::new(name),
            code_name: code_name.to_owned(),
            formation,
            comment: String::new(),
        }
    }

    /// Creates a play with all fields given.
    pub fn with_comment(name: &str, code_name: &str, formation: PBCFormation, comment: &str) -> (r:
        Self)
        ensures
            r@ == (PlayView {
                name: name@,
                code_name: code_name@,
                formation: formation@,
                comment: comment@,
            }),
    {
        PBCPlay {
            name: PlayName::new(name),
            code_name: code_name.to_owned(),
            formation,
            comment: comment.to_owned(),
        }
    }

    /// The number of players in this play's formation.
    pub fn player_count(&self) -> (r: usize)
        ensures
            r == self@.formation.players.len(),
    {
        self.formation.player_count()
    }
}

impl Clone for PBCPlay {
    fn clone(&self) -> (r: Self)
        ensures
            r@ == self@,
    {
        let r = PBCPlay {
            name: self.name.clone(),
            code_name: self.code_name.clone(),
            formation: self.formation.clone(),
            comment: self.comment.clone(),
        };
        proof {
            assert(r@ =~= self@);
        }
        r
    }
}

impl PartialEq for PBCPlay {
    fn eq(&self, other: &Self) -> (r: bool)
        ensures
            r == (self@ == other@),
    {
        let r = self.name == other.name && self.code_name == other.code_name && self.formation
            == other.formation && self.comment == other.comment;
        proof {
            if r {
                assert(self@ =~= other@);
            }
        }
        r
    }
}

impl vstd::std_specs::cmp::PartialEqSpecImpl for PBCPlay {
    open spec fn obeys_eq_spec() -> bool {
        true
    }

    open spec fn eq_spec(&self, other: &Self) -> bool {
        self@ == other@
    }
}

} // verus!

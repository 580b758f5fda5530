//! Routes: named, reusable movement templates a player can be assigned.

use crate::movement::PBCAbstractMovement;
use crate::path::PBCPath;
use vstd::prelude::*;

verus! {

/// A named route with a code name (for play diagrams) and a movement.
#[derive(Debug, Eq, Hash)]
pub struct PBCRoute {
    pub name: String,
    pub code_name: String,
    pub movement: PBCAbstractMovement,
}

/// The mathematical content of a route.
#[verifier::ext_equal]
pub ghost struct RouteView {
    pub name: Seq<char>,
    pub code_name: Seq<char>,
    pub paths: Seq<PBCPath>,
}

impl View for PBCRoute {
    type V = RouteView;

    open spec fn view(&self) -> RouteView {
        RouteView { name: self.name@, code_name: self.code_name@, paths: self.movement@ }
    }
}

impl PBCRoute {
    /// Creates a route from a name, a code name and its path segments.
    pub fn new(name: &str, code_name: &str, paths: Vec<PBCPath>) -> (r: Self)
        ensures
            r@ == (RouteView { name: name@, code_name: code_name@, paths: paths@ }),
    {
        PBCRoute {
            name: name.to_owned(),
            code_name: code_name.to_owned(),
            movement: PBCAbstractMovement::with_paths(paths),
        }
    }

    /// Creates an empty route with a name and a code name.
    pub fn with_name(name: &str, code_name: &str) -> (r: Self)
        ensures
            r@ == (RouteView {
                name: name@,
                code_name: code_name@,
                paths: Seq::<PBCPath>::empty(),
            }),
    {
        PBCRoute {
            name: name.to_owned(),
            code_name: code_name.to_owned(),
            movement: PBCAbstractMovement::new(),
        }
    }

    /// Appends a path segment to this route.
    pub fn add_path(&mut self, path: PBCPath)
        ensures
            final(self)@ == (RouteView { paths: old(self)@.paths.push(path), ..old(self)@ }),
    {
        self.movement.add_path(path);
    }

    /// The path segments of this route.
    pub fn paths(&self) -> (r: &Vec<PBCPath>)
        ensures
            r@ == self@.paths,
    {
        &self.movement.paths
    }
}

impl Clone for PBCRoute {
    fn clone(&self) -> (r: Self)
        ensures
            r@ == self@,
    {
        let r = PBCRoute {
            name: self.name.clone(),
            code_name: self.code_name.clone(),
            movement: self.movement.clone(),
        };
        proof {
            assert(r@ =~= self@);
        }
        r
    }
}

impl PartialEq for PBCRoute {
    fn eq(&self, other: &Self) -> (r: bool)
        ensures
            r == (self@ == other@),
    {
        let r = self.name == other.name && self.code_name == other.code_name && self.movement
            == other.movement;
        proof {
            if r {
                assert(self@ =~= other@);
            }
        }
        r
    }
}

impl vstd::std_specs::cmp::PartialEqSpecImpl for PBCRoute {
    open spec fn obeys_eq_spec() -> bool {
        true
    }

    open spec fn eq_spec(&self, other: &Self) -> bool {
        self@ == other@
    }
}

} // verus!

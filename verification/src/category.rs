//! Categories: tags used to group plays. The play/category relation itself
//! lives in the playbook, not here.

use crate::names::CategoryName;
use vstd::prelude::*;

verus! {

/// A category for organizing plays.
#[derive(Debug, Eq, Hash)]
pub struct PBCCategory {
    pub name: CategoryName,
}

impl View for PBCCategory {
    type V = Seq<char>;

    open spec fn view(&self) -> Seq<char> {
        self.name@
    }
}

impl PBCCategory {
    /// Creates a new category with the given name.
    pub fn new(name: &str) -> (r: Self)
        ensures
            r@ == name@,
    {
        PBCCategory { name: CategoryName::new(name) }
    }
}

impl Clone for PBCCategory {
    fn clone(&self) -> (r: Self)
        ensures
            r@ == self@,
    {
        PBCCategory { name: self.name.clone() }
    }
}

impl PartialEq for PBCCategory {
    fn eq(&self, other: &Self) -> (r: bool)
        ensures
            r == (self@ == other@),
    {
        self.name == other.name
    }
}

impl vstd::std_specs::cmp::PartialEqSpecImpl for PBCCategory {
    open spec fn obeys_eq_spec() -> bool {
        true
    }

    open spec fn eq_spec(&self, other: &Self) -> bool {
        self@ == other@
    }
}

} // verus!

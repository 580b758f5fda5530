//! Movements: ordered sequences of path segments, the base of both routes
//! and motions.

use crate::path::PBCPath;
use vstd::prelude::*;

verus! {

/// An ordered series of path segments.
#[derive(Debug, Eq, Hash)]
pub struct PBCAbstractMovement {
    pub paths: Vec<PBCPath>,
}

impl View for PBCAbstractMovement {
    type V = Seq<PBCPath>;

    open spec fn view(&self) -> Seq<PBCPath> {
        self.paths@
    }
}

impl PBCAbstractMovement {
    /// Creates an empty movement.
    pub fn new() -> (r: Self)
        ensures
            r@ == Seq::<PBCPath>::empty(),
    {
        PBCAbstractMovement { paths: Vec::new() }
    }

    /// Creates a movement from the given path segments.
    pub fn with_paths(paths: Vec<PBCPath>) -> (r: Self)
        ensures
            r@ == paths@,
    {
        PBCAbstractMovement { paths }
    }

    /// Appends a path segment at the end of the movement.
    pub fn add_path(&mut self, path: PBCPath)
        ensures
            final(self)@ == old(self)@.push(path),
    {
        self.paths.push(path);
    }

    /// The number of path segments.
    pub fn len(&self) -> (r: usize)
        ensures
            r == self@.len(),
    {
        self.paths.len()
    }

    /// True exactly when the movement has no path segments.
    pub fn is_empty(&self) -> (r: bool)
        ensures
            r == (self@.len() == 0),
    {
        self.paths.is_empty()
    }

    /// Removes every path segment.
    pub fn clear(&mut self)
        ensures
            final(self)@ == Seq::<PBCPath>::empty(),
    {
        self.paths.clear();
    }
}

impl Clone for PBCAbstractMovement {
    fn clone(&self) -> (r: Self)
        ensures
            r@ == self@,
    {
        let paths = self.paths.clone();
        proof {
            assert(paths@ =~= self.paths@);
        }
        PBCAbstractMovement { paths }
    }
}

impl PartialEq for PBCAbstractMovement {
    fn eq(&self, other: &Self) -> (r: bool)
        ensures
            r == (self@ == other@),
    {
        if self.paths.len() != other.paths.len() {
            return false;
        }
        let mut i: usize = 0;
        while i < self.paths.len()
            invariant
                0 <= i <= self.paths.len(),
                self.paths.len() == other.paths.len(),
                forall|j: int| 0 <= j < i ==> self.paths@[j] == other.paths@[j],
            decreases self.paths.len() - i,
        {
            if self.paths[i] != other.paths[i] {
                return false;
            }
            i += 1;
        }
        proof {
            assert(self@ =~= other@);
        }
        true
    }
}

impl vstd::std_specs::cmp::PartialEqSpecImpl for PBCAbstractMovement {
    open spec fn obeys_eq_spec() -> bool {
        true
    }

    open spec fn eq_spec(&self, other: &Self) -> bool {
        self@ == other@
    }
}

impl Default for PBCAbstractMovement {
    /// The default movement is empty.
    fn default() -> (r: Self)
        ensures
            r@ == Seq::<PBCPath>::empty(),
    {
        PBCAbstractMovement { paths: Vec::new() }
    }
}

} // verus!

//! The playbook: the single source of truth for persisted entities. It owns
//! the four keyed entity stores (formations, routes, categories, plays) and
//! the play/category relation, and maintains referential integrity: the
//! relation never mentions a play or category that is not stored.

use crate::category::PBCCategory;
use crate::default_playbook::{
    create_default_formation, create_default_routes, default_formation_size, default_route_name,
    default_route_names,
};
use crate::error::PbcError;
use crate::formation::{FormationView, PBCFormation};
use crate::names::{CategoryName, FormationName, PlayName, RouteName};
use crate::play::{PBCPlay, PlayView};
use crate::relation::PairTable;
use crate::route::{PBCRoute, RouteView};
use crate::store::{Named, Store};
use vstd::prelude::*;

verus! {

impl Named for PBCFormation {
    open spec fn key(&self) -> Seq<char> {
        self.name@
    }

    fn key_ref(&self) -> (r: &String)
        ensures
            r@ == self.key(),
    {
        self.name.as_string()
    }
}

impl Named for PBCRoute {
    open spec fn key(&self) -> Seq<char> {
        self.name@
    }

    fn key_ref(&self) -> (r: &String)
        ensures
            r@ == self.key(),
    {
        &self.name
    }
}

impl Named for PBCCategory {
    open spec fn key(&self) -> Seq<char> {
        self.name@
    }

    fn key_ref(&self) -> (r: &String)
        ensures
            r@ == self.key(),
    {
        self.name.as_string()
    }
}

impl Named for PBCPlay {
    open spec fn key(&self) -> Seq<char> {
        self.name@
    }

    fn key_ref(&self) -> (r: &String)
        ensures
            r@ == self.key(),
    {
        self.name.as_string()
    }
}

/// The mathematical content of a playbook: the document name and player
/// count, one map per entity kind, and the play/category relation as a set
/// of (play name, category name) pairs.
#[verifier::ext_equal]
pub ghost struct PlaybookView {
    pub name: Seq<char>,
    pub player_number: u32,
    pub built_with_pbc_version: Seq<char>,
    pub formations: Map<Seq<char>, FormationView>,
    pub routes: Map<Seq<char>, RouteView>,
    pub categories: Map<Seq<char>, Seq<char>>,
    pub plays: Map<Seq<char>, PlayView>,
    pub rel: Set<(Seq<char>, Seq<char>)>,
}

/// The playbook.
pub struct PBCPlaybook {
    /// Version of the library that created this playbook.
    pub built_with_pbc_version: String,
    /// Name of the playbook document.
    pub name: String,
    /// Number of players on the field (e.g. 5, 7, 11).
    pub player_number: u32,
    formations: Store<PBCFormation>,
    routes: Store<PBCRoute>,
    categories: Store<PBCCategory>,
    plays: Store<PBCPlay>,
    play_categories: PairTable,
}

/// The version written into playbooks this library creates.
pub const PBC_VERSION: &'static str = "0.1.0";

impl View for PBCPlaybook {
    type V = PlaybookView;

    closed spec fn view(&self) -> PlaybookView {
        PlaybookView {
            name: self.name@,
            player_number: self.player_number,
            built_with_pbc_version: self.built_with_pbc_version@,
            formations: self.formations@,
            routes: self.routes@,
            categories: self.categories@,
            plays: self.plays@,
            rel: self.play_categories@,
        }
    }
}

impl PBCPlaybook {
    /// Well-formedness: the stores hold unique keys, the relation records
    /// each pair once, and every recorded pair references a stored play and
    /// a stored category.
    pub closed spec fn wf(self) -> bool {
        &&& self.formations.wf()
        &&& self.routes.wf()
        &&& self.categories.wf()
        &&& self.plays.wf()
        &&& self.play_categories.wf()
        &&& forall|pr: (Seq<char>, Seq<char>)|
            #[trigger] self.play_categories@.contains(pr) ==> self.plays@.dom().contains(pr.0)
                && self.categories@.dom().contains(pr.1)
    }

    /// Seeds the built-in routes and the built-in formation, inserting only
    /// under names that are still free: no user entity is ever overwritten.
    fn populate_defaults(&mut self)
        requires
            old(self).wf(),
        ensures
            final(self).wf(),
            final(self)@.routes.dom() == old(self)@.routes.dom() + default_route_names(),
            forall|k: Seq<char>|
                old(self)@.routes.dom().contains(k) ==> final(self)@.routes[k] == old(self)@.routes[k],
            forall|k: Seq<char>|
                final(self)@.routes.dom().contains(k) && !old(self)@.routes.dom().contains(k)
                    ==> (#[trigger] final(self)@.routes[k]).name == k && final(self)@.routes[k].paths.len() == 2,
            final(self)@.formations.dom() == old(self)@.formations.dom().insert("Spread Right"@),
            forall|k: Seq<char>|
                old(self)@.formations.dom().contains(k) ==> final(self)@.formations[k] == old(self)@.formations[k],
            !old(self)@.formations.dom().contains("Spread Right"@) ==> final(self)@.formations["Spread Right"@].name == "Spread Right"@ && final(self)@.formations["Spread Right"@].players.len() == default_formation_size(
                old(self)@.player_number,
            ),
            final(self)@ == (PlaybookView {
                routes: final(self)@.routes,
                formations: final(self)@.formations,
                ..old(self)@
            }),
    {
        let defaults = create_default_routes();
        let ghost d0 = self.routes@;
        let mut i: usize = 0;
        while i < defaults.len()
            invariant
                0 <= i <= defaults@.len(),
                defaults@.len() == 14,
                forall|j: int|
                    0 <= j < defaults@.len() ==> (#[trigger] defaults@[j]@).name
                        == default_route_name(j) && defaults@[j]@.paths.len() == 2,
                self.routes.wf(),
                self.routes@.dom() == d0.dom() + Set::new(
                    |k: Seq<char>| exists|j: int| 0 <= j < i && default_route_name(j) == k,
                ),
                forall|k: Seq<char>| d0.dom().contains(k) ==> self.routes@[k] == d0[k],
                forall|k: Seq<char>|
                    self.routes@.dom().contains(k) && !d0.dom().contains(k) ==> (
                    #[trigger] self.routes@[k]).name == k && self.routes@[k].paths.len() == 2,
                *self == (PBCPlaybook { routes: self.routes, ..*old(self) }),
            decreases defaults@.len() - i,
        {
            let route = defaults[i].clone();
            proof {
                assert(route.key() == default_route_name(i as int));
                assert(route@.name == route.key() && route@.paths.len() == 2);
            }
            let _ = self.routes.insert_new(route);
            proof {
                assert(self.routes@.dom() =~= d0.dom() + Set::new(
                    |k: Seq<char>| exists|j: int| 0 <= j < i + 1 && default_route_name(j) == k,
                ));
            }
            i += 1;
        }
        proof {
            assert(self.routes@.dom() =~= d0.dom() + default_route_names());
        }
        let formation = create_default_formation(self.player_number);
        let _ = self.formations.insert_new(formation);
        proof {
            assert(self.formations@.dom() =~= old(self)@.formations.dom().insert(
                "Spread Right"@,
            ));
        }
    }

    /// Creates a playbook with the given document name and player count,
    /// seeded with the built-in routes and the built-in formation, and with
    /// no plays, categories or associations.
    pub fn new(name: &str, player_number: u32) -> (r: Self)
        ensures
            r.wf(),
            r@.name == name@,
            r@.player_number == player_number,
            r@.plays == Map::<Seq<char>, PlayView>::empty(),
            r@.categories == Map::<Seq<char>, Seq<char>>::empty(),
            r@.rel == Set::<(Seq<char>, Seq<char>)>::empty(),
            r@.routes.dom() == default_route_names(),
            forall|k: Seq<char>|
                r@.routes.dom().contains(k) ==> (#[trigger] r@.routes[k]).name == k
                    && r@.routes[k].paths.len() == 2,
            r@.formations.dom() == Set::<Seq<char>>::empty().insert("Spread Right"@),
            r@.formations["Spread Right"@].name == "Spread Right"@,
            r@.formations["Spread Right"@].players.len() == default_formation_size(player_number),
    {
        let mut pb = PBCPlaybook {
            built_with_pbc_version: PBC_VERSION.to_owned(),
            name: name.to_owned(),
            player_number,
            formations: Store::new(),
            routes: Store::new(),
            categories: Store::new(),
            plays: Store::new(),
            play_categories: PairTable::new(),
        };
        pb.populate_defaults();
        proof {
            assert(pb@.routes.dom() =~= default_route_names());
            assert(pb@.formations.dom() =~= Set::<Seq<char>>::empty().insert("Spread Right"@));
        }
        pb
    }

    /// Resets the playbook to a freshly seeded document: everything stored
    /// is dropped, the name and player count are replaced, and the built-in
    /// routes and formation are seeded again.
    pub fn reset(&mut self, name: &str, player_number: u32)
        ensures
            final(self).wf(),
            final(self)@.name == name@,
            final(self)@.player_number == player_number,
            final(self)@.plays == Map::<Seq<char>, PlayView>::empty(),
            final(self)@.categories == Map::<Seq<char>, Seq<char>>::empty(),
            final(self)@.rel == Set::<(Seq<char>, Seq<char>)>::empty(),
            final(self)@.routes.dom() == default_route_names(),
            forall|k: Seq<char>|
                final(self)@.routes.dom().contains(k) ==> (#[trigger] final(self)@.routes[k]).name
                    == k && final(self)@.routes[k].paths.len() == 2,
            final(self)@.formations.dom() == Set::<Seq<char>>::empty().insert("Spread Right"@),
            final(self)@.formations["Spread Right"@].name == "Spread Right"@,
            final(self)@.formations["Spread Right"@].players.len() == default_formation_size(
                player_number,
            ),
    {
        let fresh = PBCPlaybook::new(name, player_number);
        *self = fresh;
    }

    /// Seeds the built-in formation again (useful after every formation was
    /// deleted); a formation already stored under the built-in name is kept.
    pub fn reload_default_formations(&mut self)
        requires
            old(self).wf(),
        ensures
            final(self).wf(),
            final(self)@.formations.dom() == old(self)@.formations.dom().insert("Spread Right"@),
            forall|k: Seq<char>|
                old(self)@.formations.dom().contains(k) ==> final(self)@.formations[k] == old(self)@.formations[k],
            !old(self)@.formations.dom().contains("Spread Right"@) ==> final(self)@.formations["Spread Right"@].players.len() == default_formation_size(
                old(self)@.player_number,
            ),
            final(self)@ == (PlaybookView { formations: final(self)@.formations, ..old(self)@ }),
    {
        let formation = create_default_formation(self.player_number);
        let _ = self.formations.insert_new(formation);
        proof {
            assert(self.formations@.dom() =~= old(self)@.formations.dom().insert(
                "Spread Right"@,
            ));
        }
    }

    // ========== Formation management ==========

    /// Adds a formation under its name. With `overwrite` the entry is
    /// replaced unconditionally and `Ok(true)` is returned; without it the
    /// formation is only inserted when the name is free, and `Ok(false)`
    /// reports the soft failure, with the playbook unchanged.
    pub fn add_formation(&mut self, formation: PBCFormation, overwrite: bool) -> (r: Result<
        bool,
        PbcError,
    >)
        requires
            old(self).wf(),
        ensures
            final(self).wf(),
            overwrite || !old(self)@.formations.dom().contains(formation@.name) ==> r
                == Result::<bool, PbcError>::Ok(true) && final(self)@ == (PlaybookView {
                formations: old(self)@.formations.insert(formation@.name, formation@),
                ..old(self)@
            }),
            !overwrite && old(self)@.formations.dom().contains(formation@.name) ==> r
                == Result::<bool, PbcError>::Ok(false) && final(self)@ == old(self)@,
    {
        if overwrite {
            self.formations.insert(formation);
            Ok(true)
        } else {
            let added = self.formations.insert_new(formation);
            Ok(added)
        }
    }

    /// Removes the formation stored under the given name; an absent name is
    /// a no-op.
    pub fn delete_formation(&mut self, name: &FormationName) -> (r: Result<(), PbcError>)
        requires
            old(self).wf(),
        ensures
            final(self).wf(),
            r is Ok,
            final(self)@ == (PlaybookView {
                formations: old(self)@.formations.remove(name@),
                ..old(self)@
            }),
    {
        self.formations.remove(name.as_string());
        Ok(())
    }

    /// Whether a formation is stored under the given name.
    pub fn has_formation(&self, name: &FormationName) -> (r: bool)
        ensures
            r == self@.formations.dom().contains(name@),
    {
        self.formations.contains(name.as_string())
    }

    /// The formation stored under the given name, as an owned copy, or
    /// `NotFound`.
    pub fn get_formation(&self, name: &FormationName) -> (r: Result<PBCFormation, PbcError>)
        requires
            self.wf(),
        ensures
            self@.formations.dom().contains(name@) ==> (r matches Ok(f) && f@
                == self@.formations[name@]),
            !self@.formations.dom().contains(name@) ==> (r matches Err(e) && e is NotFound),
    {
        match self.formations.get(name.as_string()) {
            Some(f) => Ok(f.clone()),
            None => Err(PbcError::NotFound(name.as_string().clone())),
        }
    }

    /// Owned copies of all stored formations, in no meaningful order, one
    /// per stored name.
    pub fn formations(&self) -> (r: Vec<PBCFormation>)
        requires
            self.wf(),
        ensures
            forall|i: int|
                0 <= i < r@.len() ==> self@.formations.dom().contains((#[trigger] r@[i]@).name)
                    && r@[i]@ == self@.formations[r@[i]@.name],
            forall|k: Seq<char>|
                #[trigger] self@.formations.dom().contains(k) ==> exists|i: int|
                    0 <= i < r@.len() && r@[i]@.name == k,
            forall|i: int, j: int| 0 <= i < j < r@.len() ==> r@[i]@.name != r@[j]@.name,
    {
        proof {
            self.formations.lemma_seq_map();
        }
        let mut out: Vec<PBCFormation> = Vec::new();
        let mut i: usize = 0;
        while i < self.formations.len()
            invariant
                self.wf(),
                0 <= i <= self.formations.seq().len(),
                out@.len() == i,
                forall|j: int|
                    0 <= j < i ==> (#[trigger] out@[j]@) == self.formations.seq()[j]@
                        && out@[j]@.name == self.formations.seq()[j].key(),
            decreases self.formations.seq().len() - i,
        {
            out.push(self.formations.at(i).clone());
            i += 1;
        }
        proof {
            self.formations.lemma_seq_map();
            assert forall|k: Seq<char>| #[trigger]
                self@.formations.dom().contains(k) implies exists|i: int|
                0 <= i < out@.len() && out@[i]@.name == k by {
                let j = choose|j: int|
                    0 <= j < self.formations.seq().len() && self.formations.seq()[j].key() == k;
                assert(out@[j]@.name == k);
            }
        }
        out
    }

    /// The names of all stored formations, in no meaningful order, each
    /// exactly once.
    pub fn formation_names(&self) -> (r: Vec<FormationName>)
        requires
            self.wf(),
        ensures
            forall|i: int| 0 <= i < r@.len() ==> self@.formations.dom().contains(#[trigger] r@[i]@),
            forall|k: Seq<char>|
                #[trigger] self@.formations.dom().contains(k) ==> exists|i: int|
                    0 <= i < r@.len() && r@[i]@ == k,
            forall|i: int, j: int| 0 <= i < j < r@.len() ==> r@[i]@ != r@[j]@,
    {
        proof {
            self.formations.lemma_seq_map();
        }
        let mut out: Vec<FormationName> = Vec::new();
        let mut i: usize = 0;
        while i < self.formations.len()
            invariant
                self.wf(),
                0 <= i <= self.formations.seq().len(),
                out@.len() == i,
                forall|j: int| 0 <= j < i ==> (#[trigger] out@[j]@) == self.formations.seq()[j].key(),
            decreases self.formations.seq().len() - i,
        {
            out.push(self.formations.at(i).name.clone());
            i += 1;
        }
        proof {
            self.formations.lemma_seq_map();
            assert forall|k: Seq<char>| #[trigger]
                self@.formations.dom().contains(k) implies exists|i: int|
                0 <= i < out@.len() && out@[i]@ == k by {
                let j = choose|j: int|
                    0 <= j < self.formations.seq().len() && self.formations.seq()[j].key() == k;
                assert(out@[j]@ == k);
            }
        }
        out
    }

    // ========== Route management ==========

    /// Adds a route under its name. With `overwrite` the entry is replaced
    /// unconditionally; without it the route is only inserted when the name
    /// is free, and `Ok(false)` reports the soft failure.
    pub fn add_route(&mut self, route: PBCRoute, overwrite: bool) -> (r: Result<bool, PbcError>)
        requires
            old(self).wf(),
        ensures
            final(self).wf(),
            overwrite || !old(self)@.routes.dom().contains(route@.name) ==> r
                == Result::<bool, PbcError>::Ok(true) && final(self)@ == (PlaybookView {
                routes: old(self)@.routes.insert(route@.name, route@),
                ..old(self)@
            }),
            !overwrite && old(self)@.routes.dom().contains(route@.name) ==> r
                == Result::<bool, PbcError>::Ok(false) && final(self)@ == old(self)@,
    {
        if overwrite {
            self.routes.insert(route);
            Ok(true)
        } else {
            let added = self.routes.insert_new(route);
            Ok(added)
        }
    }

    /// Removes the route stored under the given name; an absent name is a
    /// no-op.
    pub fn delete_route(&mut self, name: &RouteName) -> (r: Result<(), PbcError>)
        requires
            old(self).wf(),
        ensures
            final(self).wf(),
            r is Ok,
            final(self)@ == (PlaybookView { routes: old(self)@.routes.remove(name@), ..old(self)@ }),
    {
        self.routes.remove(name.as_string());
        Ok(())
    }

    /// The route stored under the given name, or `NotFound`.
    pub fn get_route(&self, name: &RouteName) -> (r: Result<&PBCRoute, PbcError>)
        requires
            self.wf(),
        ensures
            self@.routes.dom().contains(name@) ==> (r matches Ok(t) && t@ == self@.routes[name@]),
            !self@.routes.dom().contains(name@) ==> (r matches Err(e) && e is NotFound),
    {
        match self.routes.get(name.as_string()) {
            Some(t) => Ok(t),
            None => Err(PbcError::NotFound(name.as_string().clone())),
        }
    }

    /// Owned copies of all stored routes, in no meaningful order, one per
    /// stored name.
    pub fn routes(&self) -> (r: Vec<PBCRoute>)
        requires
            self.wf(),
        ensures
            forall|i: int|
                0 <= i < r@.len() ==> self@.routes.dom().contains((#[trigger] r@[i]@).name)
                    && r@[i]@ == self@.routes[r@[i]@.name],
            forall|k: Seq<char>|
                #[trigger] self@.routes.dom().contains(k) ==> exists|i: int|
                    0 <= i < r@.len() && r@[i]@.name == k,
            forall|i: int, j: int| 0 <= i < j < r@.len() ==> r@[i]@.name != r@[j]@.name,
    {
        proof {
            self.routes.lemma_seq_map();
        }
        let mut out: Vec<PBCRoute> = Vec::new();
        let mut i: usize = 0;
        while i < self.routes.len()
            invariant
                self.wf(),
                0 <= i <= self.routes.seq().len(),
                out@.len() == i,
                forall|j: int|
                    0 <= j < i ==> (#[trigger] out@[j]@) == self.routes.seq()[j]@ && out@[j]@.name
                        == self.routes.seq()[j].key(),
            decreases self.routes.seq().len() - i,
        {
            out.push(self.routes.at(i).clone());
            i += 1;
        }
        proof {
            self.routes.lemma_seq_map();
            assert forall|k: Seq<char>| #[trigger]
                self@.routes.dom().contains(k) implies exists|i: int|
                0 <= i < out@.len() && out@[i]@.name == k by {
                let j = choose|j: int|
                    0 <= j < self.routes.seq().len() && self.routes.seq()[j].key() == k;
                assert(out@[j]@.name == k);
            }
        }
        out
    }

    /// The names of all stored routes, in no meaningful order, each exactly
    /// once.
    pub fn route_names(&self) -> (r: Vec<RouteName>)
        requires
            self.wf(),
        ensures
            forall|i: int| 0 <= i < r@.len() ==> self@.routes.dom().contains(#[trigger] r@[i]@),
            forall|k: Seq<char>|
                #[trigger] self@.routes.dom().contains(k) ==> exists|i: int|
                    0 <= i < r@.len() && r@[i]@ == k,
            forall|i: int, j: int| 0 <= i < j < r@.len() ==> r@[i]@ != r@[j]@,
    {
        proof {
            self.routes.lemma_seq_map();
        }
        let mut out: Vec<RouteName> = Vec::new();
        let mut i: usize = 0;
        while i < self.routes.len()
            invariant
                self.wf(),
                0 <= i <= self.routes.seq().len(),
                out@.len() == i,
                forall|j: int| 0 <= j < i ==> (#[trigger] out@[j]@) == self.routes.seq()[j].key(),
            decreases self.routes.seq().len() - i,
        {
            out.push(RouteName::from(self.routes.at(i).name.clone()));
            i += 1;
        }
        proof {
            self.routes.lemma_seq_map();
            assert forall|k: Seq<char>| #[trigger]
                self@.routes.dom().contains(k) implies exists|i: int|
                0 <= i < out@.len() && out@[i]@ == k by {
                let j = choose|j: int|
                    0 <= j < self.routes.seq().len() && self.routes.seq()[j].key() == k;
                assert(out@[j]@ == k);
            }
        }
        out
    }

    // ========== Category management ==========

    /// Adds a category under its name. With `overwrite` the entry is
    /// replaced unconditionally; without it the category is only inserted
    /// when the name is free, and `Ok(false)` reports the soft failure.
    pub fn add_category(&mut self, category: PBCCategory, overwrite: bool) -> (r: Result<
        bool,
        PbcError,
    >)
        requires
            old(self).wf(),
        ensures
            final(self).wf(),
            overwrite || !old(self)@.categories.dom().contains(category@) ==> r
                == Result::<bool, PbcError>::Ok(true) && final(self)@ == (PlaybookView {
                categories: old(self)@.categories.insert(category@, category@),
                ..old(self)@
            }),
            !overwrite && old(self)@.categories.dom().contains(category@) ==> r
                == Result::<bool, PbcError>::Ok(false) && final(self)@ == old(self)@,
    {
        if overwrite {
            self.categories.insert(category);
            Ok(true)
        } else {
            let added = self.categories.insert_new(category);
            Ok(added)
        }
    }

    /// Removes the category stored under the given name, and every
    /// association that mentions it; an absent name only clears (vacuously)
    /// the relation.
    pub fn delete_category(&mut self, name: &CategoryName) -> (r: Result<(), PbcError>)
        requires
            old(self).wf(),
        ensures
            final(self).wf(),
            r is Ok,
            final(self)@ == (PlaybookView {
                categories: old(self)@.categories.remove(name@),
                rel: old(self)@.rel.filter((|pr: (Seq<char>, Seq<char>)| pr.1 != name@)),
                ..old(self)@
            }),
    {
        self.play_categories.remove_category(name);
        self.categories.remove(name.as_string());
        proof {
            assert forall|pr: (Seq<char>, Seq<char>)| #[trigger]
                self.play_categories@.contains(pr) implies self.plays@.dom().contains(pr.0)
                && self.categories@.dom().contains(pr.1) by {
                assert(old(self).play_categories@.contains(pr));
                assert(pr.1 != name@);
            }
        }
        Ok(())
    }

    /// The category stored under the given name, or `NotFound`.
    pub fn get_category(&self, name: &CategoryName) -> (r: Result<&PBCCategory, PbcError>)
        requires
            self.wf(),
        ensures
            self@.categories.dom().contains(name@) ==> (r matches Ok(c) && c@ == name@),
            !self@.categories.dom().contains(name@) ==> (r matches Err(e) && e is NotFound),
    {
        match self.categories.get(name.as_string()) {
            Some(c) => Ok(c),
            None => Err(PbcError::NotFound(name.as_string().clone())),
        }
    }

    /// Owned copies of all stored categories, in no meaningful order, one
    /// per stored name.
    pub fn categories(&self) -> (r: Vec<PBCCategory>)
        requires
            self.wf(),
        ensures
            forall|i: int| 0 <= i < r@.len() ==> self@.categories.dom().contains(#[trigger] r@[i]@),
            forall|k: Seq<char>|
                #[trigger] self@.categories.dom().contains(k) ==> exists|i: int|
                    0 <= i < r@.len() && r@[i]@ == k,
            forall|i: int, j: int| 0 <= i < j < r@.len() ==> r@[i]@ != r@[j]@,
    {
        proof {
            self.categories.lemma_seq_map();
        }
        let mut out: Vec<PBCCategory> = Vec::new();
        let mut i: usize = 0;
        while i < self.categories.len()
            invariant
                self.wf(),
                0 <= i <= self.categories.seq().len(),
                out@.len() == i,
                forall|j: int| 0 <= j < i ==> (#[trigger] out@[j]@) == self.categories.seq()[j].key(),
            decreases self.categories.seq().len() - i,
        {
            out.push(self.categories.at(i).clone());
            i += 1;
        }
        proof {
            self.categories.lemma_seq_map();
            assert forall|k: Seq<char>| #[trigger]
                self@.categories.dom().contains(k) implies exists|i: int|
                0 <= i < out@.len() && out@[i]@ == k by {
                let j = choose|j: int|
                    0 <= j < self.categories.seq().len() && self.categories.seq()[j].key() == k;
                assert(out@[j]@ == k);
            }
        }
        out
    }

    /// The names of all stored categories, in no meaningful order, each
    /// exactly once.
    pub fn category_names(&self) -> (r: Vec<CategoryName>)
        requires
            self.wf(),
        ensures
            forall|i: int| 0 <= i < r@.len() ==> self@.categories.dom().contains(#[trigger] r@[i]@),
            forall|k: Seq<char>|
                #[trigger] self@.categories.dom().contains(k) ==> exists|i: int|
                    0 <= i < r@.len() && r@[i]@ == k,
            forall|i: int, j: int| 0 <= i < j < r@.len() ==> r@[i]@ != r@[j]@,
    {
        proof {
            self.categories.lemma_seq_map();
        }
        let mut out: Vec<CategoryName> = Vec::new();
        let mut i: usize = 0;
        while i < self.categories.len()
            invariant
                self.wf(),
                0 <= i <= self.categories.seq().len(),
                out@.len() == i,
                forall|j: int| 0 <= j < i ==> (#[trigger] out@[j]@) == self.categories.seq()[j].key(),
            decreases self.categories.seq().len() - i,
        {
            out.push(self.categories.at(i).name.clone());
            i += 1;
        }
        proof {
            self.categories.lemma_seq_map();
            assert forall|k: Seq<char>| #[trigger]
                self@.categories.dom().contains(k) implies exists|i: int|
                0 <= i < out@.len() && out@[i]@ == k by {
                let j = choose|j: int|
                    0 <= j < self.categories.seq().len() && self.categories.seq()[j].key() == k;
                assert(out@[j]@ == k);
            }
        }
        out
    }

    // ========== Play management ==========

    /// Adds a play under its name. With `overwrite` the entry is replaced
    /// unconditionally and any existing associations of that name are kept
    /// ("update in place"); without it the play is only inserted when the
    /// name is free — a brand-new play starts with no associations — and
    /// `Ok(false)` reports the soft failure.
    pub fn add_play(&mut self, play: PBCPlay, overwrite: bool) -> (r: Result<bool, PbcError>)
        requires
            old(self).wf(),
        ensures
            final(self).wf(),
            overwrite || !old(self)@.plays.dom().contains(play@.name) ==> r
                == Result::<bool, PbcError>::Ok(true) && final(self)@ == (PlaybookView {
                plays: old(self)@.plays.insert(play@.name, play@),
                ..old(self)@
            }),
            !overwrite && old(self)@.plays.dom().contains(play@.name) ==> r
                == Result::<bool, PbcError>::Ok(false) && final(self)@ == old(self)@,
    {
        if overwrite {
            self.plays.insert(play);
            Ok(true)
        } else {
            let added = self.plays.insert_new(play);
            Ok(added)
        }
    }

    /// Removes the play stored under the given name, and every association
    /// that mentions it; an absent name only clears (vacuously) the
    /// relation.
    pub fn delete_play(&mut self, name: &PlayName) -> (r: Result<(), PbcError>)
        requires
            old(self).wf(),
        ensures
            final(self).wf(),
            r is Ok,
            final(self)@ == (PlaybookView {
                plays: old(self)@.plays.remove(name@),
                rel: old(self)@.rel.filter((|pr: (Seq<char>, Seq<char>)| pr.0 != name@)),
                ..old(self)@
            }),
    {
        self.play_categories.remove_play(name);
        self.plays.remove(name.as_string());
        proof {
            assert forall|pr: (Seq<char>, Seq<char>)| #[trigger]
                self.play_categories@.contains(pr) implies self.plays@.dom().contains(pr.0)
                && self.categories@.dom().contains(pr.1) by {
                assert(old(self).play_categories@.contains(pr));
                assert(pr.0 != name@);
            }
        }
        Ok(())
    }

    /// The play stored under the given name, or `NotFound`.
    pub fn get_play(&self, name: &PlayName) -> (r: Result<&PBCPlay, PbcError>)
        requires
            self.wf(),
        ensures
            self@.plays.dom().contains(name@) ==> (r matches Ok(p) && p@ == self@.plays[name@]),
            !self@.plays.dom().contains(name@) ==> (r matches Err(e) && e is NotFound),
    {
        match self.plays.get(name.as_string()) {
            Some(p) => Ok(p),
            None => Err(PbcError::NotFound(name.as_string().clone())),
        }
    }

    /// Owned copies of all stored plays, in no meaningful order, one per
    /// stored name.
    pub fn plays(&self) -> (r: Vec<PBCPlay>)
        requires
            self.wf(),
        ensures
            forall|i: int|
                0 <= i < r@.len() ==> self@.plays.dom().contains((#[trigger] r@[i]@).name)
                    && r@[i]@ == self@.plays[r@[i]@.name],
            forall|k: Seq<char>|
                #[trigger] self@.plays.dom().contains(k) ==> exists|i: int|
                    0 <= i < r@.len() && r@[i]@.name == k,
            forall|i: int, j: int| 0 <= i < j < r@.len() ==> r@[i]@.name != r@[j]@.name,
    {
        proof {
            self.plays.lemma_seq_map();
        }
        let mut out: Vec<PBCPlay> = Vec::new();
        let mut i: usize = 0;
        while i < self.plays.len()
            invariant
                self.wf(),
                0 <= i <= self.plays.seq().len(),
                out@.len() == i,
                forall|j: int|
                    0 <= j < i ==> (#[trigger] out@[j]@) == self.plays.seq()[j]@ && out@[j]@.name
                        == self.plays.seq()[j].key(),
            decreases self.plays.seq().len() - i,
        {
            out.push(self.plays.at(i).clone());
            i += 1;
        }
        proof {
            self.plays.lemma_seq_map();
            assert forall|k: Seq<char>| #[trigger]
                self@.plays.dom().contains(k) implies exists|i: int|
                0 <= i < out@.len() && out@[i]@.name == k by {
                let j = choose|j: int|
                    0 <= j < self.plays.seq().len() && self.plays.seq()[j].key() == k;
                assert(out@[j]@.name == k);
            }
        }
        out
    }

    /// The names of all stored plays, in no meaningful order, each exactly
    /// once.
    pub fn play_names(&self) -> (r: Vec<PlayName>)
        requires
            self.wf(),
        ensures
            forall|i: int| 0 <= i < r@.len() ==> self@.plays.dom().contains(#[trigger] r@[i]@),
            forall|k: Seq<char>|
                #[trigger] self@.plays.dom().contains(k) ==> exists|i: int|
                    0 <= i < r@.len() && r@[i]@ == k,
            forall|i: int, j: int| 0 <= i < j < r@.len() ==> r@[i]@ != r@[j]@,
    {
        proof {
            self.plays.lemma_seq_map();
        }
        let mut out: Vec<PlayName> = Vec::new();
        let mut i: usize = 0;
        while i < self.plays.len()
            invariant
                self.wf(),
                0 <= i <= self.plays.seq().len(),
                out@.len() == i,
                forall|j: int| 0 <= j < i ==> (#[trigger] out@[j]@) == self.plays.seq()[j].key(),
            decreases self.plays.seq().len() - i,
        {
            out.push(self.plays.at(i).name.clone());
            i += 1;
        }
        proof {
            self.plays.lemma_seq_map();
            assert forall|k: Seq<char>| #[trigger]
                self@.plays.dom().contains(k) implies exists|i: int|
                0 <= i < out@.len() && out@[i]@ == k by {
                let j = choose|j: int|
                    0 <= j < self.plays.seq().len() && self.plays.seq()[j].key() == k;
                assert(out@[j]@ == k);
            }
        }
        out
    }

    // ========== Relation management ==========

    /// Associates a play with a category. Fails with `NotFound`, leaving
    /// the playbook unchanged, when either name is absent from its store;
    /// otherwise records the pair, idempotently.
    pub fn add_play_to_category(
        &mut self,
        play_name: &PlayName,
        category_name: &CategoryName,
    ) -> (r: Result<(), PbcError>)
        requires
            old(self).wf(),
        ensures
            final(self).wf(),
            old(self)@.plays.dom().contains(play_name@) && old(self)@.categories.dom().contains(
                category_name@,
            ) ==> r is Ok && final(self)@ == (PlaybookView {
                rel: old(self)@.rel.insert((play_name@, category_name@)),
                ..old(self)@
            }),
            !(old(self)@.plays.dom().contains(play_name@)
                && old(self)@.categories.dom().contains(category_name@)) ==> ((
            r matches Err(e) && e is NotFound) && final(self)@ == old(self)@),
    {
        if !self.plays.contains(play_name.as_string()) {
            return Err(PbcError::NotFound(play_name.as_string().clone()));
        }
        if !self.categories.contains(category_name.as_string()) {
            return Err(PbcError::NotFound(category_name.as_string().clone()));
        }
        self.play_categories.insert_pair(play_name, category_name);
        proof {
            assert forall|pr: (Seq<char>, Seq<char>)| #[trigger]
                self.play_categories@.contains(pr) implies self.plays@.dom().contains(pr.0)
                && self.categories@.dom().contains(pr.1) by {
                if pr != (play_name@, category_name@) {
                    assert(old(self).play_categories@.contains(pr));
                }
            }
        }
        Ok(())
    }

    /// Removes one play/category association; an absent pair is a no-op.
    pub fn remove_play_from_category(
        &mut self,
        play_name: &PlayName,
        category_name: &CategoryName,
    ) -> (r: Result<(), PbcError>)
        requires
            old(self).wf(),
        ensures
            final(self).wf(),
            r is Ok,
            final(self)@ == (PlaybookView {
                rel: old(self)@.rel.remove((play_name@, category_name@)),
                ..old(self)@
            }),
    {
        self.play_categories.remove_pair(play_name, category_name);
        Ok(())
    }

    /// The categories a play is associated with, each exactly once, in no
    /// meaningful order; empty for an unknown play.
    pub fn get_play_categories(&self, play_name: &PlayName) -> (r: Vec<CategoryName>)
        requires
            self.wf(),
        ensures
            forall|m: int| 0 <= m < r@.len() ==> self@.rel.contains((play_name@, #[trigger] r@[m]@)),
            forall|c: Seq<char>|
                #[trigger] self@.rel.contains((play_name@, c)) ==> exists|m: int|
                    0 <= m < r@.len() && r@[m]@ == c,
            forall|m: int, n: int| 0 <= m < n < r@.len() ==> r@[m]@ != r@[n]@,
    {
        self.play_categories.categories_of(play_name)
    }

    /// The plays associated with a category, each exactly once, in no
    /// meaningful order; empty for an unknown category.
    pub fn get_category_plays(&self, category_name: &CategoryName) -> (r: Vec<PlayName>)
        requires
            self.wf(),
        ensures
            forall|m: int|
                0 <= m < r@.len() ==> self@.rel.contains((#[trigger] r@[m]@, category_name@)),
            forall|p: Seq<char>|
                #[trigger] self@.rel.contains((p, category_name@)) ==> exists|m: int|
                    0 <= m < r@.len() && r@[m]@ == p,
            forall|m: int, n: int| 0 <= m < n < r@.len() ==> r@[m]@ != r@[n]@,
    {
        self.play_categories.plays_of(category_name)
    }

    /// In a well-formed playbook every stored entity sits under its own
    /// name: the map's value at a key carries that key as its name.
    pub proof fn lemma_wf_keys(self)
        requires
            self.wf(),
        ensures
            forall|k: Seq<char>|
                #[trigger] self@.formations.dom().contains(k) ==> self@.formations[k].name == k,
            forall|k: Seq<char>|
                #[trigger] self@.routes.dom().contains(k) ==> self@.routes[k].name == k,
            forall|k: Seq<char>|
                #[trigger] self@.categories.dom().contains(k) ==> self@.categories[k] == k,
            forall|k: Seq<char>|
                #[trigger] self@.plays.dom().contains(k) ==> self@.plays[k].name == k,
    {
        self.formations.lemma_seq_map();
        self.routes.lemma_seq_map();
        self.categories.lemma_seq_map();
        self.plays.lemma_seq_map();
        assert forall|k: Seq<char>| #[trigger]
            self@.formations.dom().contains(k) implies self@.formations[k].name == k by {
            let i = choose|i: int|
                0 <= i < self.formations.seq().len() && self.formations.seq()[i].key() == k;
            assert(self@.formations[k] == self.formations.seq()[i]@);
        }
        assert forall|k: Seq<char>| #[trigger]
            self@.routes.dom().contains(k) implies self@.routes[k].name == k by {
            let i = choose|i: int|
                0 <= i < self.routes.seq().len() && self.routes.seq()[i].key() == k;
            assert(self@.routes[k] == self.routes.seq()[i]@);
        }
        assert forall|k: Seq<char>| #[trigger]
            self@.categories.dom().contains(k) implies self@.categories[k] == k by {
            let i = choose|i: int|
                0 <= i < self.categories.seq().len() && self.categories.seq()[i].key() == k;
            assert(self@.categories[k] == self.categories.seq()[i]@);
        }
        assert forall|k: Seq<char>| #[trigger]
            self@.plays.dom().contains(k) implies self@.plays[k].name == k by {
            let i = choose|i: int|
                0 <= i < self.plays.seq().len() && self.plays.seq()[i].key() == k;
            assert(self@.plays[k] == self.plays.seq()[i]@);
        }
    }

    // ========== Document name ==========

    /// The document name.
    pub fn get_name(&self) -> (r: &String)
        ensures
            r@ == self@.name,
    {
        &self.name
    }

    /// Renames the document.
    pub fn set_name(&mut self, name: String)
        requires
            old(self).wf(),
        ensures
            final(self).wf(),
            final(self)@ == (PlaybookView { name: name@, ..old(self)@ }),
    {
        self.name = name;
    }
}

impl Default for PBCPlaybook {
    /// The default playbook is a freshly seeded document named
    /// "New Playbook" for five players.
    fn default() -> (r: Self)
        ensures
            r.wf(),
            r@.name == "New Playbook"@,
            r@.player_number == 5,
            r@.plays == Map::<Seq<char>, PlayView>::empty(),
            r@.categories == Map::<Seq<char>, Seq<char>>::empty(),
            r@.rel == Set::<(Seq<char>, Seq<char>)>::empty(),
            r@.routes.dom() == default_route_names(),
            r@.formations.dom() == Set::<Seq<char>>::empty().insert("Spread Right"@),
    {
        PBCPlaybook::new("New Playbook", 5)
    }
}

/// Inserting an entity under a key makes lookups at that key find exactly
/// that entity, and leaves every other key's entry as it was. Together with
/// the `add_*` contracts this says: after an `add` succeeds, `has` is true
/// and `get` returns equal data, whether or not the name was taken before.
pub proof fn lemma_add_then_get<V>(m: Map<Seq<char>, V>, k: Seq<char>, v: V)
    ensures
        m.insert(k, v).dom().contains(k),
        m.insert(k, v)[k] == v,
        forall|k2: Seq<char>|
            k2 != k ==> (m.insert(k, v).dom().contains(k2) == m.dom().contains(k2)) && (
            m.dom().contains(k2) ==> m.insert(k, v)[k2] == m[k2]),
{
}

/// Deleting a category removes it from every play's association set: the
/// relation that `delete_category` leaves behind contains no pair that
/// mentions the deleted category.
pub proof fn lemma_delete_category_clears_associations(
    rel: Set<(Seq<char>, Seq<char>)>,
    remaining: Set<(Seq<char>, Seq<char>)>,
    category: Seq<char>,
)
    requires
        remaining == rel.filter((|pr: (Seq<char>, Seq<char>)| pr.1 != category)),
    ensures
        forall|p: Seq<char>| !(#[trigger] remaining.contains((p, category))),
{
}

/// Deleting a play removes all its category associations: the relation
/// that `delete_play` leaves behind contains no pair that mentions the
/// deleted play.
pub proof fn lemma_delete_play_clears_associations(
    rel: Set<(Seq<char>, Seq<char>)>,
    remaining: Set<(Seq<char>, Seq<char>)>,
    play: Seq<char>,
)
    requires
        remaining == rel.filter((|pr: (Seq<char>, Seq<char>)| pr.0 != play)),
    ensures
        forall|c: Seq<char>| !(#[trigger] remaining.contains((play, c))),
{
}

/// Associating the same play/category pair twice yields the same relation
/// state as associating it once.
pub proof fn lemma_associate_idempotent(
    rel: Set<(Seq<char>, Seq<char>)>,
    play: Seq<char>,
    category: Seq<char>,
)
    ensures
        rel.insert((play, category)).insert((play, category)) == rel.insert((play, category)),
{
    assert(rel.insert((play, category)).insert((play, category)) =~= rel.insert(
        (play, category),
    ));
}

} // verus!

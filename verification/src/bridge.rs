//! The host-facing API: simple transfer records and free functions over an
//! explicit controller handle. A host application owns the controller
//! (typically behind one process-wide lock) and passes it in; every
//! function is a thin, verified adapter over the controller and playbook
//! operations.

use crate::controller::PBCController;
use crate::error::PbcError;
use crate::names::{CategoryName, FormationName, PlayName, RouteName};
use vstd::prelude::*;

verus! {

/// Color transfer record.
#[derive(Debug, Clone, Copy, PartialEq, Eq, Structural)]
pub struct ColorDto {
    pub r: u8,
    pub g: u8,
    pub b: u8,
}

/// Play metadata transfer record.
#[derive(Debug)]
pub struct PlayInfoDto {
    pub name: String,
    pub code_name: String,
    pub comment: String,
    pub formation_name: String,
}

impl Clone for PlayInfoDto {
    fn clone(&self) -> (r: Self)
        ensures
            r == *self,
    {
        PlayInfoDto {
            name: self.name.clone(),
            code_name: self.code_name.clone(),
            comment: self.comment.clone(),
            formation_name: self.formation_name.clone(),
        }
    }
}

/// Formation metadata transfer record.
#[derive(Debug)]
pub struct FormationInfoDto {
    pub name: String,
}

impl Clone for FormationInfoDto {
    fn clone(&self) -> (r: Self)
        ensures
            r == *self,
    {
        FormationInfoDto {
            name: self.name.clone(),
        }
    }
}

/// Route metadata transfer record.
#[derive(Debug)]
pub struct RouteInfoDto {
    pub name: String,
    pub code_name: String,
}

impl Clone for RouteInfoDto {
    fn clone(&self) -> (r: Self)
        ensures
            r == *self,
    {
        RouteInfoDto {
            name: self.name.clone(),
            code_name: self.code_name.clone(),
        }
    }
}

/// Category metadata transfer record.
#[derive(Debug)]
pub struct CategoryInfoDto {
    pub name: String,
}

impl Clone for CategoryInfoDto {
    fn clone(&self) -> (r: Self)
        ensures
            r == *self,
    {
        CategoryInfoDto {
            name: self.name.clone(),
        }
    }
}

// ========== Playbook operations ==========

/// The document name of the controller's playbook.
pub fn pbc_get_playbook_name(ctrl: &PBCController) -> (r: String)
    ensures
        r@ == ctrl@.playbook.name,
{
    ctrl.playbook().get_name().clone()
}

/// Renames the controller's playbook document.
pub fn pbc_set_playbook_name(ctrl: &mut PBCController, name: String)
    requires
        old(ctrl).wf(),
    ensures
        final(ctrl).wf(),
        final(ctrl)@.playbook.name == name@,
        final(ctrl)@.playbook == (crate::playbook::PlaybookView {
            name: name@,
            ..old(ctrl)@.playbook
        }),
        final(ctrl)@.draft == old(ctrl)@.draft,
{
    ctrl.set_playbook_name(name);
}

/// Replaces the document with a freshly seeded one and clears any draft.
pub fn pbc_reset_playbook(ctrl: &mut PBCController, name: String, player_number: u32)
    ensures
        final(ctrl).wf(),
        final(ctrl)@.draft is None,
        final(ctrl)@.playbook.name == name@,
        final(ctrl)@.playbook.player_number == player_number,
        final(ctrl)@.playbook.plays == Map::<Seq<char>, crate::play::PlayView>::empty(),
        final(ctrl)@.playbook.categories == Map::<Seq<char>, Seq<char>>::empty(),
        final(ctrl)@.playbook.rel == Set::<(Seq<char>, Seq<char>)>::empty(),
        final(ctrl)@.playbook.routes.dom() == crate::default_playbook::default_route_names(),
        final(ctrl)@.playbook.formations.dom() == Set::<Seq<char>>::empty().insert(
            "Spread Right"@,
        ),
{
    ctrl.reset_playbook(name.as_str(), player_number);
}

// ========== Play operations ==========

/// The names of all persisted plays, each exactly once.
pub fn pbc_get_play_names(ctrl: &PBCController) -> (r: Vec<String>)
    requires
        ctrl.wf(),
    ensures
        forall|i: int|
            0 <= i < r@.len() ==> ctrl@.playbook.plays.dom().contains(#[trigger] r@[i]@),
        forall|k: Seq<char>|
            #[trigger] ctrl@.playbook.plays.dom().contains(k) ==> exists|i: int|
                0 <= i < r@.len() && r@[i]@ == k,
        forall|i: int, j: int| 0 <= i < j < r@.len() ==> r@[i]@ != r@[j]@,
{
    let names = ctrl.playbook().play_names();
    let mut out: Vec<String> = Vec::new();
    let mut i: usize = 0;
    while i < names.len()
        invariant
            0 <= i <= names@.len(),
            out@.len() == i,
            forall|j: int| 0 <= j < i ==> (#[trigger] out@[j]@) == names@[j]@,
        decreases names@.len() - i,
    {
        out.push(names[i].as_string().clone());
        i += 1;
    }
    proof {
        assert forall|k: Seq<char>| #[trigger]
            ctrl@.playbook.plays.dom().contains(k) implies exists|i: int|
            0 <= i < out@.len() && out@[i]@ == k by {
            let j = choose|j: int| 0 <= j < names@.len() && names@[j]@ == k;
            assert(out@[j]@ == k);
        }
    }
    out
}

/// The metadata of the named play, or `NotFound`.
pub fn pbc_get_play_info(ctrl: &PBCController, name: &str) -> (r: Result<PlayInfoDto, PbcError>)
    requires
        ctrl.wf(),
    ensures
        ctrl@.playbook.plays.dom().contains(name@) ==> (r matches Ok(dto) && {
            let p = ctrl@.playbook.plays[name@];
            &&& dto.name@ == p.name
            &&& dto.code_name@ == p.code_name
            &&& dto.comment@ == p.comment
            &&& dto.formation_name@ == p.formation.name
        }),
        !ctrl@.playbook.plays.dom().contains(name@) ==> (r matches Err(e) && e is NotFound),
{
    let key = PlayName::new(name);
    match ctrl.playbook().get_play(&key) {
        Ok(p) => Ok(
            PlayInfoDto {
                name: p.name.as_string().clone(),
                code_name: p.code_name.clone(),
                comment: p.comment.clone(),
                formation_name: p.formation.name.as_string().clone(),
            },
        ),
        Err(e) => Err(e),
    }
}

/// Creates a play from the named formation (routes stripped) and installs
/// it as the controller's draft; `NotFound` when the formation is absent.
pub fn pbc_create_new_play(
    ctrl: &mut PBCController,
    name: String,
    code_name: String,
    formation_name: String,
) -> (r: Result<(), PbcError>)
    requires
        old(ctrl).wf(),
    ensures
        final(ctrl).wf(),
        old(ctrl)@.playbook.formations.dom().contains(formation_name@) ==> r is Ok && final(ctrl)@ == (crate::controller::ControllerView {
            playbook: old(ctrl)@.playbook,
            draft: Option::Some(
                (crate::play::PlayView {
                    name: name@,
                    code_name: code_name@,
                    comment: Seq::<char>::empty(),
                    formation: (crate::formation::FormationView {
                        name: formation_name@,
                        players: old(ctrl)@.playbook.formations[formation_name@].players
                            .map_values(|p: crate::player::PlayerView| crate::player::stripped(p)),
                    }),
                }),
            ),
        }),
        !old(ctrl)@.playbook.formations.dom().contains(formation_name@) ==> ((r matches Err(e)
            && e is NotFound) && final(ctrl)@ == old(ctrl)@),
{
    ctrl.create_and_load_new_play(name, code_name, formation_name.as_str())
}

/// Whether a play is persisted under the given name.
pub fn pbc_has_play(ctrl: &PBCController, name: &str) -> (r: bool)
    requires
        ctrl.wf(),
    ensures
        r == ctrl@.playbook.plays.dom().contains(name@),
{
    let key = PlayName::new(name);
    match ctrl.playbook().get_play(&key) {
        Ok(_) => true,
        Err(_) => false,
    }
}

// ========== Formation operations ==========

/// The names of all stored formations, each exactly once.
pub fn pbc_get_formation_names(ctrl: &PBCController) -> (r: Vec<String>)
    requires
        ctrl.wf(),
    ensures
        forall|i: int|
            0 <= i < r@.len() ==> ctrl@.playbook.formations.dom().contains(#[trigger] r@[i]@),
        forall|k: Seq<char>|
            #[trigger] ctrl@.playbook.formations.dom().contains(k) ==> exists|i: int|
                0 <= i < r@.len() && r@[i]@ == k,
        forall|i: int, j: int| 0 <= i < j < r@.len() ==> r@[i]@ != r@[j]@,
{
    let names = ctrl.playbook().formation_names();
    let mut out: Vec<String> = Vec::new();
    let mut i: usize = 0;
    while i < names.len()
        invariant
            0 <= i <= names@.len(),
            out@.len() == i,
            forall|j: int| 0 <= j < i ==> (#[trigger] out@[j]@) == names@[j]@,
        decreases names@.len() - i,
    {
        out.push(names[i].as_string().clone());
        i += 1;
    }
    proof {
        assert forall|k: Seq<char>| #[trigger]
            ctrl@.playbook.formations.dom().contains(k) implies exists|i: int|
            0 <= i < out@.len() && out@[i]@ == k by {
            let j = choose|j: int| 0 <= j < names@.len() && names@[j]@ == k;
            assert(out@[j]@ == k);
        }
    }
    out
}

/// The metadata of the named formation, or `NotFound`.
pub fn pbc_get_formation_info(ctrl: &PBCController, name: &str) -> (r: Result<
    FormationInfoDto,
    PbcError,
>)
    requires
        ctrl.wf(),
    ensures
        ctrl@.playbook.formations.dom().contains(name@) ==> (r matches Ok(dto) && dto.name@
            == ctrl@.playbook.formations[name@].name),
        !ctrl@.playbook.formations.dom().contains(name@) ==> (r matches Err(e) && e is NotFound),
{
    let key = FormationName::new(name);
    match ctrl.playbook().get_formation(&key) {
        Ok(f) => Ok(FormationInfoDto { name: f.name.as_string().clone() }),
        Err(e) => Err(e),
    }
}

/// Whether a formation is stored under the given name.
pub fn pbc_has_formation(ctrl: &PBCController, name: &str) -> (r: bool)
    requires
        ctrl.wf(),
    ensures
        r == ctrl@.playbook.formations.dom().contains(name@),
{
    let key = FormationName::new(name);
    ctrl.playbook().has_formation(&key)
}

// ========== Route operations ==========

/// The names of all stored routes, each exactly once.
pub fn pbc_get_route_names(ctrl: &PBCController) -> (r: Vec<String>)
    requires
        ctrl.wf(),
    ensures
        forall|i: int|
            0 <= i < r@.len() ==> ctrl@.playbook.routes.dom().contains(#[trigger] r@[i]@),
        forall|k: Seq<char>|
            #[trigger] ctrl@.playbook.routes.dom().contains(k) ==> exists|i: int|
                0 <= i < r@.len() && r@[i]@ == k,
        forall|i: int, j: int| 0 <= i < j < r@.len() ==> r@[i]@ != r@[j]@,
{
    let names = ctrl.playbook().route_names();
    let mut out: Vec<String> = Vec::new();
    let mut i: usize = 0;
    while i < names.len()
        invariant
            0 <= i <= names@.len(),
            out@.len() == i,
            forall|j: int| 0 <= j < i ==> (#[trigger] out@[j]@) == names@[j]@,
        decreases names@.len() - i,
    {
        out.push(names[i].as_string().clone());
        i += 1;
    }
    proof {
        assert forall|k: Seq<char>| #[trigger]
            ctrl@.playbook.routes.dom().contains(k) implies exists|i: int|
            0 <= i < out@.len() && out@[i]@ == k by {
            let j = choose|j: int| 0 <= j < names@.len() && names@[j]@ == k;
            assert(out@[j]@ == k);
        }
    }
    out
}

/// The metadata of the named route, or `NotFound`.
pub fn pbc_get_route_info(ctrl: &PBCController, name: &str) -> (r: Result<RouteInfoDto, PbcError>)
    requires
        ctrl.wf(),
    ensures
        ctrl@.playbook.routes.dom().contains(name@) ==> (r matches Ok(dto) && dto.name@
            == ctrl@.playbook.routes[name@].name && dto.code_name@
            == ctrl@.playbook.routes[name@].code_name),
        !ctrl@.playbook.routes.dom().contains(name@) ==> (r matches Err(e) && e is NotFound),
{
    let key = RouteName::new(name);
    match ctrl.playbook().get_route(&key) {
        Ok(t) => Ok(RouteInfoDto { name: t.name.clone(), code_name: t.code_name.clone() }),
        Err(e) => Err(e),
    }
}

/// Whether a route is stored under the given name.
pub fn pbc_has_route(ctrl: &PBCController, name: &str) -> (r: bool)
    requires
        ctrl.wf(),
    ensures
        r == ctrl@.playbook.routes.dom().contains(name@),
{
    let key = RouteName::new(name);
    match ctrl.playbook().get_route(&key) {
        Ok(_) => true,
        Err(_) => false,
    }
}

// ========== Category operations ==========

/// The names of all stored categories, each exactly once.
pub fn pbc_get_category_names(ctrl: &PBCController) -> (r: Vec<String>)
    requires
        ctrl.wf(),
    ensures
        forall|i: int|
            0 <= i < r@.len() ==> ctrl@.playbook.categories.dom().contains(#[trigger] r@[i]@),
        forall|k: Seq<char>|
            #[trigger] ctrl@.playbook.categories.dom().contains(k) ==> exists|i: int|
                0 <= i < r@.len() && r@[i]@ == k,
        forall|i: int, j: int| 0 <= i < j < r@.len() ==> r@[i]@ != r@[j]@,
{
    let names = ctrl.playbook().category_names();
    let mut out: Vec<String> = Vec::new();
    let mut i: usize = 0;
    while i < names.len()
        invariant
            0 <= i <= names@.len(),
            out@.len() == i,
            forall|j: int| 0 <= j < i ==> (#[trigger] out@[j]@) == names@[j]@,
        decreases names@.len() - i,
    {
        out.push(names[i].as_string().clone());
        i += 1;
    }
    proof {
        assert forall|k: Seq<char>| #[trigger]
            ctrl@.playbook.categories.dom().contains(k) implies exists|i: int|
            0 <= i < out@.len() && out@[i]@ == k by {
            let j = choose|j: int| 0 <= j < names@.len() && names@[j]@ == k;
            assert(out@[j]@ == k);
        }
    }
    out
}

/// The metadata of the named category, or `NotFound`.
pub fn pbc_get_category_info(ctrl: &PBCController, name: &str) -> (r: Result<
    CategoryInfoDto,
    PbcError,
>)
    requires
        ctrl.wf(),
    ensures
        ctrl@.playbook.categories.dom().contains(name@) ==> (r matches Ok(dto) && dto.name@
            == name@),
        !ctrl@.playbook.categories.dom().contains(name@) ==> (r matches Err(e) && e is NotFound),
{
    let key = CategoryName::new(name);
    match ctrl.playbook().get_category(&key) {
        Ok(c) => Ok(CategoryInfoDto { name: c.name.as_string().clone() }),
        Err(e) => Err(e),
    }
}

/// Whether a category is stored under the given name.
pub fn pbc_has_category(ctrl: &PBCController, name: &str) -> (r: bool)
    requires
        ctrl.wf(),
    ensures
        r == ctrl@.playbook.categories.dom().contains(name@),
{
    let key = CategoryName::new(name);
    match ctrl.playbook().get_category(&key) {
        Ok(_) => true,
        Err(_) => false,
    }
}

} // verus!

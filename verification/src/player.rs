//! Players: a role, a color and a position, plus optionally assigned routes
//! and a pre-snap motion.

use crate::color::PBCColor;
use crate::motion::{MotionView, PBCMotion};
use crate::point::Point2D;
use crate::role::{PBCRole, RoleView};
use crate::route::{PBCRoute, RouteView};
use vstd::prelude::*;

verus! {

/// A player in a formation or play.
#[derive(Debug)]
pub struct PBCPlayer {
    pub role: PBCRole,
    pub color: PBCColor,
    pub pos: Point2D,
    pub route: Option<PBCRoute>,
    pub option_routes: Vec<PBCRoute>,
    pub alternative_route1: Option<PBCRoute>,
    pub alternative_route2: Option<PBCRoute>,
    pub motion: Option<PBCMotion>,
    pub name: String,
    pub nr: u32,
}

/// The mathematical content of a player.
#[verifier::ext_equal]
pub ghost struct PlayerView {
    pub role: RoleView,
    pub color: PBCColor,
    pub pos: Point2D,
    pub route: Option<RouteView>,
    pub option_routes: Seq<RouteView>,
    pub alternative_route1: Option<RouteView>,
    pub alternative_route2: Option<RouteView>,
    pub motion: Option<MotionView>,
    pub name: Seq<char>,
    pub nr: u32,
}

/// The view of an optional route.
pub open spec fn route_opt_view(r: Option<PBCRoute>) -> Option<RouteView> {
    match r {
        Option::Some(route) => Option::Some(route@),
        Option::None => Option::None,
    }
}

/// The view of an optional motion.
pub open spec fn motion_opt_view(m: Option<PBCMotion>) -> Option<MotionView> {
    match m {
        Option::Some(motion) => Option::Some(motion@),
        Option::None => Option::None,
    }
}

impl View for PBCPlayer {
    type V = PlayerView;

    open spec fn view(&self) -> PlayerView {
        PlayerView {
            role: self.role@,
            color: self.color,
            pos: self.pos,
            route: route_opt_view(self.route),
            option_routes: self.option_routes@.map_values(|r: PBCRoute| r@),
            alternative_route1: route_opt_view(self.alternative_route1),
            alternative_route2: route_opt_view(self.alternative_route2),
            motion: motion_opt_view(self.motion),
            name: self.name@,
            nr: self.nr,
        }
    }
}

/// A player view with the same identity fields (role, color, position, name,
/// number) but no assigned route, option routes, alternative routes or
/// motion. This is the "template instantiation" a formation undergoes when
/// it is copied into a new play.
pub open spec fn stripped(p: PlayerView) -> PlayerView {
    PlayerView {
        route: Option::None,
        option_routes: Seq::<RouteView>::empty(),
        alternative_route1: Option::None,
        alternative_route2: Option::None,
        motion: Option::None,
        ..p
    }
}

impl PBCPlayer {
    /// Creates a player with no name, number zero, and nothing assigned.
    pub fn new(role: PBCRole, color: PBCColor, pos: Point2D) -> (r: Self)
        ensures
            r@ == (PlayerView {
                role: role@,
                color: color,
                pos: pos,
                route: Option::None,
                option_routes: Seq::<RouteView>::empty(),
                alternative_route1: Option::None,
                alternative_route2: Option::None,
                motion: Option::None,
                name: Seq::<char>::empty(),
                nr: 0 as u32,
            }),
    {
        let r = PBCPlayer {
            role,
            color,
            pos,
            route: None,
            option_routes: Vec::new(),
            alternative_route1: None,
            alternative_route2: None,
            motion: None,
            name: String::new(),
            nr: 0,
        };
        proof {
            assert(r.option_routes@.map_values(|x: PBCRoute| x@) =~= Seq::<RouteView>::empty());
        }
        r
    }

    /// Creates a player with a name and number, and nothing assigned.
    pub fn with_details(role: PBCRole, color: PBCColor, pos: Point2D, name: &str, nr: u32) -> (r:
        Self)
        ensures
            r@ == (PlayerView {
                role: role@,
                color: color,
                pos: pos,
                route: Option::None,
                option_routes: Seq::<RouteView>::empty(),
                alternative_route1: Option::None,
                alternative_route2: Option::None,
                motion: Option::None,
                name: name@,
                nr: nr,
            }),
    {
        let r = PBCPlayer {
            role,
            color,
            pos,
            route: None,
            option_routes: Vec::new(),
            alternative_route1: None,
            alternative_route2: None,
            motion: None,
            name: name.to_owned(),
            nr,
        };
        proof {
            assert(r.option_routes@.map_values(|x: PBCRoute| x@) =~= Seq::<RouteView>::empty());
        }
        r
    }

    /// Assigns the primary route.
    pub fn set_route(&mut self, route: PBCRoute)
        ensures
            final(self)@ == (PlayerView { route: Option::Some(route@), ..old(self)@ }),
    {
        self.route = Some(route);
    }

    /// Clears the primary route.
    pub fn reset_route(&mut self)
        ensures
            final(self)@ == (PlayerView { route: Option::None, ..old(self)@ }),
    {
        self.route = None;
    }

    /// Appends an option route.
    pub fn add_option_route(&mut self, route: PBCRoute)
        ensures
            final(self)@ == (PlayerView {
                option_routes: old(self)@.option_routes.push(route@),
                ..old(self)@
            }),
    {
        self.option_routes.push(route);
        proof {
            assert(self.option_routes@.map_values(|x: PBCRoute| x@) =~= old(
                self,
            )@.option_routes.push(self.option_routes@.last()@));
        }
    }

    /// Clears every option route.
    pub fn reset_option_routes(&mut self)
        ensures
            final(self)@ == (PlayerView {
                option_routes: Seq::<RouteView>::empty(),
                ..old(self)@
            }),
    {
        self.option_routes.clear();
        proof {
            assert(self.option_routes@.map_values(|x: PBCRoute| x@) =~= Seq::<RouteView>::empty());
        }
    }

    /// Assigns an alternative route. Only slots 1 and 2 exist; any other
    /// slot is an out-of-domain argument and is excluded by precondition.
    pub fn set_alternative_route(&mut self, version: u32, route: PBCRoute)
        requires
            version == 1 || version == 2,
        ensures
            version == 1 ==> final(self)@ == (PlayerView {
                alternative_route1: Option::Some(route@),
                ..old(self)@
            }),
            version == 2 ==> final(self)@ == (PlayerView {
                alternative_route2: Option::Some(route@),
                ..old(self)@
            }),
    {
        if version == 1 {
            self.alternative_route1 = Some(route);
        } else {
            self.alternative_route2 = Some(route);
        }
    }

    /// The alternative route in the given slot; `None` for slots other than
    /// 1 and 2.
    pub fn alternative_route(&self, version: u32) -> (r: Option<&PBCRoute>)
        ensures
            version == 1 ==> route_opt_view_ref(r) == self@.alternative_route1,
            version == 2 ==> route_opt_view_ref(r) == self@.alternative_route2,
            version != 1 && version != 2 ==> r is None,
    {
        match version {
            1 => self.alternative_route1.as_ref(),
            2 => self.alternative_route2.as_ref(),
            _ => None,
        }
    }

    /// Clears the alternative route in the given slot; a no-op for slots
    /// other than 1 and 2.
    pub fn reset_alternative_route(&mut self, version: u32)
        ensures
            version == 1 ==> final(self)@ == (PlayerView {
                alternative_route1: Option::None,
                ..old(self)@
            }),
            version == 2 ==> final(self)@ == (PlayerView {
                alternative_route2: Option::None,
                ..old(self)@
            }),
            version != 1 && version != 2 ==> final(self)@ == old(self)@,
    {
        match version {
            1 => {
                self.alternative_route1 = None;
            },
            2 => {
                self.alternative_route2 = None;
            },
            _ => {},
        }
    }

    /// Assigns the pre-snap motion.
    pub fn set_motion(&mut self, motion: PBCMotion)
        ensures
            final(self)@ == (PlayerView { motion: Option::Some(motion@), ..old(self)@ }),
    {
        self.motion = Some(motion);
    }

    /// Clears the pre-snap motion.
    pub fn reset_motion(&mut self)
        ensures
            final(self)@ == (PlayerView { motion: Option::None, ..old(self)@ }),
    {
        self.motion = None;
    }

    /// A copy of this player with the routes and motion stripped: role,
    /// color, position, name and number are preserved exactly.
    pub fn copy_stripped(&self) -> (r: Self)
        ensures
            r@ == stripped(self@),
    {
        let r = PBCPlayer::with_details(
            self.role.clone(),
            self.color,
            self.pos,
            self.name.as_str(),
            self.nr,
        );
        proof {
            assert(r@ =~= stripped(self@));
        }
        r
    }
}

/// The view of an optional borrowed route.
pub open spec fn route_opt_view_ref(r: Option<&PBCRoute>) -> Option<RouteView> {
    match r {
        Option::Some(route) => Option::Some(route@),
        Option::None => Option::None,
    }
}

impl Clone for PBCPlayer {
    fn clone(&self) -> (r: Self)
        ensures
            r@ == self@,
    {
        let route = match &self.route {
            Some(x) => Some(x.clone()),
            None => None,
        };
        let alternative_route1 = match &self.alternative_route1 {
            Some(x) => Some(x.clone()),
            None => None,
        };
        let alternative_route2 = match &self.alternative_route2 {
            Some(x) => Some(x.clone()),
            None => None,
        };
        let motion = match &self.motion {
            Some(x) => Some(x.clone()),
            None => None,
        };
        let option_routes = self.option_routes.clone();
        let r = PBCPlayer {
            role: self.role.clone(),
            color: self.color,
            pos: self.pos,
            route,
            option_routes,
            alternative_route1,
            alternative_route2,
            motion,
            name: self.name.clone(),
            nr: self.nr,
        };
        proof {
            assert(r.option_routes@.map_values(|x: PBCRoute| x@) =~= self.option_routes@.map_values(
                |x: PBCRoute| x@,
            ));
            assert(r@ =~= self@);
        }
        r
    }
}

impl PartialEq for PBCPlayer {
    fn eq(&self, other: &Self) -> (r: bool)
        ensures
            r == (self@ == other@),
    {
        let routes_eq = match (&self.route, &other.route) {
            (Option::None, Option::None) => true,
            (Option::Some(a), Option::Some(b)) => *a == *b,
            _ => false,
        };
        let alt1_eq = match (&self.alternative_route1, &other.alternative_route1) {
            (Option::None, Option::None) => true,
            (Option::Some(a), Option::Some(b)) => *a == *b,
            _ => false,
        };
        let alt2_eq = match (&self.alternative_route2, &other.alternative_route2) {
            (Option::None, Option::None) => true,
            (Option::Some(a), Option::Some(b)) => *a == *b,
            _ => false,
        };
        let motions_eq = match (&self.motion, &other.motion) {
            (Option::None, Option::None) => true,
            (Option::Some(a), Option::Some(b)) => *a == *b,
            _ => false,
        };
        let mut options_eq = self.option_routes.len() == other.option_routes.len();
        proof {
            assert(self@.option_routes.len() == self.option_routes@.len());
            assert(other@.option_routes.len() == other.option_routes@.len());
        }
        let mut i: usize = 0;
        while options_eq && i < self.option_routes.len()
            invariant
                0 <= i <= self.option_routes@.len(),
                options_eq ==> self.option_routes@.len() == other.option_routes@.len(),
                options_eq ==> forall|j: int|
                    0 <= j < i ==> self.option_routes@[j]@ == other.option_routes@[j]@,
                !options_eq ==> self@.option_routes != other@.option_routes,
            decreases self.option_routes@.len() - i,
        {
            if self.option_routes[i] == other.option_routes[i] {
                i += 1;
            } else {
                proof {
                    assert(self@.option_routes[i as int] != other@.option_routes[i as int]);
                }
                options_eq = false;
                i = self.option_routes.len();
            }
        }
        proof {
            if options_eq && self.option_routes@.len() == other.option_routes@.len() && (forall|
                j: int,
            |
                0 <= j < self.option_routes@.len() ==> self.option_routes@[j]@
                    == other.option_routes@[j]@) {
                assert(self@.option_routes =~= other@.option_routes);
            }
        }
        let r = routes_eq && alt1_eq && alt2_eq && motions_eq && options_eq && self.role
            == other.role && self.color == other.color && self.pos == other.pos && self.name
            == other.name && self.nr == other.nr;
        proof {
            if r {
                assert(self@.option_routes =~= other@.option_routes);
                assert(self@ =~= other@);
            }
        }
        r
    }
}

impl vstd::std_specs::cmp::PartialEqSpecImpl for PBCPlayer {
    open spec fn obeys_eq_spec() -> bool {
        true
    }

    open spec fn eq_spec(&self, other: &Self) -> bool {
        self@ == other@
    }
}

} // verus!

//! The built-in data every playbook is seeded with: a library of fourteen
//! standard routes and one "Spread Right" formation scaled to the player
//! count. Coordinates are in tenths of a yard.

use crate::color::PBCColor;
use crate::formation::PBCFormation;
use crate::path::PBCPath;
use crate::player::PBCPlayer;
use crate::point::Point2D;
use crate::role::PBCRole;
use crate::route::PBCRoute;
use vstd::prelude::*;
use vstd::seq::Seq;

verus! {

/// How many default routes a playbook is seeded with.
pub open spec fn default_route_count() -> int {
    14
}

/// The name of the i-th built-in route.
pub open spec fn default_route_name(i: int) -> Seq<char> {
    if i == 0 {
        "Hook"@
    } else if i == 1 {
        "Comeback"@
    } else if i == 2 {
        "5 In"@
    } else if i == 3 {
        "10 In"@
    } else if i == 4 {
        "5 Out"@
    } else if i == 5 {
        "10 Out"@
    } else if i == 6 {
        "Slant"@
    } else if i == 7 {
        "Shallow"@
    } else if i == 8 {
        "Curl"@
    } else if i == 9 {
        "Post"@
    } else if i == 10 {
        "Corner"@
    } else if i == 11 {
        "Fly"@
    } else if i == 12 {
        "Seam"@
    } else {
        "Fade"@
    }
}

/// The set of names of the built-in routes.
pub open spec fn default_route_names() -> Set<Seq<char>> {
    Set::new(
        |k: Seq<char>| exists|i: int| 0 <= i < default_route_count() && default_route_name(i) == k,
    )
}

/// How many players the built-in formation has for a given player count:
/// the core five, guards from seven, fullback and tight end from nine, and
/// tackles at eleven.
pub open spec fn default_formation_size(player_number: u32) -> int {
    5 + (if player_number >= 7 {
        2int
    } else {
        0
    }) + (if player_number >= 9 {
        2int
    } else {
        0
    }) + (if player_number == 11 {
        2int
    } else {
        0
    })
}

/// A straight path segment ending at the given coordinates.
fn seg(x: i64, y: i64) -> (r: PBCPath)
    ensures
        r == (PBCPath { endpoint: Point2D { x, y }, bezier_control_point: Option::None }),
{
    PBCPath::new(Point2D::new(x, y))
}

/// A curved path segment with a Bezier control point.
fn curve(x: i64, y: i64, cx: i64, cy: i64) -> (r: PBCPath)
    ensures
        r == (PBCPath {
            endpoint: Point2D { x, y },
            bezier_control_point: Option::Some(Point2D { x: cx, y: cy }),
        }),
{
    PBCPath::new_curved(Point2D::new(x, y), Point2D::new(cx, cy))
}

/// A two-segment path list.
fn two_paths(a: PBCPath, b: PBCPath) -> (r: Vec<PBCPath>)
    ensures
        r@ == seq![a, b],
{
    let mut r: Vec<PBCPath> = Vec::new();
    r.push(a);
    r.push(b);
    proof {
        assert(r@ =~= seq![a, b]);
    }
    r
}

/// Creates the fourteen built-in routes, each of two path segments, all
/// with an empty code name.
pub fn create_default_routes() -> (r: Vec<PBCRoute>)
    ensures
        r@.len() == default_route_count(),
        forall|i: int|
            0 <= i < r@.len() ==> (#[trigger] r@[i]@).name == default_route_name(i)
                && r@[i]@.code_name.len() == 0 && r@[i]@.paths.len() == 2,
{
    let mut r: Vec<PBCRoute> = Vec::new();
    r.push(PBCRoute::new("Hook", "", two_paths(seg(0, 60), seg(10, 50))));
    r.push(PBCRoute::new("Comeback", "", two_paths(seg(0, 120), seg(-20, 100))));
    r.push(PBCRoute::new("5 In", "", two_paths(seg(0, 50), seg(100, 50))));
    r.push(PBCRoute::new("10 In", "", two_paths(seg(0, 100), seg(100, 100))));
    r.push(PBCRoute::new("5 Out", "", two_paths(seg(0, 50), seg(-100, 50))));
    r.push(PBCRoute::new("10 Out", "", two_paths(seg(0, 100), seg(-100, 100))));
    r.push(PBCRoute::new("Slant", "", two_paths(seg(0, 20), seg(90, 50))));
    r.push(PBCRoute::new("Shallow", "", two_paths(curve(130, 20, 20, 20), seg(150, 20))));
    r.push(PBCRoute::new("Curl", "", two_paths(seg(0, 120), seg(20, 100))));
    r.push(PBCRoute::new("Post", "", two_paths(seg(0, 70), seg(70, 140))));
    r.push(PBCRoute::new("Corner", "", two_paths(seg(0, 70), seg(-70, 140))));
    r.push(PBCRoute::new("Fly", "", two_paths(curve(-10, 120, -7, 30), seg(-10, 140))));
    r.push(PBCRoute::new("Seam", "", two_paths(curve(7, 120, -3, 30), seg(10, 140))));
    r.push(PBCRoute::new("Fade", "", two_paths(curve(-10, 50, -7, 10), seg(-10, 70))));
    proof {
        reveal_strlit("");
        assert(r@.len() == 14);
        assert(r@[0]@.name == "Hook"@);
        assert(r@[1]@.name == "Comeback"@);
        assert(r@[2]@.name == "5 In"@);
        assert(r@[3]@.name == "10 In"@);
        assert(r@[4]@.name == "5 Out"@);
        assert(r@[5]@.name == "10 Out"@);
        assert(r@[6]@.name == "Slant"@);
        assert(r@[7]@.name == "Shallow"@);
        assert(r@[8]@.name == "Curl"@);
        assert(r@[9]@.name == "Post"@);
        assert(r@[10]@.name == "Corner"@);
        assert(r@[11]@.name == "Fly"@);
        assert(r@[12]@.name == "Seam"@);
        assert(r@[13]@.name == "Fade"@);
    }
    r
}

/// A default-colored player with the given role and position and nothing
/// assigned.
fn default_player(role: PBCRole, x: i64, y: i64) -> (r: PBCPlayer)
    ensures
        r@.role == role@,
        r@.pos == (Point2D { x, y }),
        r@.route is None,
        r@.option_routes.len() == 0,
        r@.motion is None,
{
    PBCPlayer::new(role, PBCColor::default(), Point2D::new(x, y))
}

/// Creates the built-in "Spread Right" formation scaled to the player
/// count. Its players carry no routes or motions.
pub fn create_default_formation(player_number: u32) -> (r: PBCFormation)
    ensures
        r@.name == "Spread Right"@,
        r@.players.len() == default_formation_size(player_number),
        forall|i: int|
            0 <= i < r@.players.len() ==> (#[trigger] r@.players[i]).route is None
                && r@.players[i].option_routes.len() == 0 && r@.players[i].motion is None,
{
    let mut formation = PBCFormation::new("Spread Right");
    proof {
        reveal_strlit("C   ");
        reveal_strlit("QB  ");
        reveal_strlit("WRL ");
        reveal_strlit("WRR ");
        reveal_strlit("HB  ");
        reveal_strlit("LG  ");
        reveal_strlit("RG  ");
        reveal_strlit("FB  ");
        reveal_strlit("TE  ");
        reveal_strlit("LT  ");
        reveal_strlit("RT  ");
    }

    let center = PBCRole::from_strings("Center", "C   ");
    if let Ok(role) = center {
        formation.add_player(default_player(role, 0, 0));
    }
    let quarterback = PBCRole::from_strings("Quarterback", "QB  ");
    if let Ok(role) = quarterback {
        formation.add_player(default_player(role, 0, -50));
    }
    let receiver_left = PBCRole::from_strings("Wide Receiver Left", "WRL ");
    if let Ok(role) = receiver_left {
        formation.add_player(default_player(role, -100, 0));
    }
    let receiver_right = PBCRole::from_strings("Wide Receiver Right", "WRR ");
    if let Ok(role) = receiver_right {
        formation.add_player(default_player(role, 100, 0));
    }
    let halfback = PBCRole::from_strings("Halfback", "HB  ");
    if let Ok(role) = halfback {
        formation.add_player(default_player(role, 50, 0));
    }

    if player_number >= 7 {
        let left_guard = PBCRole::from_strings("Left Guard", "LG  ");
        if let Ok(role) = left_guard {
            formation.add_player(default_player(role, -10, 0));
        }
        let right_guard = PBCRole::from_strings("Right Guard", "RG  ");
        if let Ok(role) = right_guard {
            formation.add_player(default_player(role, 10, 0));
        }
    }

    if player_number >= 9 {
        let fullback = PBCRole::from_strings("Fullback", "FB  ");
        if let Ok(role) = fullback {
            formation.add_player(default_player(role, 0, -30));
        }
        let tight_end = PBCRole::from_strings("Tight End", "TE  ");
        if let Ok(role) = tight_end {
            formation.add_player(default_player(role, 30, -10));
        }
    }

    if player_number == 11 {
        let left_tackle = PBCRole::from_strings("Left Tackle", "LT  ");
        if let Ok(role) = left_tackle {
            formation.add_player(default_player(role, -20, 0));
        }
        let right_tackle = PBCRole::from_strings("Right Tackle", "RT  ");
        if let Ok(role) = right_tackle {
            formation.add_player(default_player(role, 20, 0));
        }
    }

    formation
}

} // verus!

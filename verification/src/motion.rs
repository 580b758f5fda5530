//! Pre-snap motions: a movement plus the position reached when the motion
//! completes.

use crate::movement::PBCAbstractMovement;
use crate::path::PBCPath;
use crate::point::Point2D;
use vstd::prelude::*;

verus! {

/// A player's pre-snap motion. The end point tracks the endpoint of the
/// last path segment, or the origin when the motion is empty.
#[derive(Debug, Eq, Hash)]
pub struct PBCMotion {
    pub movement: PBCAbstractMovement,
    pub motion_end_point: Point2D,
}

/// The mathematical content of a motion.
#[verifier::ext_equal]
pub ghost struct MotionView {
    pub paths: Seq<PBCPath>,
    pub motion_end_point: Point2D,
}

impl View for PBCMotion {
    type V = MotionView;

    open spec fn view(&self) -> MotionView {
        MotionView { paths: self.movement@, motion_end_point: self.motion_end_point }
    }
}

impl PBCMotion {
    /// Creates an empty motion ending at the origin.
    pub fn new() -> (r: Self)
        ensures
            r@ == (MotionView {
                paths: Seq::<PBCPath>::empty(),
                motion_end_point: Point2D { x: 0 as i64, y: 0 as i64 },
            }),
    {
        PBCMotion { movement: PBCAbstractMovement::new(), motion_end_point: Point2D::zero() }
    }

    /// Creates a motion from the given paths; the end point is the endpoint
    /// of the last path, or the origin when there are none.
    pub fn with_paths(paths: Vec<PBCPath>) -> (r: Self)
        ensures
            r@.paths == paths@,
            paths@.len() == 0 ==> r@.motion_end_point == (Point2D { x: 0 as i64, y: 0 as i64 }),
            paths@.len() > 0 ==> r@.motion_end_point == paths@.last().endpoint,
    {
        let motion_end_point = if paths.len() == 0 {
            Point2D::zero()
        } else {
            paths[paths.len() - 1].endpoint
        };
        PBCMotion { movement: PBCAbstractMovement::with_paths(paths), motion_end_point }
    }

    /// Appends a path segment and moves the end point to its endpoint.
    pub fn add_path(&mut self, path: PBCPath)
        ensures
            final(self)@ == (MotionView {
                paths: old(self)@.paths.push(path),
                motion_end_point: path.endpoint,
            }),
    {
        self.motion_end_point = path.endpoint;
        self.movement.add_path(path);
    }

    /// The path segments of this motion.
    pub fn paths(&self) -> (r: &Vec<PBCPath>)
        ensures
            r@ == self@.paths,
    {
        &self.movement.paths
    }
}

impl Clone for PBCMotion {
    fn clone(&self) -> (r: Self)
        ensures
            r@ == self@,
    {
        PBCMotion { movement: self.movement.clone(), motion_end_point: self.motion_end_point }
    }
}

impl PartialEq for PBCMotion {
    fn eq(&self, other: &Self) -> (r: bool)
        ensures
            r == (self@ == other@),
    {
        let r = self.movement == other.movement && self.motion_end_point == other.motion_end_point;
        proof {
            if r {
                assert(self@ =~= other@);
            }
        }
        r
    }
}

impl vstd::std_specs::cmp::PartialEqSpecImpl for PBCMotion {
    open spec fn obeys_eq_spec() -> bool {
        true
    }

    open spec fn eq_spec(&self, other: &Self) -> bool {
        self@ == other@
    }
}

impl Default for PBCMotion {
    /// The default motion is empty and ends at the origin.
    fn default() -> (r: Self)
        ensures
            r@ == (MotionView {
                paths: Seq::<PBCPath>::empty(),
                motion_end_point: Point2D { x: 0 as i64, y: 0 as i64 },
            }),
    {
        PBCMotion { movement: PBCAbstractMovement::new(), motion_end_point: Point2D::zero() }
    }
}

} // verus!

//! Path segments: a straight or curved step of a movement.

use crate::point::Point2D;
use vstd::prelude::*;

verus! {

/// A path segment with an endpoint and an optional Bezier control point.
/// A segment with a control point is drawn as a curve.
#[derive(Debug, Copy, Eq, Hash)]
pub struct PBCPath {
    pub endpoint: Point2D,
    pub bezier_control_point: Option<Point2D>,
}

impl Clone for PBCPath {
    fn clone(&self) -> (r: Self)
        ensures
            r == *self,
    {
        PBCPath { endpoint: self.endpoint, bezier_control_point: self.bezier_control_point }
    }
}

impl PartialEq for PBCPath {
    fn eq(&self, other: &Self) -> (r: bool)
        ensures
            r == (*self == *other),
    {
        let endpoints_eq = self.endpoint == other.endpoint;
        let controls_eq = match (&self.bezier_control_point, &other.bezier_control_point) {
            (Option::None, Option::None) => true,
            (Option::Some(a), Option::Some(b)) => *a == *b,
            _ => false,
        };
        endpoints_eq && controls_eq
    }
}

impl vstd::std_specs::cmp::PartialEqSpecImpl for PBCPath {
    open spec fn obeys_eq_spec() -> bool {
        true
    }

    open spec fn eq_spec(&self, other: &Self) -> bool {
        *self == *other
    }
}

impl PBCPath {
    /// Creates a straight path segment to the given endpoint.
    pub fn new(endpoint: Point2D) -> (r: Self)
        ensures
            r == (PBCPath { endpoint, bezier_control_point: None }),
    {
        PBCPath { endpoint, bezier_control_point: None }
    }

    /// Creates a curved path segment with a Bezier control point.
    pub fn new_curved(endpoint: Point2D, control_point: Point2D) -> (r: Self)
        ensures
            r == (PBCPath { endpoint, bezier_control_point: Some(control_point) }),
    {
        PBCPath { endpoint, bezier_control_point: Some(control_point) }
    }

    /// Creates a path segment with an optional control point.
    pub fn with_control(endpoint: Point2D, control_point: Option<Point2D>) -> (r: Self)
        ensures
            r == (PBCPath { endpoint, bezier_control_point: control_point }),
    {
        PBCPath { endpoint, bezier_control_point: control_point }
    }

    /// True exactly when this segment is curved (has a control point).
    pub fn is_curved(&self) -> (r: bool)
        ensures
            r == (self.bezier_control_point is Some),
    {
        self.bezier_control_point.is_some()
    }
}

} // verus!

//! Outlines: segments, and the path that holds them with its attributes.

use vstd::prelude::*;
use crate::geometry::{Point2D, Transform2D};
use crate::paint::{Fill, Shadow, Stroke};

verus! {

/// One step of an outline. Its points are relative to the path that owns it.
#[derive(Clone, Copy, Debug, PartialEq, Eq, Structural)]
pub enum Segment2D {
    /// Lifts the pen and puts it down at the point.
    MoveTo(Point2D),
    /// A straight line to the point.
    LineTo(Point2D),
    /// A quadratic curve to the point (first), bent by the handle (second).
    QuadraticTo(Point2D, Point2D),
    /// A cubic curve to the point (first), bent by two handles.
    CubicTo(Point2D, Point2D, Point2D),
}

/// An ordered outline under a local transform, with what it is stroked,
/// filled and shadowed with, if anything.
#[derive(Clone, Debug, PartialEq, Eq)]
pub struct Path {
    pub orientation: Transform2D,
    pub segments: Vec<Segment2D>,
    pub closed: bool,
    pub fill: Option<Fill>,
    pub stroke: Option<Stroke>,
    pub shadow: Option<Shadow>,
}

} // verus!

//! Paint sources and the attributes of a stroke, a fill and a shadow.

use vstd::prelude::*;
use crate::geometry::{Point2D, Ratio};

verus! {

/// A colour: red, green, blue and opacity, eight bits each.
#[derive(Clone, Copy, Debug, PartialEq, Eq, Structural)]
pub struct Color {
    pub r: u8,
    pub g: u8,
    pub b: u8,
    pub a: u8,
}

impl Color {
    /// Black without any opacity: what is painted with it cannot be seen.
    pub open spec fn spec_transparent() -> Color {
        Color { r: 0, g: 0, b: 0, a: 0 }
    }

    /// Black without any opacity.
    pub fn transparent() -> (c: Color)
        ensures
            c == Color::spec_transparent(),
    {
        Color { r: 0, g: 0, b: 0, a: 0 }
    }
}

/// An opaque reference to an image that a rasteriser owns: a surface that a
/// frame is drawn on, or a picture used as a texture.
#[derive(Clone, Copy, Debug, PartialEq, Eq, Structural)]
pub struct ImageHandle {
    pub id: u64,
}

/// One stop of a gradient: where along the gradient it lies, between zero and
/// one, and its colour.
#[derive(Clone, Copy, Debug, PartialEq, Eq, Structural)]
pub struct GradientStop {
    pub offset: Ratio,
    pub color: Color,
}

/// A gradient along the line from `start` to `end`.
#[derive(Clone, Debug, PartialEq, Eq)]
pub struct LinearGradient {
    pub start: Point2D,
    pub end: Point2D,
    pub stops: Vec<GradientStop>,
}

/// A gradient between two circles.
#[derive(Clone, Debug, PartialEq, Eq)]
pub struct RadialGradient {
    pub start: Point2D,
    pub start_radius: u32,
    pub end: Point2D,
    pub end_radius: u32,
    pub stops: Vec<GradientStop>,
}

/// What a stroke or a fill paints with.
#[derive(Clone, Debug, PartialEq, Eq)]
pub enum VectorTexture {
    Solid(Color),
    LinearGradient(LinearGradient),
    RadialGradient(RadialGradient),
    Image(ImageHandle),
}

/// How the ends of a stroke are drawn.
#[derive(Clone, Copy, Debug, PartialEq, Eq, Structural)]
pub enum StrokeCapType {
    Butt,
    Round,
}

/// How the corners of a stroke are drawn.
#[derive(Clone, Copy, Debug, PartialEq, Eq, Structural)]
pub enum StrokeJoinType {
    Miter,
    Round,
    Bevel,
}

/// The line drawn along an outline.
#[derive(Clone, Debug, PartialEq, Eq)]
pub struct Stroke {
    pub width: u32,
    pub cap: StrokeCapType,
    pub join: StrokeJoinType,
    pub content: VectorTexture,
}

/// The paint inside an outline.
#[derive(Clone, Debug, PartialEq, Eq)]
pub struct Fill {
    pub content: VectorTexture,
}

/// The shadow that an outline casts.
#[derive(Clone, Copy, Debug, PartialEq, Eq, Structural)]
pub struct Shadow {
    pub blur: u32,
    pub color: Color,
    pub offset: Point2D,
}

} // verus!

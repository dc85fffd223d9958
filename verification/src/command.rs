//! The operations that a frame asks of a rasteriser.

use vstd::prelude::*;
use crate::geometry::{Matrix2D, Ratio};
use crate::paint::{Color, ImageHandle, StrokeCapType, StrokeJoinType};

verus! {

/// Which of the two styles of a drawing context a paint is bound to.
#[derive(Clone, Copy, Debug, PartialEq, Eq, Structural)]
pub enum PaintSlot {
    Stroke,
    Fill,
}

/// One operation on a drawing context. Values in device pixels are fractions;
/// values that are handed on as they are stored keep their stored type.
#[allow(inconsistent_fields)]
#[derive(Clone, Copy, Debug, PartialEq, Eq, Structural)]
pub enum Command {
    /// What follows goes to the context of this surface.
    Target { surface: ImageHandle },
    /// Gives a surface its extent in device pixels.
    ResizeSurface { surface: ImageHandle, width: Ratio, height: Ratio },
    /// Puts blank image data of the given extent at `(x, y)`.
    PutImageData { width: u32, height: u32, x: i64, y: i64 },
    /// Clears a rectangle.
    ClearRect { x: Ratio, y: Ratio, width: Ratio, height: Ratio },
    /// Replaces the current transform.
    SetTransform { matrix: Matrix2D },
    /// Scales the current transform along both axes.
    Scale { x: Ratio, y: Ratio },
    /// Multiplies the current transform by the matrix.
    Transform { matrix: Matrix2D },
    /// Starts a new outline.
    BeginPath,
    ShadowBlur { blur: u32 },
    ShadowColor { color: Color },
    ShadowOffsetX { offset: i64 },
    ShadowOffsetY { offset: i64 },
    MoveTo { x: Ratio, y: Ratio },
    LineTo { x: Ratio, y: Ratio },
    /// A quadratic curve: the handle, then the end point.
    QuadraticCurveTo { cx: Ratio, cy: Ratio, x: Ratio, y: Ratio },
    /// A cubic curve: the two handles, then the end point.
    BezierCurveTo { c1x: Ratio, c1y: Ratio, c2x: Ratio, c2y: Ratio, x: Ratio, y: Ratio },
    /// Closes the outline back to where it started.
    ClosePath,
    LineCap { cap: StrokeCapType },
    LineJoin { join: StrokeJoinType },
    /// Binds a plain colour to a style.
    StyleColor { slot: PaintSlot, color: Color },
    /// Makes a linear gradient without stops; it is the current gradient.
    CreateLinearGradient { x0: i64, y0: i64, x1: i64, y1: i64 },
    /// Makes a radial gradient without stops; it is the current gradient.
    CreateRadialGradient { x0: i64, y0: i64, r0: u32, x1: i64, y1: i64, r1: u32 },
    /// Adds a stop to the current gradient.
    AddColorStop { offset: Ratio, color: Color },
    /// Binds the current gradient to a style.
    StyleGradient { slot: PaintSlot },
    /// Makes a pattern of the image that is not repeated; it is the current
    /// pattern.
    CreatePattern { image: ImageHandle },
    /// Binds the current pattern to a style.
    StylePattern { slot: PaintSlot },
    LineWidth { width: Ratio },
    /// Strokes the outline.
    Stroke,
    /// Fills the outline by the non-zero winding rule.
    Fill,
}

} // verus!

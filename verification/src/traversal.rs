//! Paint resolution and the traversal of one path: the operations that draw
//! it, in their order.

use vstd::prelude::*;
use crate::command::{Command, PaintSlot};
use crate::geometry::{PixelRatio, Point2D, Ratio};
use crate::paint::{Color, Fill, GradientStop, Shadow, Stroke, VectorTexture};
use crate::path::{Path, Segment2D};

verus! {

/// One `AddColorStop` for each stop, in the stored order, offset and colour
/// as they are stored.
pub open spec fn stop_commands(stops: Seq<GradientStop>) -> Seq<Command> {
    Seq::new(
        stops.len(),
        |i: int| Command::AddColorStop { offset: stops[i].offset, color: stops[i].color },
    )
}

/// The operations that bind a paint to a style: a colour at once; a gradient
/// made, given its stops and bound; a pattern made of the image and bound.
pub open spec fn paint_commands(texture: VectorTexture, slot: PaintSlot) -> Seq<Command> {
    match texture {
        VectorTexture::Solid(color) => seq![Command::StyleColor { slot, color }],
        VectorTexture::LinearGradient(g) => seq![
            Command::CreateLinearGradient {
                x0: g.start.x,
                y0: g.start.y,
                x1: g.end.x,
                y1: g.end.y,
            },
        ] + stop_commands(g.stops@) + seq![Command::StyleGradient { slot }],
        VectorTexture::RadialGradient(g) => seq![
            Command::CreateRadialGradient {
                x0: g.start.x,
                y0: g.start.y,
                r0: g.start_radius,
                x1: g.end.x,
                y1: g.end.y,
                r1: g.end_radius,
            },
        ] + stop_commands(g.stops@) + seq![Command::StyleGradient { slot }],
        VectorTexture::Image(image) => seq![
            Command::CreatePattern { image },
            Command::StylePattern { slot },
        ],
    }
}

/// The shadow state that a path is drawn under: its own blur, colour and
/// offset, or, where it has no shadow, no blur, no colour and no offset, so
/// that nothing is left of the shadow of a path drawn before.
pub open spec fn shadow_commands(shadow: Option<Shadow>) -> Seq<Command> {
    match shadow {
        Some(s) => seq![
            Command::ShadowBlur { blur: s.blur },
            Command::ShadowColor { color: s.color },
            Command::ShadowOffsetX { offset: s.offset.x },
            Command::ShadowOffsetY { offset: s.offset.y },
        ],
        None => seq![
            Command::ShadowBlur { blur: 0 },
            Command::ShadowColor { color: Color::spec_transparent() },
            Command::ShadowOffsetX { offset: 0 },
            Command::ShadowOffsetY { offset: 0 },
        ],
    }
}

/// The horizontal device coordinate of a point of a segment.
pub open spec fn device_x(point: Point2D, base: Point2D, origin: Point2D, ratio: PixelRatio) -> Ratio {
    ratio.scaled(base.x + point.x + origin.x)
}

/// The vertical device coordinate of a point of a segment. Of the base
/// position it is the horizontal component that enters here too.
pub open spec fn device_y(point: Point2D, base: Point2D, origin: Point2D, ratio: PixelRatio) -> Ratio {
    ratio.scaled(base.x + point.y + origin.y)
}

/// The outline operation of one segment.
pub open spec fn segment_command(
    segment: Segment2D,
    base: Point2D,
    origin: Point2D,
    ratio: PixelRatio,
) -> Command {
    match segment {
        Segment2D::MoveTo(p) => Command::MoveTo {
            x: device_x(p, base, origin, ratio),
            y: device_y(p, base, origin, ratio),
        },
        Segment2D::LineTo(p) => Command::LineTo {
            x: device_x(p, base, origin, ratio),
            y: device_y(p, base, origin, ratio),
        },
        Segment2D::QuadraticTo(p, h) => Command::QuadraticCurveTo {
            cx: device_x(h, base, origin, ratio),
            cy: device_y(h, base, origin, ratio),
            x: device_x(p, base, origin, ratio),
            y: device_y(p, base, origin, ratio),
        },
        Segment2D::CubicTo(p, h1, h2) => Command::BezierCurveTo {
            c1x: device_x(h1, base, origin, ratio),
            c1y: device_y(h1, base, origin, ratio),
            c2x: device_x(h2, base, origin, ratio),
            c2y: device_y(h2, base, origin, ratio),
            x: device_x(p, base, origin, ratio),
            y: device_y(p, base, origin, ratio),
        },
    }
}

/// One outline operation for each segment, in the stored order.
pub open spec fn outline_commands(
    segments: Seq<Segment2D>,
    base: Point2D,
    origin: Point2D,
    ratio: PixelRatio,
) -> Seq<Command> {
    Seq::new(segments.len(), |i: int| segment_command(segments[i], base, origin, ratio))
}

/// `ClosePath` for a closed path, nothing for an open one.
pub open spec fn close_commands(closed: bool) -> Seq<Command> {
    if closed {
        seq![Command::ClosePath]
    } else {
        Seq::empty()
    }
}

/// The stroke of a path: cap and join, its paint, its width in device
/// pixels, and the stroke itself. Nothing where the path has no stroke.
pub open spec fn stroke_commands(stroke: Option<Stroke>, ratio: PixelRatio) -> Seq<Command> {
    match stroke {
        Some(s) => seq![Command::LineCap { cap: s.cap }, Command::LineJoin { join: s.join }]
            + paint_commands(s.content, PaintSlot::Stroke) + seq![
            Command::LineWidth { width: ratio.scaled(s.width as int) },
            Command::Stroke,
        ],
        None => Seq::empty(),
    }
}

/// The fill of a path: its paint and the fill itself. Nothing where the path
/// has no fill.
pub open spec fn fill_commands(fill: Option<Fill>) -> Seq<Command> {
    match fill {
        Some(f) => paint_commands(f.content, PaintSlot::Fill) + seq![Command::Fill],
        None => Seq::empty(),
    }
}

/// Everything that draws one path of an object at `base`: a new outline, the
/// shadow, the pen at the path's own position, the segments, the closing, the
/// stroke and then the fill.
pub open spec fn path_commands(path: Path, base: Point2D, ratio: PixelRatio) -> Seq<Command> {
    seq![Command::BeginPath] + shadow_commands(path.shadow) + seq![
        Command::MoveTo {
            x: Ratio::whole(path.orientation.position.x as int),
            y: Ratio::whole(path.orientation.position.y as int),
        },
    ] + outline_commands(path.segments@, base, path.orientation.position, ratio)
        + close_commands(path.closed) + stroke_commands(path.stroke, ratio)
        + fill_commands(path.fill)
}

/// Appends the stops of a gradient.
fn emit_stops(stops: &Vec<GradientStop>, out: &mut Vec<Command>)
    ensures
        final(out)@ == old(out)@ + stop_commands(stops@),
{
    let ghost before = out@;
    let mut i: usize = 0;
    while i < stops.len()
        invariant
            i <= stops.len(),
            out@ == before + stop_commands(stops@.take(i as int)),
        decreases stops.len() - i,
    {
        let stop = stops[i];
        out.push(Command::AddColorStop { offset: stop.offset, color: stop.color });
        i += 1;
        assert(out@ =~= before + stop_commands(stops@.take(i as int)));
    }
    assert(stops@.take(i as int) =~= stops@);
}

/// Resolves a paint for one style: appends to `out` the operations that make
/// it and bind it.
pub fn resolve_paint(texture: &VectorTexture, slot: PaintSlot, out: &mut Vec<Command>)
    ensures
        final(out)@ == old(out)@ + paint_commands(*texture, slot),
{
    let ghost before = out@;
    match texture {
        VectorTexture::Solid(color) => {
            out.push(Command::StyleColor { slot, color: *color });
        },
        VectorTexture::LinearGradient(g) => {
            out.push(
                Command::CreateLinearGradient {
                    x0: g.start.x,
                    y0: g.start.y,
                    x1: g.end.x,
                    y1: g.end.y,
                },
            );
            emit_stops(&g.stops, out);
            out.push(Command::StyleGradient { slot });
        },
        VectorTexture::RadialGradient(g) => {
            out.push(
                Command::CreateRadialGradient {
                    x0: g.start.x,
                    y0: g.start.y,
                    r0: g.start_radius,
                    x1: g.end.x,
                    y1: g.end.y,
                    r1: g.end_radius,
                },
            );
            emit_stops(&g.stops, out);
            out.push(Command::StyleGradient { slot });
        },
        VectorTexture::Image(image) => {
            out.push(Command::CreatePattern { image: *image });
            out.push(Command::StylePattern { slot });
        },
    }
    assert(out@ =~= before + paint_commands(*texture, slot));
}

/// Computes the outline operation of one segment.
pub fn place_segment(
    segment: &Segment2D,
    base: Point2D,
    origin: Point2D,
    ratio: PixelRatio,
) -> (c: Command)
    ensures
        c == segment_command(*segment, base, origin, ratio),
{
    match segment {
        Segment2D::MoveTo(p) => Command::MoveTo {
            x: ratio.scale_sum(base.x, p.x, origin.x),
            y: ratio.scale_sum(base.x, p.y, origin.y),
        },
        Segment2D::LineTo(p) => Command::LineTo {
            x: ratio.scale_sum(base.x, p.x, origin.x),
            y: ratio.scale_sum(base.x, p.y, origin.y),
        },
        Segment2D::QuadraticTo(p, h) => Command::QuadraticCurveTo {
            cx: ratio.scale_sum(base.x, h.x, origin.x),
            cy: ratio.scale_sum(base.x, h.y, origin.y),
            x: ratio.scale_sum(base.x, p.x, origin.x),
            y: ratio.scale_sum(base.x, p.y, origin.y),
        },
        Segment2D::CubicTo(p, h1, h2) => Command::BezierCurveTo {
            c1x: ratio.scale_sum(base.x, h1.x, origin.x),
            c1y: ratio.scale_sum(base.x, h1.y, origin.y),
            c2x: ratio.scale_sum(base.x, h2.x, origin.x),
            c2y: ratio.scale_sum(base.x, h2.y, origin.y),
            x: ratio.scale_sum(base.x, p.x, origin.x),
            y: ratio.scale_sum(base.x, p.y, origin.y),
        },
    }
}

/// Appends the outline operations of the segments.
fn emit_outline(
    segments: &Vec<Segment2D>,
    base: Point2D,
    origin: Point2D,
    ratio: PixelRatio,
    out: &mut Vec<Command>,
)
    ensures
        final(out)@ == old(out)@ + outline_commands(segments@, base, origin, ratio),
{
    let ghost before = out@;
    let mut i: usize = 0;
    while i < segments.len()
        invariant
            i <= segments.len(),
            out@ == before + outline_commands(segments@.take(i as int), base, origin, ratio),
        decreases segments.len() - i,
    {
        let c = place_segment(&segments[i], base, origin, ratio);
        out.push(c);
        i += 1;
        assert(out@ =~= before + outline_commands(
            segments@.take(i as int),
            base,
            origin,
            ratio,
        ));
    }
    assert(segments@.take(i as int) =~= segments@);
}

/// Appends the shadow state of a path: its shadow, or the cleared state.
fn emit_shadow(shadow: &Option<Shadow>, out: &mut Vec<Command>)
    ensures
        final(out)@ == old(out)@ + shadow_commands(*shadow),
{
    let ghost before = out@;
    match shadow {
        Some(s) => {
            out.push(Command::ShadowBlur { blur: s.blur });
            out.push(Command::ShadowColor { color: s.color });
            out.push(Command::ShadowOffsetX { offset: s.offset.x });
            out.push(Command::ShadowOffsetY { offset: s.offset.y });
        },
        None => {
            out.push(Command::ShadowBlur { blur: 0 });
            out.push(Command::ShadowColor { color: Color::transparent() });
            out.push(Command::ShadowOffsetX { offset: 0 });
            out.push(Command::ShadowOffsetY { offset: 0 });
        },
    }
    assert(out@ =~= before + shadow_commands(*shadow));
}

/// Appends the stroke of a path, if it has one.
fn emit_stroke(stroke: &Option<Stroke>, ratio: PixelRatio, out: &mut Vec<Command>)
    ensures
        final(out)@ == old(out)@ + stroke_commands(*stroke, ratio),
{
    let ghost before = out@;
    match stroke {
        Some(s) => {
            out.push(Command::LineCap { cap: s.cap });
            out.push(Command::LineJoin { join: s.join });
            resolve_paint(&s.content, PaintSlot::Stroke, out);
            out.push(Command::LineWidth { width: ratio.scale_length(s.width) });
            out.push(Command::Stroke);
        },
        None => {},
    }
    assert(out@ =~= before + stroke_commands(*stroke, ratio));
}

/// Appends the fill of a path, if it has one.
fn emit_fill(fill: &Option<Fill>, out: &mut Vec<Command>)
    ensures
        final(out)@ == old(out)@ + fill_commands(*fill),
{
    let ghost before = out@;
    match fill {
        Some(f) => {
            resolve_paint(&f.content, PaintSlot::Fill, out);
            out.push(Command::Fill);
        },
        None => {},
    }
    assert(out@ =~= before + fill_commands(*fill));
}

/// Traverses one path of an object at `base`: appends to `out` everything
/// that draws it, the stroke before the fill.
pub fn draw_path(path: &Path, base: Point2D, ratio: PixelRatio, out: &mut Vec<Command>)
    ensures
        final(out)@ == old(out)@ + path_commands(*path, base, ratio),
{
    let ghost before = out@;
    out.push(Command::BeginPath);
    emit_shadow(&path.shadow, out);
    let origin = path.orientation.position;
    out.push(Command::MoveTo { x: Ratio::from_whole(origin.x), y: Ratio::from_whole(origin.y) });
    emit_outline(&path.segments, base, origin, ratio, out);
    let ghost outlined = out@;
    if path.closed {
        out.push(Command::ClosePath);
    }
    assert(out@ =~= outlined + close_commands(path.closed));
    emit_stroke(&path.stroke, ratio, out);
    emit_fill(&path.fill, out);
    proof {
        lemma_concat_seven(
            before,
            seq![Command::BeginPath],
            shadow_commands(path.shadow),
            seq![
                Command::MoveTo {
                    x: Ratio::whole(path.orientation.position.x as int),
                    y: Ratio::whole(path.orientation.position.y as int),
                },
            ],
            outline_commands(path.segments@, base, path.orientation.position, ratio),
            close_commands(path.closed),
            stroke_commands(path.stroke, ratio),
            fill_commands(path.fill),
        );
    }
}

/// Appending seven sequences one after the other appends their concatenation.
proof fn lemma_concat_seven(
    s: Seq<Command>,
    a: Seq<Command>,
    b: Seq<Command>,
    c: Seq<Command>,
    d: Seq<Command>,
    e: Seq<Command>,
    f: Seq<Command>,
    g: Seq<Command>,
)
    ensures
        s + a + b + c + d + e + f + g == s + (a + b + c + d + e + f + g),
{
    assert(s + a + b + c + d + e + f + g =~= s + (a + b + c + d + e + f + g));
}

} // verus!

//! What holds of every draw.

use vstd::prelude::*;
use crate::command::{Command, PaintSlot};
use crate::frame::{
    clear_command, content_commands, draw_commands, frame_translation, is_frame_path,
    objects_commands, placed_path_commands, transform_commands, DynamicObject2D, Frame, Object2D,
    Projection, Resolution,
};
use crate::geometry::{
    scale_limit, Matrix2D, PixelRatio, Point2D, Ratio, Rect2D, Size2D, Transform2D,
};
use crate::paint::{Color, GradientStop, ImageHandle, VectorTexture};
use crate::path::{Path, Segment2D};
use crate::traversal::{
    device_x, device_y, outline_commands, paint_commands, path_commands, segment_command,
    shadow_commands,
};

verus! {

/// Under the ratio one, with the object and the path at the origin, the
/// device coordinates of a point are its own coordinates; and in a frame that
/// shows all of itself from the origin, the transform of a path with the
/// identity transform moves nothing and turns nothing.
pub proof fn lemma_identity_draw(point: Point2D, size: Size2D)
    ensures
        device_x(point, Point2D { x: 0, y: 0 }, Point2D { x: 0, y: 0 }, PixelRatio::spec_unit())
            == Ratio::whole(point.x as int),
        device_y(point, Point2D { x: 0, y: 0 }, Point2D { x: 0, y: 0 }, PixelRatio::spec_unit())
            == Ratio::whole(point.y as int),
        transform_commands(
            Projection {
                viewport: Rect2D { position: Point2D { x: 0, y: 0 }, size },
                size,
                pixel_ratio: PixelRatio::spec_unit(),
            },
            Transform2D::spec_identity(),
        ) == seq![
            Command::SetTransform {
                matrix: Matrix2D::translation(Ratio::whole(0), Ratio::whole(0)),
            },
            Command::Scale {
                x: Ratio { numerator: size.width as i128, denominator: size.width },
                y: Ratio { numerator: size.height as i128, denominator: size.height },
            },
            Command::Transform {
                matrix: Matrix2D::translation(Ratio::whole(0), Ratio::whole(0)),
            },
        ],
{
    let p = Projection {
        viewport: Rect2D { position: Point2D { x: 0, y: 0 }, size },
        size,
        pixel_ratio: PixelRatio::spec_unit(),
    };
    let shown = transform_commands(p, Transform2D::spec_identity());
    let still = Matrix2D::translation(Ratio::whole(0), Ratio::whole(0));
    let unit = PixelRatio::spec_unit();
    assert(unit.scaled(0).numerator == 0);
    assert(unit.scaled(0) == Ratio::whole(0));
    assert(frame_translation(p) == still);
    assert(Transform2D::spec_identity().matrix() == still);
    assert(shown =~= seq![
        Command::SetTransform { matrix: still },
        Command::Scale {
            x: Ratio { numerator: size.width as i128, denominator: size.width },
            y: Ratio { numerator: size.height as i128, denominator: size.height },
        },
        Command::Transform { matrix: still },
    ]);
}

/// The outline operation of a segment with the coordinates as they are
/// stored.
pub open spec fn raw_command(segment: Segment2D) -> Command {
    match segment {
        Segment2D::MoveTo(p) => Command::MoveTo {
            x: Ratio::whole(p.x as int),
            y: Ratio::whole(p.y as int),
        },
        Segment2D::LineTo(p) => Command::LineTo {
            x: Ratio::whole(p.x as int),
            y: Ratio::whole(p.y as int),
        },
        Segment2D::QuadraticTo(p, h) => Command::QuadraticCurveTo {
            cx: Ratio::whole(h.x as int),
            cy: Ratio::whole(h.y as int),
            x: Ratio::whole(p.x as int),
            y: Ratio::whole(p.y as int),
        },
        Segment2D::CubicTo(p, h1, h2) => Command::BezierCurveTo {
            c1x: Ratio::whole(h1.x as int),
            c1y: Ratio::whole(h1.y as int),
            c2x: Ratio::whole(h2.x as int),
            c2y: Ratio::whole(h2.y as int),
            x: Ratio::whole(p.x as int),
            y: Ratio::whole(p.y as int),
        },
    }
}

/// Under the ratio one, with the object and the path at the origin, the
/// outline of a path is its segments with the coordinates as they are
/// stored.
pub proof fn lemma_identity_outline(segments: Seq<Segment2D>)
    ensures
        outline_commands(
            segments,
            Point2D { x: 0, y: 0 },
            Point2D { x: 0, y: 0 },
            PixelRatio::spec_unit(),
        ) == Seq::new(segments.len(), |i: int| raw_command(segments[i])),
{
    let o = Point2D { x: 0, y: 0 };
    assert(outline_commands(segments, o, o, PixelRatio::spec_unit()) =~= Seq::new(
        segments.len(),
        |i: int| raw_command(segments[i]),
    ));
}

/// Whether the pixel ratio `larger` is `ka / kb` times the pixel ratio
/// `ratio`, as fractions: stated without a division.
pub open spec fn ratio_times(larger: PixelRatio, ratio: PixelRatio, ka: nat, kb: nat) -> bool {
    larger.numerator * kb * ratio.denominator == ka * ratio.numerator * larger.denominator
}

/// Whether the fraction `c2` is `ka / kb` times the fraction `c1`: stated
/// without a division.
pub open spec fn times(c2: Ratio, c1: Ratio, ka: nat, kb: nat) -> bool {
    c2.numerator * c1.denominator * kb == ka * c1.numerator * c2.denominator
}

/// `value` under a pixel ratio `ka / kb` times as large is `ka / kb` times as
/// large.
pub proof fn lemma_scaled_times(value: int, ratio: PixelRatio, larger: PixelRatio, ka: nat, kb: nat)
    requires
        ratio_times(larger, ratio, ka, kb),
        -scale_limit() <= value <= scale_limit(),
    ensures
        times(larger.scaled(value), ratio.scaled(value), ka, kb),
{
    ratio.lemma_scaled_exact(value);
    larger.lemma_scaled_exact(value);
    let ln = larger.numerator as int;
    let ld = larger.denominator as int;
    let rn = ratio.numerator as int;
    let rd = ratio.denominator as int;
    let a = ka as int;
    let b = kb as int;
    assert((value * ln) * rd * b == value * (ln * b * rd)) by (nonlinear_arith);
    assert(a * (value * rn) * ld == value * (a * rn * ld)) by (nonlinear_arith);
}

/// A pixel ratio `ka / kb` times as large makes every device coordinate of a
/// segment, and the width of a stroke, exactly `ka / kb` times as large,
/// whatever the object's position and the path's.
pub proof fn lemma_pixel_ratio_scales(
    point: Point2D,
    base: Point2D,
    origin: Point2D,
    width: u32,
    ratio: PixelRatio,
    larger: PixelRatio,
    ka: nat,
    kb: nat,
)
    requires
        ratio_times(larger, ratio, ka, kb),
    ensures
        times(
            device_x(point, base, origin, larger),
            device_x(point, base, origin, ratio),
            ka,
            kb,
        ),
        times(
            device_y(point, base, origin, larger),
            device_y(point, base, origin, ratio),
            ka,
            kb,
        ),
        times(larger.scaled(width as int), ratio.scaled(width as int), ka, kb),
{
    lemma_scaled_times(base.x + point.x + origin.x, ratio, larger, ka, kb);
    lemma_scaled_times(base.x + point.y + origin.y, ratio, larger, ka, kb);
    lemma_scaled_times(width as int, ratio, larger, ka, kb);
}

/// Moving the viewport by `(dx, dy)` moves the translation under which every
/// path of every object is drawn by `(-dx, -dy)` times the pixel ratio, and
/// changes nothing else of that transform.
pub proof fn lemma_viewport_pan(p: Projection, dx: int, dy: int, panned: Projection, o: Transform2D)
    requires
        panned.viewport.position.x == p.viewport.position.x + dx,
        panned.viewport.position.y == p.viewport.position.y + dy,
        panned.viewport.size == p.viewport.size,
        panned.size == p.size,
        panned.pixel_ratio == p.pixel_ratio,
    ensures
        frame_translation(panned).e.numerator == frame_translation(p).e.numerator - dx
            * p.pixel_ratio.numerator,
        frame_translation(panned).f.numerator == frame_translation(p).f.numerator - dy
            * p.pixel_ratio.numerator,
        frame_translation(panned).e.denominator == frame_translation(p).e.denominator,
        frame_translation(panned).f.denominator == frame_translation(p).f.denominator,
        transform_commands(panned, o)[1] == transform_commands(p, o)[1],
        transform_commands(panned, o)[2] == transform_commands(p, o)[2],
{
    let n = p.pixel_ratio.numerator as int;
    let x = p.viewport.position.x as int;
    let y = p.viewport.position.y as int;
    p.pixel_ratio.lemma_scaled_exact(-x);
    p.pixel_ratio.lemma_scaled_exact(-y);
    p.pixel_ratio.lemma_scaled_exact(-(x + dx));
    p.pixel_ratio.lemma_scaled_exact(-(y + dy));
    assert((-(x + dx)) * n == (-x) * n - dx * n) by (nonlinear_arith);
    assert((-(y + dy)) * n == (-y) * n - dy * n) by (nonlinear_arith);
}

/// The stops of a gradient, as a sequence.
pub open spec fn stops_of(texture: VectorTexture) -> Seq<GradientStop> {
    match texture {
        VectorTexture::LinearGradient(g) => g.stops@,
        VectorTexture::RadialGradient(g) => g.stops@,
        _ => Seq::empty(),
    }
}

/// A gradient is made, then given its stops in the stored order, each with
/// its stored offset and colour, then bound; nothing else is emitted for it.
pub proof fn lemma_gradient_stops_in_order(texture: VectorTexture, slot: PaintSlot)
    requires
        texture is LinearGradient || texture is RadialGradient,
    ensures
        paint_commands(texture, slot).len() == stops_of(texture).len() + 2,
        forall|i: int|
            0 <= i < stops_of(texture).len() ==> #[trigger] paint_commands(texture, slot)[1 + i]
                == (Command::AddColorStop {
                offset: stops_of(texture)[i].offset,
                color: stops_of(texture)[i].color,
            }),
        paint_commands(texture, slot)[stops_of(texture).len() as int + 1] == (Command::StyleGradient {
            slot,
        }),
{
}

/// A closed path is closed right after its last segment, before anything is
/// stroked or filled: the outline ends where it started, whatever the
/// segments are.
pub proof fn lemma_closed_path_closes(path: Path, base: Point2D, ratio: PixelRatio)
    requires
        path.closed,
    ensures
        ({
            let at = (2 + shadow_commands(path.shadow).len() + path.segments@.len()) as int;
            &&& at < path_commands(path, base, ratio).len()
            &&& path_commands(path, base, ratio)[at] == Command::ClosePath
            &&& path.segments@.len() > 0 ==> path_commands(path, base, ratio)[at - 1]
                == segment_command(
                path.segments@.last(),
                base,
                path.orientation.position,
                ratio,
            )
        }),
{
}

/// A path without a shadow is drawn under a cleared shadow state: after the
/// outline is begun and before anything else, blur and offset are set to
/// zero and the colour to one that cannot be seen. So nothing of the shadow
/// of the path drawn before is carried over, and of two paths drawn in turn
/// the second is drawn as it would be alone.
pub proof fn lemma_shadow_does_not_leak(p: Projection, first: Path, second: Path, base: Point2D)
    requires
        second.shadow.is_none(),
    ensures
        content_commands(p, seq![first, second], base) == placed_path_commands(p, first, base)
            + placed_path_commands(p, second, base),
        path_commands(second, base, p.pixel_ratio)[0] == Command::BeginPath,
        path_commands(second, base, p.pixel_ratio)[1] == (Command::ShadowBlur { blur: 0 }),
        path_commands(second, base, p.pixel_ratio)[2] == (Command::ShadowColor {
            color: Color::spec_transparent(),
        }),
        path_commands(second, base, p.pixel_ratio)[3] == (Command::ShadowOffsetX { offset: 0 }),
        path_commands(second, base, p.pixel_ratio)[4] == (Command::ShadowOffsetY { offset: 0 }),
        path_commands(second, base, p.pixel_ratio)[5] == (Command::MoveTo {
            x: Ratio::whole(second.orientation.position.x as int),
            y: Ratio::whole(second.orientation.position.y as int),
        }),
{
    let both = seq![first, second];
    assert(both.drop_last() =~= seq![first]);
    assert(seq![first].drop_last() =~= Seq::<Path>::empty());
    reveal_with_fuel(content_commands, 3);
    assert(content_commands(p, both, base) =~= placed_path_commands(p, first, base)
        + placed_path_commands(p, second, base));
}

/// A path with a shadow is drawn under that shadow: after the outline is
/// begun and before anything else, blur, colour and offset are set to its
/// own.
pub proof fn lemma_shadow_is_set(path: Path, base: Point2D, ratio: PixelRatio)
    requires
        path.shadow.is_some(),
    ensures
        path_commands(path, base, ratio)[0] == Command::BeginPath,
        path_commands(path, base, ratio)[1] == (Command::ShadowBlur {
            blur: path.shadow.unwrap().blur,
        }),
        path_commands(path, base, ratio)[2] == (Command::ShadowColor {
            color: path.shadow.unwrap().color,
        }),
        path_commands(path, base, ratio)[3] == (Command::ShadowOffsetX {
            offset: path.shadow.unwrap().offset.x,
        }),
        path_commands(path, base, ratio)[4] == (Command::ShadowOffsetY {
            offset: path.shadow.unwrap().offset.y,
        }),
{
}

/// Whether every object is static.
pub open spec fn all_static<D>(objects: Seq<Object2D<D>>) -> bool {
    forall|i: int| 0 <= i < objects.len() ==> #[trigger] objects[i] is Static
}

/// Where every object of a frame is static, a draw emits the same whatever
/// the objects are resolved to: it is settled by the frame alone.
pub proof fn lemma_static_draw_is_settled<D>(
    p: Projection,
    surface: ImageHandle,
    objects: Seq<Object2D<D>>,
    one: Seq<Resolution>,
    other: Seq<Resolution>,
)
    requires
        all_static(objects),
    ensures
        objects_commands(p, surface, objects, one) == objects_commands(p, surface, objects, other),
        draw_commands(p, surface, objects, one) == draw_commands(p, surface, objects, other),
    decreases objects.len(),
{
    if objects.len() > 0 {
        assert(objects.last() is Static);
        assert(all_static(objects.drop_last())) by {
            assert forall|i: int| 0 <= i < objects.drop_last().len() implies #[trigger] objects.drop_last()[i] is Static by {
                assert(objects.drop_last()[i] == objects[i]);
            }
        }
        lemma_static_draw_is_settled(
            p,
            surface,
            objects.drop_last(),
            one.drop_last(),
            other.drop_last(),
        );
    }
}

/// What clears a viewport, in device pixels: its corner, then its extent.
pub open spec fn cleared(p: Projection) -> Seq<Ratio> {
    match clear_command(p) {
        Command::ClearRect { x, y, width, height } => seq![x, y, width, height],
        _ => Seq::empty(),
    }
}

/// A pixel ratio `ka / kb` times as large makes what a frame clears, and the
/// translation under which it draws, exactly `ka / kb` times as large, and
/// leaves its zoom and the matrix of every path as they are.
pub proof fn lemma_pixel_ratio_scales_frame(p: Projection, larger: Projection, ka: nat, kb: nat)
    requires
        ratio_times(larger.pixel_ratio, p.pixel_ratio, ka, kb),
        larger.viewport == p.viewport,
        larger.size == p.size,
    ensures
        cleared(larger).len() == 4,
        cleared(p).len() == 4,
        forall|i: int| 0 <= i < 4 ==> times(#[trigger] cleared(larger)[i], cleared(p)[i], ka, kb),
        times(frame_translation(larger).e, frame_translation(p).e, ka, kb),
        times(frame_translation(larger).f, frame_translation(p).f, ka, kb),
        forall|o: Transform2D|
            #![trigger transform_commands(larger, o)]
            transform_commands(larger, o)[1] == transform_commands(p, o)[1]
                && transform_commands(larger, o)[2] == transform_commands(p, o)[2],
{
    let x = p.viewport.position.x as int;
    let y = p.viewport.position.y as int;
    let w = p.viewport.size.width as int;
    let h = p.viewport.size.height as int;
    lemma_scaled_times(x, p.pixel_ratio, larger.pixel_ratio, ka, kb);
    lemma_scaled_times(y, p.pixel_ratio, larger.pixel_ratio, ka, kb);
    lemma_scaled_times(w, p.pixel_ratio, larger.pixel_ratio, ka, kb);
    lemma_scaled_times(h, p.pixel_ratio, larger.pixel_ratio, ka, kb);
    lemma_scaled_times(-x, p.pixel_ratio, larger.pixel_ratio, ka, kb);
    lemma_scaled_times(-y, p.pixel_ratio, larger.pixel_ratio, ka, kb);
}

/// A frame whose objects are all static draws the same every time: any two
/// draws of it are equal.
pub proof fn lemma_static_frame_draws_alike<D: DynamicObject2D>(
    frame: Frame<D>,
    one: Seq<Command>,
    other: Seq<Command>,
)
    requires
        all_static(frame.objects()),
        frame.is_draw(one),
        frame.is_draw(other),
    ensures
        one == other,
{
    let a = choose|r: Seq<Resolution>| frame.resolves(r) && one == #[trigger] frame.emits(r);
    let b = choose|r: Seq<Resolution>| frame.resolves(r) && other == #[trigger] frame.emits(r);
    lemma_static_draw_is_settled(frame.projection(), frame.surface(), frame.objects(), a, b);
}

/// A frame that holds another frame draws it anew, in full and once, in each
/// of its own draws: whatever the objects of the parent come to, what a
/// nested frame comes to is a draw of that frame, under the identity, with
/// the one path that shows its surface at its size.
pub proof fn lemma_nested_frame_is_redrawn<D: DynamicObject2D>(
    parent: Frame<Frame<D>>,
    resolved: Seq<Resolution>,
    i: int,
    child: Frame<D>,
)
    requires
        parent.resolves(resolved),
        0 <= i < parent.objects().len(),
        parent.objects()[i] == Object2D::Dynamic(child),
    ensures
        child.is_draw(resolved[i].effects),
        resolved[i].orientation == Transform2D::spec_identity(),
        resolved[i].content.len() == 1,
        is_frame_path(resolved[i].content[0], child.surface(), child.projection().size),
{
    assert(crate::frame::admits(parent.objects()[i], resolved[i]));
}

/// An open path is never closed: nothing that draws it is `ClosePath`.
pub proof fn lemma_open_path_stays_open(path: Path, base: Point2D, ratio: PixelRatio, i: int)
    requires
        !path.closed,
        0 <= i < path_commands(path, base, ratio).len(),
    ensures
        path_commands(path, base, ratio)[i] != Command::ClosePath,
{
}

} // verus!

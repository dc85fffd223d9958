//! Scene objects and the frame that holds them: what a draw of a frame
//! emits, and how a frame serves as an object of another frame.

use vstd::prelude::*;
use crate::command::Command;
use crate::geometry::{Matrix2D, PixelRatio, Point2D, Ratio, Rect2D, Size2D, Transform2D};
use crate::paint::{Fill, ImageHandle, VectorTexture};
use crate::path::{Path, Segment2D};
use crate::traversal::{draw_path, path_commands};

verus! {

/// How a frame maps its logical plane onto its surface.
#[derive(Clone, Copy, Debug, PartialEq, Eq, Structural)]
pub struct Projection {
    /// The part of the logical plane that is shown.
    pub viewport: Rect2D,
    /// The size of the frame.
    pub size: Size2D,
    /// Device pixels per logical unit.
    pub pixel_ratio: PixelRatio,
}

/// An object whose paths are fixed.
#[derive(Clone, Debug, PartialEq, Eq)]
pub struct StaticObject2D {
    pub orientation: Transform2D,
    pub content: Vec<Path>,
}

/// What a dynamic object hands over when it is rendered: the drawing it did
/// on surfaces of its own to get there, and the paths to draw for it now.
#[derive(Clone, Debug, PartialEq, Eq)]
pub struct Rendering {
    pub effects: Vec<Command>,
    pub content: Vec<Path>,
}

/// An object that computes its transform and its paths anew whenever it is
/// drawn. What it returns may differ from one call to the next; an
/// implementation says with `stands` and `renders` what it keeps to in every
/// call, if anything.
pub trait DynamicObject2D {
    /// Whether the object may stand under `orientation`. Any, unless the
    /// implementation says otherwise.
    open spec fn stands(&self, orientation: Transform2D) -> bool {
        true
    }

    /// Whether the object may hand over a rendering with these effects and
    /// this content. Any, unless the implementation says otherwise.
    open spec fn renders(&self, effects: Seq<Command>, content: Seq<Path>) -> bool {
        true
    }

    /// The current transform of the object.
    fn orientation(&self) -> (t: Transform2D)
        ensures
            self.stands(t),
    ;

    /// The current paths of the object.
    fn render(&self) -> (r: Rendering)
        ensures
            self.renders(r.effects@, r.content@),
    ;
}

/// The dynamic object that has nothing to draw: it stands under the identity
/// and renders no effects and no paths. It is the dynamic type of a frame
/// whose objects are all static.
#[derive(Clone, Copy, Debug, PartialEq, Eq)]
pub struct Still {}

impl DynamicObject2D for Still {
    open spec fn stands(&self, orientation: Transform2D) -> bool {
        orientation == Transform2D::spec_identity()
    }

    open spec fn renders(&self, effects: Seq<Command>, content: Seq<Path>) -> bool {
        effects.len() == 0 && content.len() == 0
    }

    fn orientation(&self) -> (t: Transform2D) {
        Transform2D::identity()
    }

    fn render(&self) -> (r: Rendering) {
        Rendering { effects: Vec::new(), content: Vec::new() }
    }
}

/// A node of a scene.
pub enum Object2D<D> {
    Static(StaticObject2D),
    Dynamic(D),
}

/// What one object came to in one draw: its transform, and, for a dynamic
/// object, what its rendering held.
pub struct Resolution {
    pub orientation: Transform2D,
    pub effects: Seq<Command>,
    pub content: Seq<Path>,
}

/// Clears the viewport, in device pixels.
pub open spec fn clear_command(p: Projection) -> Command {
    Command::ClearRect {
        x: p.pixel_ratio.scaled(p.viewport.position.x as int),
        y: p.pixel_ratio.scaled(p.viewport.position.y as int),
        width: p.pixel_ratio.scaled(p.viewport.size.width as int),
        height: p.pixel_ratio.scaled(p.viewport.size.height as int),
    }
}

/// The translation that brings the corner of the viewport to the corner of
/// the surface: the opposite of its position, in device pixels.
pub open spec fn frame_translation(p: Projection) -> Matrix2D {
    Matrix2D::translation(
        p.pixel_ratio.scaled(-(p.viewport.position.x as int)),
        p.pixel_ratio.scaled(-(p.viewport.position.y as int)),
    )
}

/// The zoom of a frame along each axis: its size over that of its viewport.
pub open spec fn frame_scale(p: Projection) -> Command {
    Command::Scale {
        x: Ratio { numerator: p.size.width as i128, denominator: p.viewport.size.width },
        y: Ratio { numerator: p.size.height as i128, denominator: p.viewport.size.height },
    }
}

/// The transform under which a path is drawn: the frame's translation, then
/// its zoom, then the matrix of the path's own transform.
pub open spec fn transform_commands(p: Projection, orientation: Transform2D) -> Seq<Command> {
    seq![
        Command::SetTransform { matrix: frame_translation(p) },
        frame_scale(p),
        Command::Transform { matrix: orientation.matrix() },
    ]
}

/// One path of an object at `base`, drawn in a frame: its transform, then its
/// traversal.
pub open spec fn placed_path_commands(p: Projection, path: Path, base: Point2D) -> Seq<Command> {
    transform_commands(p, path.orientation) + path_commands(path, base, p.pixel_ratio)
}

/// The paths of an object at `base`, each drawn in turn, in the stored order.
pub open spec fn content_commands(p: Projection, paths: Seq<Path>, base: Point2D) -> Seq<Command>
    decreases paths.len(),
{
    if paths.len() == 0 {
        Seq::empty()
    } else {
        content_commands(p, paths.drop_last(), base) + placed_path_commands(p, paths.last(), base)
    }
}

/// What a rendered object adds to the draw of a frame on `surface`: the
/// drawing it did on its own, the return to the frame's surface, and its
/// paths.
pub open spec fn rendered_commands(
    p: Projection,
    surface: ImageHandle,
    r: Resolution,
) -> Seq<Command> {
    r.effects + seq![Command::Target { surface }] + content_commands(p, r.content, r.orientation.position)
}

/// What one object adds to the draw of a frame: a static object its stored
/// paths at its stored position, a dynamic one what it was resolved to.
pub open spec fn object_commands<D>(
    p: Projection,
    surface: ImageHandle,
    object: Object2D<D>,
    r: Resolution,
) -> Seq<Command> {
    match object {
        Object2D::Static(s) => content_commands(p, s.content@, s.orientation.position),
        Object2D::Dynamic(_) => rendered_commands(p, surface, r),
    }
}

/// The objects of a frame, each drawn in turn, in the order in which they
/// were added, each with its own resolution.
pub open spec fn objects_commands<D>(
    p: Projection,
    surface: ImageHandle,
    objects: Seq<Object2D<D>>,
    resolved: Seq<Resolution>,
) -> Seq<Command>
    decreases objects.len(),
{
    if objects.len() == 0 {
        Seq::empty()
    } else {
        objects_commands(p, surface, objects.drop_last(), resolved.drop_last()) + object_commands(
            p,
            surface,
            objects.last(),
            resolved.last(),
        )
    }
}

/// A whole draw: the frame's surface is taken, the viewport cleared, and the
/// objects drawn.
pub open spec fn draw_commands<D>(
    p: Projection,
    surface: ImageHandle,
    objects: Seq<Object2D<D>>,
    resolved: Seq<Resolution>,
) -> Seq<Command> {
    seq![Command::Target { surface }, clear_command(p)] + objects_commands(
        p,
        surface,
        objects,
        resolved,
    )
}

/// The outline of a frame of the given size: its four corners, from the
/// origin downwards and round.
pub open spec fn frame_outline(size: Size2D) -> Seq<Segment2D> {
    seq![
        Segment2D::LineTo(Point2D { x: 0, y: 0 }),
        Segment2D::LineTo(Point2D { x: 0, y: size.height as i64 }),
        Segment2D::LineTo(Point2D { x: size.width as i64, y: size.height as i64 }),
        Segment2D::LineTo(Point2D { x: size.width as i64, y: 0 }),
    ]
}

/// Whether `path` shows a frame as an object: a closed rectangle of the
/// frame's size, filled with the image of its surface and nothing else.
pub open spec fn is_frame_path(path: Path, surface: ImageHandle, size: Size2D) -> bool {
    &&& path.orientation == Transform2D::spec_identity()
    &&& path.segments@ == frame_outline(size)
    &&& path.closed
    &&& path.fill == Some(Fill { content: VectorTexture::Image(surface) })
    &&& path.stroke.is_none()
    &&& path.shadow.is_none()
}

/// Draws the paths of an object at `base`: appends to `out` the transform and
/// the traversal of each, in the stored order.
pub fn draw_content(p: &Projection, paths: &Vec<Path>, base: Point2D, out: &mut Vec<Command>)
    ensures
        final(out)@ == old(out)@ + content_commands(*p, paths@, base),
{
    let ghost before = out@;
    let mut i: usize = 0;
    assert(paths@.take(0) =~= Seq::empty());
    while i < paths.len()
        invariant
            i <= paths.len(),
            out@ == before + content_commands(*p, paths@.take(i as int), base),
        decreases paths.len() - i,
    {
        let path = &paths[i];
        let ghost drawn = out@;
        out.push(
            Command::SetTransform {
                matrix: Matrix2D::new_translation(
                    p.pixel_ratio.scale_negated(p.viewport.position.x),
                    p.pixel_ratio.scale_negated(p.viewport.position.y),
                ),
            },
        );
        out.push(
            Command::Scale {
                x: Ratio::of_lengths(p.size.width, p.viewport.size.width),
                y: Ratio::of_lengths(p.size.height, p.viewport.size.height),
            },
        );
        out.push(Command::Transform { matrix: path.orientation.to_matrix() });
        assert(out@ =~= drawn + transform_commands(*p, path.orientation));
        draw_path(path, base, p.pixel_ratio, out);
        i += 1;
        proof {
            let next = paths@.take(i as int);
            assert(next.drop_last() =~= paths@.take(i - 1));
            assert(next.last() == *path);
            assert(out@ =~= before + content_commands(*p, next, base));
        }
    }
    assert(paths@.take(i as int) =~= paths@);
}

/// Appends a copy of `effects`.
pub(crate) fn append_effects(effects: &Vec<Command>, out: &mut Vec<Command>)
    ensures
        final(out)@ == old(out)@ + effects@,
{
    let ghost before = out@;
    let mut i: usize = 0;
    while i < effects.len()
        invariant
            i <= effects.len(),
            out@ == before + effects@.take(i as int),
        decreases effects.len() - i,
    {
        out.push(effects[i]);
        i += 1;
        assert(out@ =~= before + effects@.take(i as int));
    }
    assert(effects@.take(i as int) =~= effects@);
}

/// Draws a dynamic object as it was just resolved, in the frame on
/// `surface`: appends to `out` the drawing it did on its own, the return to
/// `surface`, and its paths at the position of `orientation`.
pub fn draw_rendered(
    p: &Projection,
    surface: ImageHandle,
    orientation: Transform2D,
    rendering: &Rendering,
    out: &mut Vec<Command>,
)
    ensures
        final(out)@ == old(out)@ + rendered_commands(
            *p,
            surface,
            Resolution {
                orientation,
                effects: rendering.effects@,
                content: rendering.content@,
            },
        ),
{
    let ghost before = out@;
    append_effects(&rendering.effects, out);
    out.push(Command::Target { surface });
    draw_content(p, &rendering.content, orientation.position, out);
    assert(out@ =~= before + (rendering.effects@ + seq![Command::Target { surface }]
        + content_commands(*p, rendering.content@, orientation.position)));
}

/// An ordered collection of scene objects with the state that maps them onto
/// a surface.
pub struct Frame<D> {
    surface: ImageHandle,
    contents: Vec<Object2D<D>>,
    pixel_ratio: PixelRatio,
    viewport: Rect2D,
    size: Size2D,
}

impl<D> Frame<D> {
    /// The objects of the frame, from the back to the front.
    pub closed spec fn objects(self) -> Seq<Object2D<D>> {
        self.contents@
    }

    /// The surface that the frame is drawn on.
    pub closed spec fn surface(self) -> ImageHandle {
        self.surface
    }

    /// The viewport, the size and the pixel ratio of the frame.
    pub closed spec fn projection(self) -> Projection {
        Projection { viewport: self.viewport, size: self.size, pixel_ratio: self.pixel_ratio }
    }

    /// What a draw of the frame emits where its objects come to `resolved`.
    pub open spec fn emits(self, resolved: Seq<Resolution>) -> Seq<Command> {
        draw_commands(self.projection(), self.surface(), self.objects(), resolved)
    }

    /// A fresh frame on `surface`: no objects, no size, an empty viewport at
    /// the origin.
    pub fn new(surface: ImageHandle, pixel_ratio: PixelRatio) -> (frame: Frame<D>)
        ensures
            frame.objects() == Seq::<Object2D<D>>::empty(),
            frame.surface() == surface,
            frame.projection() == (Projection {
                viewport: Rect2D {
                    position: Point2D { x: 0, y: 0 },
                    size: Size2D { width: 0, height: 0 },
                },
                size: Size2D { width: 0, height: 0 },
                pixel_ratio,
            }),
    {
        Frame {
            surface,
            contents: Vec::new(),
            pixel_ratio,
            viewport: Rect2D::new(0, 0, 0, 0),
            size: Size2D { width: 0, height: 0 },
        }
    }

    /// Puts `object` in front of the others.
    pub fn add(&mut self, object: Object2D<D>)
        ensures
            final(self).objects() == old(self).objects().push(object),
            final(self).surface() == old(self).surface(),
            final(self).projection() == old(self).projection(),
    {
        self.contents.push(object);
    }

    /// Shows `viewport` from the next draw on.
    pub fn set_viewport(&mut self, viewport: Rect2D)
        ensures
            final(self).projection() == (Projection { viewport, ..old(self).projection() }),
            final(self).objects() == old(self).objects(),
            final(self).surface() == old(self).surface(),
    {
        self.viewport = viewport;
    }

    /// Gives the frame a new size, and returns what gives its surface the
    /// same size in device pixels.
    pub fn resize(&mut self, size: Size2D) -> (c: Command)
        ensures
            final(self).projection() == (Projection { size, ..old(self).projection() }),
            final(self).objects() == old(self).objects(),
            final(self).surface() == old(self).surface(),
            c == (Command::ResizeSurface {
                surface: old(self).surface(),
                width: old(self).projection().pixel_ratio.scaled(size.width as int),
                height: old(self).projection().pixel_ratio.scaled(size.height as int),
            }),
    {
        self.size = size;
        Command::ResizeSurface {
            surface: self.surface,
            width: self.pixel_ratio.scale_length(size.width),
            height: self.pixel_ratio.scale_length(size.height),
        }
    }

    /// The current size.
    pub fn get_size(&self) -> (size: Size2D)
        ensures
            size == self.projection().size,
    {
        self.size
    }

    /// The handle of the surface that the frame is drawn on.
    pub fn get_surface(&self) -> (surface: ImageHandle)
        ensures
            surface == self.surface(),
    {
        self.surface
    }

    /// The current viewport.
    pub fn get_viewport(&self) -> (viewport: Rect2D)
        ensures
            viewport == self.projection().viewport,
    {
        self.viewport
    }

    /// The pixel ratio that the frame was made with.
    pub fn get_pixel_ratio(&self) -> (ratio: PixelRatio)
        ensures
            ratio == self.projection().pixel_ratio,
    {
        self.pixel_ratio
    }

    /// The number of objects in the frame.
    pub fn len(&self) -> (n: usize)
        ensures
            n == self.objects().len(),
    {
        self.contents.len()
    }

    /// The path that shows this frame in another: a closed rectangle of the
    /// frame's size, filled with the image of its surface.
    pub fn outline_path(&self) -> (path: Path)
        ensures
            is_frame_path(path, self.surface(), self.projection().size),
    {
        let size = self.size;
        let mut segments: Vec<Segment2D> = Vec::new();
        segments.push(Segment2D::LineTo(Point2D { x: 0, y: 0 }));
        segments.push(Segment2D::LineTo(Point2D { x: 0, y: size.height as i64 }));
        segments.push(Segment2D::LineTo(Point2D { x: size.width as i64, y: size.height as i64 }));
        segments.push(Segment2D::LineTo(Point2D { x: size.width as i64, y: 0 }));
        assert(segments@ =~= frame_outline(size));
        Path {
            orientation: Transform2D::identity(),
            segments,
            closed: true,
            fill: Some(Fill { content: VectorTexture::Image(self.surface) }),
            stroke: None,
            shadow: None,
        }
    }
}

/// Whether a dynamic object may have come to `r`: it may stand so, and may
/// have rendered so. A static object is not asked.
pub open spec fn admits<D: DynamicObject2D>(object: Object2D<D>, r: Resolution) -> bool {
    match object {
        Object2D::Static(_) => true,
        Object2D::Dynamic(d) => d.stands(r.orientation) && d.renders(r.effects, r.content),
    }
}

impl<D: DynamicObject2D> Frame<D> {
    /// Whether the objects of the frame may have come to `resolved`: there
    /// is one resolution for each object, which the object admits.
    pub open spec fn resolves(self, resolved: Seq<Resolution>) -> bool {
        &&& resolved.len() == self.objects().len()
        &&& forall|i: int|
            0 <= i < resolved.len() ==> admits(self.objects()[i], #[trigger] resolved[i])
    }

    /// Whether `commands` is a draw of the frame: what the frame emits where
    /// its objects come to what they may come to, each once.
    pub open spec fn is_draw(self, commands: Seq<Command>) -> bool {
        exists|resolved: Seq<Resolution>|
            self.resolves(resolved) && commands == #[trigger] self.emits(resolved)
    }

    /// Draws the frame: takes its surface, clears the viewport, then draws
    /// every object in the order in which it was added. A dynamic object is
    /// asked for its transform and its paths once, now; nothing of an earlier
    /// draw is used again.
    pub fn draw(&self) -> (out: Vec<Command>)
        ensures
            self.is_draw(out@),
    {
        let p = Projection {
            viewport: self.viewport,
            size: self.size,
            pixel_ratio: self.pixel_ratio,
        };
        let mut out: Vec<Command> = Vec::new();
        out.push(Command::Target { surface: self.surface });
        out.push(
            Command::ClearRect {
                x: p.pixel_ratio.scale(p.viewport.position.x),
                y: p.pixel_ratio.scale(p.viewport.position.y),
                width: p.pixel_ratio.scale_length(p.viewport.size.width),
                height: p.pixel_ratio.scale_length(p.viewport.size.height),
            },
        );
        let ghost head = out@;
        let ghost mut resolved: Seq<Resolution> = Seq::empty();
        let mut i: usize = 0;
        assert(self.contents@.take(0) =~= Seq::empty());
        while i < self.contents.len()
            invariant
                i <= self.contents.len(),
                resolved.len() == i,
                forall|j: int| 0 <= j < i ==> admits(self.contents@[j], #[trigger] resolved[j]),
                p == self.projection(),
                head == seq![Command::Target { surface: self.surface }, clear_command(p)],
                out@ == head + objects_commands(
                    p,
                    self.surface,
                    self.contents@.take(i as int),
                    resolved,
                ),
            decreases self.contents.len() - i,
        {
            let ghost drawn = out@;
            let ghost earlier = resolved;
            match &self.contents[i] {
                Object2D::Static(object) => {
                    draw_content(&p, &object.content, object.orientation.position, &mut out);
                    proof {
                        resolved = resolved.push(
                            Resolution {
                                orientation: object.orientation,
                                effects: Seq::empty(),
                                content: object.content@,
                            },
                        );
                    }
                },
                Object2D::Dynamic(object) => {
                    let orientation = object.orientation();
                    let rendering = object.render();
                    draw_rendered(&p, self.surface, orientation, &rendering, &mut out);
                    proof {
                        resolved = resolved.push(
                            Resolution {
                                orientation,
                                effects: rendering.effects@,
                                content: rendering.content@,
                            },
                        );
                    }
                },
            }
            i += 1;
            proof {
                let next = self.contents@.take(i as int);
                assert(next.drop_last() =~= self.contents@.take(i - 1));
                assert(resolved.drop_last() =~= earlier);
                assert(next.last() == self.contents@[i - 1]);
                assert(out@ == drawn + object_commands(
                    p,
                    self.surface,
                    next.last(),
                    resolved.last(),
                ));
                assert(out@ =~= head + objects_commands(p, self.surface, next, resolved));
            }
        }
        proof {
            assert(self.contents@.take(i as int) =~= self.contents@);
            assert(self.resolves(resolved));
            assert(out@ == self.emits(resolved));
        }
        out
    }

    /// Draws the frame and returns, with what the draw emits, the handle of
    /// the surface that then holds the picture.
    pub fn to_image(&self) -> (r: (Vec<Command>, ImageHandle))
        ensures
            self.is_draw(r.0@),
            r.1 == self.surface(),
    {
        let out = self.draw();
        (out, self.surface)
    }
}

impl<D: DynamicObject2D> DynamicObject2D for Frame<D> {
    /// A frame stands under the identity only.
    open spec fn stands(&self, orientation: Transform2D) -> bool {
        orientation == Transform2D::spec_identity()
    }

    /// A frame hands over one full draw of itself and the one path that
    /// shows its surface.
    open spec fn renders(&self, effects: Seq<Command>, content: Seq<Path>) -> bool {
        &&& self.is_draw(effects)
        &&& content.len() == 1
        &&& is_frame_path(content[0], self.surface(), self.projection().size)
    }

    /// A frame stands where its parent puts it: its transform is the
    /// identity.
    fn orientation(&self) -> (t: Transform2D) {
        Transform2D::identity()
    }

    /// One full draw of the frame, and the path that shows its surface.
    fn render(&self) -> (r: Rendering) {
        let effects = self.draw();
        let mut content: Vec<Path> = Vec::new();
        content.push(self.outline_path());
        Rendering { effects, content }
    }
}

} // verus!

use std::cell::Cell;

use vector_canvas::command::{Command, PaintSlot};
use vector_canvas::driver::{tick, SizeObserver};
use vector_canvas::frame::{
    draw_content, draw_rendered, DynamicObject2D, Frame, Object2D, Projection, Rendering,
    StaticObject2D, Still,
};
use vector_canvas::geometry::{Matrix2D, PixelRatio, Point2D, Ratio, Rect2D, Size2D, Transform2D};
use vector_canvas::image::{export_image, import_image, Image, Texture2D};
use vector_canvas::paint::{Color, Fill, ImageHandle, Shadow, VectorTexture};
use vector_canvas::path::{Path, Segment2D};

fn whole(v: i128) -> Ratio {
    Ratio { numerator: v, denominator: 1 }
}

fn over(v: i128, d: u32) -> Ratio {
    Ratio { numerator: v, denominator: d }
}

fn pt(x: i64, y: i64) -> Point2D {
    Point2D { x, y }
}

fn red() -> Color {
    Color { r: 255, g: 0, b: 0, a: 255 }
}

fn identity_matrix() -> Matrix2D {
    Matrix2D { a: whole(1), b: whole(0), c: whole(0), d: whole(1), e: whole(0), f: whole(0) }
}

fn shift(e: Ratio, f: Ratio) -> Matrix2D {
    Matrix2D { a: whole(1), b: whole(0), c: whole(0), d: whole(1), e, f }
}

fn line(x: i64, y: i64) -> Path {
    Path {
        orientation: Transform2D::identity(),
        segments: vec![Segment2D::LineTo(pt(x, y))],
        closed: false,
        fill: None,
        stroke: None,
        shadow: None,
    }
}

fn red_square() -> Path {
    Path {
        orientation: Transform2D::identity(),
        segments: vec![
            Segment2D::LineTo(pt(0, 0)),
            Segment2D::LineTo(pt(0, 100)),
            Segment2D::LineTo(pt(100, 100)),
            Segment2D::LineTo(pt(100, 0)),
        ],
        closed: true,
        fill: Some(Fill { content: VectorTexture::Solid(red()) }),
        stroke: None,
        shadow: None,
    }
}

/// A dynamic object that counts how often it is rendered and draws a line
/// whose end moves with the count.
struct Counter {
    position: Point2D,
    renders: Cell<i64>,
    orientations: Cell<i64>,
}

impl Counter {
    fn at(position: Point2D) -> Counter {
        Counter { position, renders: Cell::new(0), orientations: Cell::new(0) }
    }
}

impl DynamicObject2D for Counter {
    fn orientation(&self) -> Transform2D {
        self.orientations.set(self.orientations.get() + 1);
        Transform2D::at(self.position)
    }

    fn render(&self) -> Rendering {
        self.renders.set(self.renders.get() + 1);
        Rendering { effects: vec![], content: vec![line(self.renders.get(), 0)] }
    }
}

fn frame_of(extent: u32, ratio: PixelRatio) -> Frame<Counter> {
    let mut frame = Frame::new(ImageHandle { id: 1 }, ratio);
    frame.resize(Size2D { width: extent, height: extent });
    frame.set_viewport(Rect2D::new(extent, extent, 0, 0));
    frame
}

fn square_draw(extent: i128, den: u32) -> Vec<Command> {
    vec![
        Command::Target { surface: ImageHandle { id: 1 } },
        Command::ClearRect { x: whole(0), y: whole(0), width: whole(extent), height: whole(extent) },
        Command::SetTransform { matrix: identity_matrix() },
        Command::Scale { x: over(extent, den), y: over(extent, den) },
        Command::Transform { matrix: identity_matrix() },
        Command::BeginPath,
        Command::ShadowBlur { blur: 0 },
            Command::ShadowColor { color: Color { r: 0, g: 0, b: 0, a: 0 } },
            Command::ShadowOffsetX { offset: 0 },
            Command::ShadowOffsetY { offset: 0 },
        Command::MoveTo { x: whole(0), y: whole(0) },
        Command::LineTo { x: whole(0), y: whole(0) },
        Command::LineTo { x: whole(0), y: whole(100) },
        Command::LineTo { x: whole(100), y: whole(100) },
        Command::LineTo { x: whole(100), y: whole(0) },
        Command::ClosePath,
        Command::StyleColor { slot: PaintSlot::Fill, color: red() },
        Command::Fill,
    ]
}

#[test]
fn fresh_frame_is_empty() {
    let frame: Frame<Counter> = Frame::new(ImageHandle { id: 3 }, PixelRatio { numerator: 2, denominator: 1 });
    assert_eq!(frame.len(), 0);
    assert_eq!(frame.get_surface(), ImageHandle { id: 3 });
    assert_eq!(frame.get_size(), Size2D { width: 0, height: 0 });
    assert_eq!(frame.get_viewport(), Rect2D::new(0, 0, 0, 0));
    assert_eq!(frame.get_pixel_ratio(), PixelRatio { numerator: 2, denominator: 1 });
    assert_eq!(
        frame.draw(),
        vec![
            Command::Target { surface: ImageHandle { id: 3 } },
            Command::ClearRect { x: whole(0), y: whole(0), width: whole(0), height: whole(0) },
        ]
    );
}

#[test]
fn red_square_scenario() {
    let mut frame = frame_of(100, PixelRatio::unit());
    frame.add(Object2D::Static(StaticObject2D {
        orientation: Transform2D::identity(),
        content: vec![red_square()],
    }));
    assert_eq!(frame.draw(), square_draw(100, 100));

    let resized = frame.resize(Size2D { width: 200, height: 200 });
    assert_eq!(
        resized,
        Command::ResizeSurface { surface: ImageHandle { id: 1 }, width: whole(200), height: whole(200) }
    );
    assert_eq!(frame.get_size(), Size2D { width: 200, height: 200 });
    assert_eq!(frame.get_viewport(), Rect2D::new(100, 100, 0, 0));
    let zoomed = frame.draw();
    assert_eq!(zoomed[1], Command::ClearRect { x: whole(0), y: whole(0), width: whole(100), height: whole(100) });
    assert_eq!(zoomed[3], Command::Scale { x: over(200, 100), y: over(200, 100) });

    frame.set_viewport(Rect2D::new(200, 200, 0, 0));
    assert_eq!(frame.draw(), square_draw(200, 200));
}

#[test]
fn resize_scales_surface_by_pixel_ratio() {
    let mut frame: Frame<Counter> = Frame::new(ImageHandle { id: 9 }, PixelRatio { numerator: 3, denominator: 2 });
    let c = frame.resize(Size2D { width: 10, height: 20 });
    assert_eq!(
        c,
        Command::ResizeSurface { surface: ImageHandle { id: 9 }, width: over(30, 2), height: over(60, 2) }
    );
    assert_eq!(frame.get_viewport(), Rect2D::new(0, 0, 0, 0));
}

#[test]
fn viewport_pan_shifts_the_translation() {
    let ratio = PixelRatio { numerator: 3, denominator: 1 };
    let mut frame = frame_of(50, ratio);
    frame.add(Object2D::Static(StaticObject2D {
        orientation: Transform2D::at(pt(4, 4)),
        content: vec![line(1, 2), line(3, 4)],
    }));
    frame.add(Object2D::Dynamic(Counter::at(pt(0, 0))));
    let before = frame.draw();
    frame.set_viewport(Rect2D::new(50, 50, 7, -2));
    let after = frame.draw();
    assert_eq!(before.len(), after.len());
    let mut seen = 0;
    for (b, a) in before.iter().zip(after.iter()) {
        match (b, a) {
            (Command::SetTransform { matrix: m }, Command::SetTransform { matrix: n }) => {
                assert_eq!(*m, shift(whole(0), whole(0)));
                assert_eq!(*n, shift(whole(-21), whole(6)));
                seen += 1;
            }
            (Command::ClearRect { .. }, Command::ClearRect { x, y, width, height }) => {
                assert_eq!((*x, *y, *width, *height), (whole(21), whole(-6), whole(150), whole(150)));
            }
            (Command::LineTo { .. }, Command::LineTo { .. }) => {}
            _ => assert_eq!(b, a),
        }
    }
    assert_eq!(seen, 3);
}

#[test]
fn zoom_is_size_over_viewport() {
    let mut frame: Frame<Counter> = Frame::new(ImageHandle { id: 1 }, PixelRatio::unit());
    frame.resize(Size2D { width: 300, height: 200 });
    frame.set_viewport(Rect2D::new(30, 0, 0, 0));
    frame.add(Object2D::Static(StaticObject2D {
        orientation: Transform2D::identity(),
        content: vec![line(1, 1)],
    }));
    let out = frame.draw();
    assert_eq!(out[3], Command::Scale { x: over(300, 30), y: over(200, 0) });
}

#[test]
fn objects_are_drawn_in_insertion_order() {
    let mut frame = frame_of(10, PixelRatio::unit());
    frame.add(Object2D::Static(StaticObject2D {
        orientation: Transform2D::at(pt(100, 0)),
        content: vec![line(1, 0), line(2, 0)],
    }));
    frame.add(Object2D::Static(StaticObject2D {
        orientation: Transform2D::at(pt(200, 0)),
        content: vec![line(3, 0)],
    }));
    assert_eq!(frame.len(), 2);
    let lines: Vec<Command> = frame
        .draw()
        .into_iter()
        .filter(|c| matches!(c, Command::LineTo { .. }))
        .collect();
    assert_eq!(
        lines,
        vec![
            Command::LineTo { x: whole(101), y: whole(100) },
            Command::LineTo { x: whole(102), y: whole(100) },
            Command::LineTo { x: whole(203), y: whole(200) },
        ]
    );
}

#[test]
fn path_orientation_is_applied_after_frame_transform() {
    let mut path = line(1, 1);
    path.orientation = Transform2D {
        position: pt(5, 6),
        a: whole(2),
        b: whole(0),
        c: whole(0),
        d: whole(2),
    };
    let p = Projection {
        viewport: Rect2D::new(10, 10, 1, 1),
        size: Size2D { width: 20, height: 20 },
        pixel_ratio: PixelRatio { numerator: 2, denominator: 1 },
    };
    let mut out = Vec::new();
    draw_content(&p, &vec![path], pt(0, 0), &mut out);
    assert_eq!(
        out[..3].to_vec(),
        vec![
            Command::SetTransform { matrix: shift(whole(-2), whole(-2)) },
            Command::Scale { x: over(20, 10), y: over(20, 10) },
            Command::Transform {
                matrix: Matrix2D { a: whole(2), b: whole(0), c: whole(0), d: whole(2), e: whole(5), f: whole(6) }
            },
        ]
    );
    assert_eq!(out[8], Command::MoveTo { x: whole(5), y: whole(6) });
    assert_eq!(out[9], Command::LineTo { x: whole(12), y: whole(14) });
    assert_eq!(out.len(), 10);
}

#[test]
fn dynamic_object_is_rendered_once_per_draw_and_occurrence() {
    let mut frame = frame_of(10, PixelRatio::unit());
    frame.add(Object2D::Dynamic(Counter::at(pt(0, 0))));
    frame.add(Object2D::Dynamic(Counter::at(pt(50, 0))));
    let first = frame.draw();
    let second = frame.draw();
    assert_ne!(first, second);
    let lines = |out: &Vec<Command>| -> Vec<Command> {
        out.iter().filter(|c| matches!(c, Command::LineTo { .. })).cloned().collect()
    };
    assert_eq!(
        lines(&first),
        vec![
            Command::LineTo { x: whole(1), y: whole(0) },
            Command::LineTo { x: whole(51), y: whole(50) },
        ]
    );
    assert_eq!(
        lines(&second),
        vec![
            Command::LineTo { x: whole(2), y: whole(0) },
            Command::LineTo { x: whole(52), y: whole(50) },
        ]
    );
}

#[test]
fn rendered_object_returns_to_the_surface_of_the_frame() {
    let p = Projection {
        viewport: Rect2D::new(1, 1, 0, 0),
        size: Size2D { width: 1, height: 1 },
        pixel_ratio: PixelRatio::unit(),
    };
    let rendering = Rendering { effects: vec![Command::Stroke, Command::Fill], content: vec![] };
    let mut out = vec![Command::BeginPath];
    draw_rendered(&p, ImageHandle { id: 5 }, Transform2D::identity(), &rendering, &mut out);
    assert_eq!(
        out,
        vec![
            Command::BeginPath,
            Command::Stroke,
            Command::Fill,
            Command::Target { surface: ImageHandle { id: 5 } },
        ]
    );
}

#[test]
fn to_image_draws_and_returns_the_surface() {
    let mut frame = frame_of(100, PixelRatio::unit());
    frame.add(Object2D::Static(StaticObject2D {
        orientation: Transform2D::identity(),
        content: vec![red_square()],
    }));
    let (commands, handle) = frame.to_image();
    assert_eq!(handle, ImageHandle { id: 1 });
    assert_eq!(commands, frame.draw());
    assert_eq!(commands, square_draw(100, 100));
    frame.add(Object2D::Static(StaticObject2D {
        orientation: Transform2D::identity(),
        content: vec![line(1, 1)],
    }));
    let (later, _) = frame.to_image();
    assert_eq!(later.len(), commands.len() + 10);
    assert_eq!(later[..commands.len()].to_vec(), commands);
}

#[test]
fn frame_renders_as_a_filled_rectangle_of_its_size() {
    let mut child: Frame<Counter> = Frame::new(ImageHandle { id: 2 }, PixelRatio::unit());
    child.resize(Size2D { width: 30, height: 40 });
    child.set_viewport(Rect2D::new(30, 40, 0, 0));
    assert_eq!(child.orientation(), Transform2D::identity());
    let rendering = child.render();
    assert_eq!(rendering.effects, child.draw());
    assert_eq!(
        rendering.content,
        vec![Path {
            orientation: Transform2D::identity(),
            segments: vec![
                Segment2D::LineTo(pt(0, 0)),
                Segment2D::LineTo(pt(0, 40)),
                Segment2D::LineTo(pt(30, 40)),
                Segment2D::LineTo(pt(30, 0)),
            ],
            closed: true,
            fill: Some(Fill { content: VectorTexture::Image(ImageHandle { id: 2 }) }),
            stroke: None,
            shadow: None,
        }]
    );
    assert_eq!(child.outline_path(), rendering.content[0]);
}

#[test]
fn nested_frame_is_redrawn_once_by_its_parent() {
    let mut child: Frame<Counter> = Frame::new(ImageHandle { id: 2 }, PixelRatio::unit());
    child.resize(Size2D { width: 10, height: 10 });
    child.set_viewport(Rect2D::new(10, 10, 0, 0));
    child.add(Object2D::Dynamic(Counter::at(pt(0, 0))));
    let mut parent: Frame<Frame<Counter>> = Frame::new(ImageHandle { id: 1 }, PixelRatio::unit());
    parent.resize(Size2D { width: 20, height: 20 });
    parent.set_viewport(Rect2D::new(20, 20, 0, 0));
    parent.add(Object2D::Dynamic(child));
    let out = parent.draw();
    let targets: Vec<Command> =
        out.iter().filter(|c| matches!(c, Command::Target { .. })).cloned().collect();
    assert_eq!(
        targets,
        vec![
            Command::Target { surface: ImageHandle { id: 1 } },
            Command::Target { surface: ImageHandle { id: 2 } },
            Command::Target { surface: ImageHandle { id: 2 } },
            Command::Target { surface: ImageHandle { id: 1 } },
        ]
    );
    assert_eq!(out.iter().filter(|c| matches!(c, Command::ClearRect { .. })).count(), 2);
    assert!(out.contains(&Command::LineTo { x: whole(1), y: whole(0) }));
    assert!(!out.contains(&Command::LineTo { x: whole(2), y: whole(0) }));
    assert!(out.contains(&Command::CreatePattern { image: ImageHandle { id: 2 } }));
    assert_eq!(out[out.len() - 1], Command::Fill);
    let again = parent.draw();
    assert!(again.contains(&Command::LineTo { x: whole(2), y: whole(0) }));
    assert!(!again.contains(&Command::LineTo { x: whole(1), y: whole(0) }));
}

#[test]
fn tick_takes_a_new_size_up_once() {
    let mut frame: Frame<Counter> = Frame::new(ImageHandle { id: 1 }, PixelRatio { numerator: 2, denominator: 1 });
    let mut observed = SizeObserver::new(Size2D { width: 64, height: 48 });
    assert!(observed.is_dirty());
    let out = tick(&mut frame, &mut observed);
    assert!(!observed.is_dirty());
    assert_eq!(frame.get_size(), Size2D { width: 64, height: 48 });
    assert_eq!(frame.get_viewport(), Rect2D::new(64, 48, 0, 0));
    assert_eq!(
        out,
        vec![
            Command::ResizeSurface { surface: ImageHandle { id: 1 }, width: whole(128), height: whole(96) },
            Command::Target { surface: ImageHandle { id: 1 } },
            Command::ClearRect { x: whole(0), y: whole(0), width: whole(128), height: whole(96) },
        ]
    );
    frame.set_viewport(Rect2D::new(10, 10, 5, 5));
    let out = tick(&mut frame, &mut observed);
    assert_eq!(frame.get_viewport(), Rect2D::new(10, 10, 5, 5));
    assert_eq!(
        out,
        vec![
            Command::Target { surface: ImageHandle { id: 1 } },
            Command::ClearRect { x: whole(10), y: whole(10), width: whole(20), height: whole(20) },
        ]
    );
    observed.set(Size2D { width: 7, height: 8 });
    assert!(observed.is_dirty());
    let out = tick(&mut frame, &mut observed);
    assert_eq!(out.len(), 3);
    assert_eq!(frame.get_viewport(), Rect2D::new(7, 8, 0, 0));
    assert!(!observed.is_dirty());
}

#[test]
fn observer_keeps_the_last_size() {
    let mut observed = SizeObserver::new(Size2D { width: 1, height: 2 });
    observed.set(Size2D { width: 3, height: 4 });
    assert_eq!(observed.get(), Size2D { width: 3, height: 4 });
    assert!(!observed.is_dirty());
    assert_eq!(observed.get(), Size2D { width: 3, height: 4 });
}

#[test]
fn image_import_and_export() {
    let image = Image {
        pixels: vec![red(); 6],
        shape: Texture2D { width: 3, height: 2 },
    };
    assert_eq!(
        import_image(&image, ImageHandle { id: 8 }),
        vec![
            Command::ResizeSurface { surface: ImageHandle { id: 8 }, width: whole(3), height: whole(2) },
            Command::Target { surface: ImageHandle { id: 8 } },
            Command::PutImageData { width: 3, height: 2, x: 0, y: 0 },
        ]
    );
    assert_eq!(
        export_image(ImageHandle { id: 8 }),
        Image { pixels: vec![], shape: Texture2D { width: 0, height: 0 } }
    );
}

#[test]
fn still_object_draws_nothing() {
    let still = Still {};
    assert_eq!(still.orientation(), Transform2D::identity());
    assert_eq!(still.render(), Rendering { effects: vec![], content: vec![] });
    let mut frame: Frame<Still> = Frame::new(ImageHandle { id: 1 }, PixelRatio::unit());
    frame.add(Object2D::Dynamic(Still {}));
    assert_eq!(
        frame.draw(),
        vec![
            Command::Target { surface: ImageHandle { id: 1 } },
            Command::ClearRect { x: whole(0), y: whole(0), width: whole(0), height: whole(0) },
            Command::Target { surface: ImageHandle { id: 1 } },
        ]
    );
}

#[test]
fn static_scene_needs_no_dynamic_type_of_its_own() {
    let mut frame: Frame<Still> = Frame::new(ImageHandle { id: 1 }, PixelRatio::unit());
    frame.resize(Size2D { width: 100, height: 100 });
    frame.set_viewport(Rect2D::new(100, 100, 0, 0));
    frame.add(Object2D::Static(StaticObject2D {
        orientation: Transform2D::identity(),
        content: vec![red_square()],
    }));
    assert_eq!(frame.draw(), square_draw(100, 100));
    assert_eq!(frame.draw(), frame.draw());
}

#[test]
fn shadow_of_one_path_is_cleared_for_the_next() {
    let shadow = Shadow { blur: 6, color: red(), offset: pt(3, -4) };
    let mut first = red_square();
    first.shadow = Some(shadow);
    let second = red_square();
    let mut frame: Frame<Still> = Frame::new(ImageHandle { id: 1 }, PixelRatio::unit());
    frame.add(Object2D::Static(StaticObject2D {
        orientation: Transform2D::identity(),
        content: vec![first, second],
    }));
    let out = frame.draw();
    let mut blur = None;
    let mut color = None;
    let mut offset = (None, None);
    let mut at_fill = Vec::new();
    for c in out {
        match c {
            Command::ShadowBlur { blur: b } => blur = Some(b),
            Command::ShadowColor { color: c } => color = Some(c),
            Command::ShadowOffsetX { offset: x } => offset.0 = Some(x),
            Command::ShadowOffsetY { offset: y } => offset.1 = Some(y),
            Command::Fill => at_fill.push((blur, color, offset)),
            _ => {}
        }
    }
    assert_eq!(
        at_fill,
        vec![
            (Some(6), Some(red()), (Some(3), Some(-4))),
            (Some(0), Some(Color { r: 0, g: 0, b: 0, a: 0 }), (Some(0), Some(0))),
        ]
    );
}

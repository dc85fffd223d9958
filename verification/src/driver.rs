//! What a host does once per tick: take up a new size, if one was observed,
//! and draw.

use vstd::prelude::*;
use crate::command::Command;
use crate::frame::{append_effects, DynamicObject2D, Frame, Projection};
use crate::geometry::{Point2D, Rect2D, Size2D};

verus! {

/// The size that the host last reported, with a mark that says whether it
/// has been taken up since.
pub struct SizeObserver {
    value: Size2D,
    dirty: bool,
}

impl SizeObserver {
    /// The size last reported.
    pub closed spec fn value(self) -> Size2D {
        self.value
    }

    /// Whether the size was reported after it was last taken up.
    pub closed spec fn dirty(self) -> bool {
        self.dirty
    }

    /// An observer that holds a first size, not yet taken up.
    pub fn new(size: Size2D) -> (o: SizeObserver)
        ensures
            o.value() == size,
            o.dirty(),
    {
        SizeObserver { value: size, dirty: true }
    }

    /// Reports a size.
    pub fn set(&mut self, size: Size2D)
        ensures
            final(self).value() == size,
            final(self).dirty(),
    {
        self.value = size;
        self.dirty = true;
    }

    /// Whether a size waits to be taken up.
    pub fn is_dirty(&self) -> (d: bool)
        ensures
            d == self.dirty(),
    {
        self.dirty
    }

    /// Takes the size up.
    pub fn get(&mut self) -> (size: Size2D)
        ensures
            size == old(self).value(),
            final(self).value() == old(self).value(),
            !final(self).dirty(),
    {
        self.dirty = false;
        self.value
    }
}

/// The projection of a frame that has just taken up `size`: it shows all of
/// itself.
pub open spec fn fitted(p: Projection, size: Size2D) -> Projection {
    Projection {
        viewport: Rect2D { position: Point2D { x: 0, y: 0 }, size },
        size,
        pixel_ratio: p.pixel_ratio,
    }
}

/// One tick. Where a size waits, the frame takes it up and shows all of
/// itself, and what resizes its surface is emitted first; then, in any case,
/// the frame is drawn. A size is taken up once.
pub fn tick<D: DynamicObject2D>(
    frame: &mut Frame<D>,
    observed: &mut SizeObserver,
) -> (out: Vec<Command>)
    ensures
        final(observed).value() == old(observed).value(),
        !final(observed).dirty(),
        final(frame).objects() == old(frame).objects(),
        final(frame).surface() == old(frame).surface(),
        old(observed).dirty() ==> {
            &&& final(frame).projection() == fitted(
                old(frame).projection(),
                old(observed).value(),
            )
            &&& out@.len() > 0
            &&& out@[0] == (Command::ResizeSurface {
                surface: old(frame).surface(),
                width: old(frame).projection().pixel_ratio.scaled(
                    old(observed).value().width as int,
                ),
                height: old(frame).projection().pixel_ratio.scaled(
                    old(observed).value().height as int,
                ),
            })
            &&& final(frame).is_draw(out@.skip(1))
        },
        !old(observed).dirty() ==> {
            &&& final(frame).projection() == old(frame).projection()
            &&& final(frame).is_draw(out@)
        },
{
    if observed.is_dirty() {
        let size = observed.get();
        let resized = frame.resize(size);
        frame.set_viewport(Rect2D::new(size.width, size.height, 0, 0));
        let drawn = frame.draw();
        let mut out: Vec<Command> = Vec::new();
        out.push(resized);
        append_effects(&drawn, &mut out);
        assert(out@.skip(1) =~= drawn@);
        out
    } else {
        frame.draw()
    }
}

} // verus!

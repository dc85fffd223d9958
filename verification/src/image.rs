//! The portable form of an image, and how it passes to and from the image
//! that a rasteriser holds.

use vstd::prelude::*;
use crate::command::Command;
use crate::geometry::Ratio;
use crate::paint::{Color, ImageHandle};

verus! {

/// The extent of an image in pixels.
#[derive(Clone, Copy, Debug, PartialEq, Eq, Structural)]
pub struct Texture2D {
    pub width: u32,
    pub height: u32,
}

/// An image as a buffer: its extent, and its pixels row by row, four
/// channels of eight bits each.
#[derive(Clone, Debug, PartialEq, Eq)]
pub struct Image {
    pub pixels: Vec<Color>,
    pub shape: Texture2D,
}

/// What prepares a surface for an image of extent `shape`: the surface gets
/// that extent, pixel for pixel, and blank image data of that extent is put
/// at its corner.
pub open spec fn import_commands(shape: Texture2D, surface: ImageHandle) -> Seq<Command> {
    seq![
        Command::ResizeSurface {
            surface,
            width: Ratio::whole(shape.width as int),
            height: Ratio::whole(shape.height as int),
        },
        Command::Target { surface },
        Command::PutImageData { width: shape.width, height: shape.height, x: 0, y: 0 },
    ]
}

/// Turns a portable image into an image on `surface`. Only the extent of the
/// image is taken over.
pub fn import_image(image: &Image, surface: ImageHandle) -> (out: Vec<Command>)
    ensures
        out@ == import_commands(image.shape, surface),
{
    let mut out: Vec<Command> = Vec::new();
    out.push(
        Command::ResizeSurface {
            surface,
            width: Ratio::from_whole(image.shape.width as i64),
            height: Ratio::from_whole(image.shape.height as i64),
        },
    );
    out.push(Command::Target { surface });
    out.push(
        Command::PutImageData { width: image.shape.width, height: image.shape.height, x: 0, y: 0 },
    );
    assert(out@ =~= import_commands(image.shape, surface));
    out
}

/// Turns the image behind a handle into a portable image. Pixels cannot be
/// read back: the result is the image without extent and without pixels.
pub fn export_image(handle: ImageHandle) -> (image: Image)
    ensures
        image.pixels@.len() == 0,
        image.shape == (Texture2D { width: 0, height: 0 }),
{
    Image { pixels: Vec::new(), shape: Texture2D { width: 0, height: 0 } }
}

} // verus!

//! Integer geometry: pixel positions, sizes and rectangles, and the
//! description of a rendered texture that is handed to the distortion
//! renderer.

use vstd::prelude::*;

verus! {

/// A position on the screen, in pixels.
#[derive(Debug, Copy, Clone, PartialEq, Eq, Structural)]
pub struct Vector2i {
    pub x: i32,
    pub y: i32,
}

/// A size on the screen, in pixels.
#[derive(Debug, Copy, Clone, PartialEq, Eq, Structural)]
pub struct Sizei {
    pub x: i32,
    pub y: i32,
}

/// An axis-aligned rectangle on the screen: a position and a size.
#[derive(Debug, Copy, Clone, PartialEq, Eq, Structural)]
pub struct Recti {
    pub pos: Vector2i,
    pub size: Sizei,
}

/// A rendered texture: its size, the viewport inside it that holds one
/// eye's image, and the rendering interface's handle for it.
#[derive(Debug, Copy, Clone)]
pub struct Texture {
    pub size: Sizei,
    pub viewport: Recti,
    pub texture: u32,
}

impl Texture {
    /// Describes a rendered texture from its dimensions, the viewport
    /// that holds the eye's image, and the rendering interface's handle.
    /// Each dimension is reduced to the driver's 32-bit pixel unit; one
    /// that already fits is kept as it is.
    pub fn new(
        width: isize,
        height: isize,
        viewport_x: isize,
        viewport_y: isize,
        viewport_width: isize,
        viewport_height: isize,
        opengl_texture: u32,
    ) -> (r: Texture)
        ensures
            r.size.x == width as i32,
            r.size.y == height as i32,
            r.viewport.pos.x == viewport_x as i32,
            r.viewport.pos.y == viewport_y as i32,
            r.viewport.size.x == viewport_width as i32,
            r.viewport.size.y == viewport_height as i32,
            r.texture == opengl_texture,
            i32::MIN <= width <= i32::MAX ==> r.size.x == width,
            i32::MIN <= height <= i32::MAX ==> r.size.y == height,
    {
        Texture {
            size: Sizei { x: width as i32, y: height as i32 },
            viewport: Recti {
                pos: Vector2i { x: viewport_x as i32, y: viewport_y as i32 },
                size: Sizei { x: viewport_width as i32, y: viewport_height as i32 },
            },
            texture: opengl_texture,
        }
    }
}

} // verus!

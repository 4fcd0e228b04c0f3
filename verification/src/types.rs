//! Common types: pixel sizes and rectangles, and audio buffer limits.

use vstd::prelude::*;

verus! {

/// Maximum number of audio channels per bus.
pub const MAX_CHANNELS: usize = 32;

/// Maximum number of audio buses (main + auxiliary).
pub const MAX_BUSES: usize = 16;

/// Maximum number of auxiliary buses (total buses minus the main bus).
pub const MAX_AUX_BUSES: usize = 15;

/// Size in pixels.
#[derive(Debug, Clone, Copy, PartialEq, Eq, Default, Structural)]
pub struct Size {
    /// Width in pixels.
    pub width: u32,
    /// Height in pixels.
    pub height: u32,
}

impl Size {
    /// Create a new size.
    pub fn new(width: u32, height: u32) -> (s: Self)
        ensures
            s == (Size { width, height }),
    {
        Size { width, height }
    }
}

/// Rectangle in pixels.
#[derive(Debug, Clone, Copy, PartialEq, Eq, Default, Structural)]
pub struct Rect {
    /// Left edge.
    pub left: i32,
    /// Top edge.
    pub top: i32,
    /// Right edge.
    pub right: i32,
    /// Bottom edge.
    pub bottom: i32,
}

/// The extent between two edges, or 0 when the far edge is not beyond the
/// near one.
pub open spec fn extent(near: i32, far: i32) -> u32 {
    if far - near > 0 { (far - near) as u32 } else { 0 }
}

impl Rect {
    /// Create a new rectangle.
    pub fn new(left: i32, top: i32, right: i32, bottom: i32) -> (r: Self)
        ensures
            r == (Rect { left, top, right, bottom }),
    {
        Rect { left, top, right, bottom }
    }

    /// The width (right - left), or 0 for an inverted rectangle.
    pub fn width(&self) -> (w: u32)
        requires
            i32::MIN <= self.right - self.left <= i32::MAX,
        ensures
            w == extent(self.left, self.right),
    {
        let d: i32 = self.right - self.left;
        if d > 0 {
            d as u32
        } else {
            0
        }
    }

    /// The height (bottom - top), or 0 for an inverted rectangle.
    pub fn height(&self) -> (h: u32)
        requires
            i32::MIN <= self.bottom - self.top <= i32::MAX,
        ensures
            h == extent(self.top, self.bottom),
    {
        let d: i32 = self.bottom - self.top;
        if d > 0 {
            d as u32
        } else {
            0
        }
    }

    /// The size of the rectangle.
    pub fn size(&self) -> (s: Size)
        requires
            i32::MIN <= self.right - self.left <= i32::MAX,
            i32::MIN <= self.bottom - self.top <= i32::MAX,
        ensures
            s == (Size { width: extent(self.left, self.right), height: extent(self.top, self.bottom) }),
    {
        Size { width: self.width(), height: self.height() }
    }

    /// The rectangle at the origin with the given size (each dimension
    /// converted to `i32` as Rust's `as` does).
    pub fn from_size(size: Size) -> (r: Self)
        ensures
            r == (Rect { left: 0, top: 0, right: size.width as i32, bottom: size.height as i32 }),
    {
        Rect { left: 0, top: 0, right: size.width as i32, bottom: size.height as i32 }
    }
}

/// A rectangle made from a size that fits in `i32` has that size again.
pub proof fn lemma_size_roundtrip(size: Size)
    requires
        size.width <= i32::MAX,
        size.height <= i32::MAX,
    ensures
        ({
            let r = Rect { left: 0, top: 0, right: size.width as i32, bottom: size.height as i32 };
            Size { width: extent(r.left, r.right), height: extent(r.top, r.bottom) } == size
        }),
{
}

} // verus!

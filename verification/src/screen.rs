//! Viewport rectangle in physical pixels.

use vstd::prelude::*;

verus! {

/// Region of a render target in physical pixels, together with the factor
/// that maps logical units to physical ones.
///
/// The scale factor is carried as the bit pattern of an IEEE-754 single
/// precision number; nothing in this crate interprets it.
#[derive(Debug, Clone, Copy, PartialEq, Eq, Structural)]
pub struct ScreenRect {
    pub x: u32,
    pub y: u32,
    pub width: u32,
    pub height: u32,
    pub scale_factor_bits: u32,
}

impl ScreenRect {
    /// Bit pattern of the scale factor one.
    pub const UNIT_SCALE_BITS: u32 = 0x3f80_0000;

    /// The empty rectangle at the origin, with scale factor one.
    pub fn zero() -> (rect: Self)
        ensures
            rect == (ScreenRect {
                x: 0,
                y: 0,
                width: 0,
                height: 0,
                scale_factor_bits: Self::UNIT_SCALE_BITS,
            }),
            rect.degenerate(),
    {
        Self { x: 0, y: 0, width: 0, height: 0, scale_factor_bits: Self::UNIT_SCALE_BITS }
    }

    pub fn new(x: u32, y: u32, width: u32, height: u32, scale_factor_bits: u32) -> (rect: Self)
        ensures
            rect == (ScreenRect { x, y, width, height, scale_factor_bits }),
    {
        Self { x, y, width, height, scale_factor_bits }
    }

    /// Physical origin.
    pub fn pos(&self) -> (pos: (u32, u32))
        ensures
            pos == (self.x, self.y),
    {
        (self.x, self.y)
    }

    /// Extent of the square spanned by the width: both components are the
    /// width. The height is read from the field.
    pub fn size(&self) -> (size: (u32, u32))
        ensures
            size == (self.width, self.width),
    {
        (self.width, self.width)
    }

    /// A rectangle is degenerate when both its width and its height are
    /// zero.
    pub open spec fn degenerate(self) -> bool {
        self.width == 0 && self.height == 0
    }

    /// Whether the rectangle is degenerate. Frames for such a viewport are
    /// skipped.
    pub fn is_none(&self) -> (none: bool)
        ensures
            none == self.degenerate(),
            none <==> self.width == 0 && self.height == 0,
    {
        self.width == 0 && self.height == 0
    }
}

} // verus!

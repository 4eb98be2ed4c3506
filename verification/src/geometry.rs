//! Sizes, positions and frame extents, all in whole pixels.
//!
//! A logical size and a scale factor are real numbers. Nothing in this crate
//! computes on them: they are carried as the bit patterns of doubles and handed
//! back, inside a [`HintSize`], to whoever owns the arithmetic.

use vstd::prelude::*;

verus! {

/// A size in physical pixels.
#[derive(Clone, Copy, Debug, PartialEq, Eq, Structural)]
pub struct PhysicalSize {
    pub width: u32,
    pub height: u32,
}

/// A position in physical pixels.
#[derive(Clone, Copy, Debug, PartialEq, Eq, Structural)]
pub struct PhysicalPosition {
    pub x: i32,
    pub y: i32,
}

/// A size in logical pixels: the bit patterns of two doubles.
#[derive(Clone, Copy, Debug, PartialEq, Eq, Structural)]
pub struct LogicalExtent {
    pub width: u64,
    pub height: u64,
}

/// A monitor's scale factor: the bit pattern of a double.
#[derive(Clone, Copy, Debug, PartialEq, Eq, Structural)]
pub struct ScaleFactor {
    pub bits: u64,
}

/// The number a logical size is to be multiplied by.
#[derive(Clone, Copy, Debug, PartialEq, Eq, Structural)]
pub enum Scale {
    /// A scale factor as it is.
    Factor(ScaleFactor),
    /// The quotient `new / old` of two scale factors.
    Ratio { new: ScaleFactor, old: ScaleFactor },
}

/// A size as an application states it.
#[derive(Clone, Copy, Debug, PartialEq, Eq, Structural)]
pub enum Size {
    Physical(PhysicalSize),
    Logical(LogicalExtent),
}

/// The integers that a scaled logical size is kept within.
#[derive(Clone, Copy, Debug, PartialEq, Eq, Structural)]
pub enum PixelRange {
    /// `i32::MIN ..= i32::MAX`.
    Signed,
    /// `0 ..= i32::MAX`.
    Unsigned,
}

/// One entry of a size hint.
#[derive(Clone, Copy, Debug, PartialEq, Eq, Structural)]
pub enum HintSize {
    /// Width and height in pixels.
    Pixels(i32, i32),
    /// `size` times `scale`, each side rounded to the nearest pixel and
    /// saturated to `range`. The multiplication is left to the receiver.
    Scaled { size: LogicalExtent, scale: Scale, range: PixelRange },
    /// `size`, which is in pixels, times `scale`, each side rounded to the
    /// nearest pixel and saturated to `i32`. The multiplication is left to
    /// the receiver.
    ScaledPixels { size: PhysicalSize, scale: Scale },
}

/// A dimension as a size hint holds it: `val`, or `i32::MAX` where it is larger.
pub open spec fn hint_dimension(val: u32) -> i32 {
    if val <= i32::MAX {
        val as i32
    } else {
        i32::MAX
    }
}

/// The size hint that stands for `size` under `scale`, each side within `range`.
pub open spec fn hint_size(size: Size, scale: Scale, range: PixelRange) -> HintSize {
    match size {
        Size::Physical(p) => HintSize::Pixels(hint_dimension(p.width), hint_dimension(p.height)),
        Size::Logical(l) => HintSize::Scaled { size: l, scale, range },
    }
}

/// The size hint that stands for `size` rescaled by `scale`: whatever unit
/// the size is in, it is multiplied.
pub open spec fn rescaled_hint(size: Size, scale: Scale) -> HintSize {
    match size {
        Size::Physical(p) => HintSize::ScaledPixels { size: p, scale },
        Size::Logical(l) => HintSize::Scaled { size: l, scale, range: PixelRange::Signed },
    }
}

/// `v` saturated to sixteen signed bits.
pub open spec fn saturate_i16(v: i32) -> i16 {
    if v < i16::MIN {
        i16::MIN
    } else if v > i16::MAX {
        i16::MAX
    } else {
        v as i16
    }
}

/// `v` saturated to thirty-two signed bits.
pub open spec fn saturate_i32(v: int) -> i32 {
    if v < i32::MIN {
        i32::MIN
    } else if v > i32::MAX {
        i32::MAX
    } else {
        v as i32
    }
}

/// `v` saturated to thirty-two unsigned bits.
pub open spec fn saturate_u32(v: int) -> u32 {
    if v < 0 {
        0u32
    } else if v > u32::MAX {
        u32::MAX
    } else {
        v as u32
    }
}

/// Casts a dimension into a hinted dimension, clamping if too large.
pub fn cast_dimension_to_hint(val: u32) -> (r: i32)
    ensures
        r == hint_dimension(val),
{
    if val <= 0x7fff_ffff {
        val as i32
    } else {
        i32::MAX
    }
}

/// Casts a physical size into a hinted size, side by side.
pub fn cast_physical_size_to_hint(size: PhysicalSize) -> (r: (i32, i32))
    ensures
        r == (hint_dimension(size.width), hint_dimension(size.height)),
{
    (cast_dimension_to_hint(size.width), cast_dimension_to_hint(size.height))
}

/// Casts a size into a hinted size. A physical size is clamped here; a logical
/// one is passed on with the scale it is to be multiplied by.
pub fn cast_size_to_hint(size: Size, scale: Scale) -> (r: HintSize)
    ensures
        r == hint_size(size, scale, PixelRange::Signed),
{
    match size {
        Size::Physical(p) => {
            let (w, h) = cast_physical_size_to_hint(p);
            HintSize::Pixels(w, h)
        },
        Size::Logical(l) => HintSize::Scaled { size: l, scale, range: PixelRange::Signed },
    }
}

/// Casts a size into a hinted size that is rescaled by `scale`. Physical and
/// logical sizes alike are passed on with the scale they are to be
/// multiplied by.
pub fn rescale_size_to_hint(size: Size, scale: Scale) -> (r: HintSize)
    ensures
        r == rescaled_hint(size, scale),
{
    match size {
        Size::Physical(p) => HintSize::ScaledPixels { size: p, scale },
        Size::Logical(l) => HintSize::Scaled { size: l, scale, range: PixelRange::Signed },
    }
}

/// Casts a size into a hinted size whose sides are not negative.
pub fn cast_size_to_unsigned_hint(size: Size, scale: Scale) -> (r: HintSize)
    ensures
        r == hint_size(size, scale, PixelRange::Unsigned),
{
    match size {
        Size::Physical(p) => {
            let (w, h) = cast_physical_size_to_hint(p);
            HintSize::Pixels(w, h)
        },
        Size::Logical(l) => HintSize::Scaled { size: l, scale, range: PixelRange::Unsigned },
    }
}

/// Narrows a coordinate to the sixteen bits of a protocol request, saturating.
pub fn clamp_to_i16(v: i32) -> (r: i16)
    ensures
        r == saturate_i16(v),
{
    if v < -32768 {
        i16::MIN
    } else if v > 32767 {
        i16::MAX
    } else {
        v as i16
    }
}

/// An axis-aligned rectangle; its right and lower edges belong to it.
#[derive(Clone, Copy, Debug, PartialEq, Eq, Structural)]
pub struct AaRect {
    pub x: i64,
    pub y: i64,
    pub width: i64,
    pub height: i64,
}

impl AaRect {
    /// Whether the point lies in the rectangle, edges included.
    pub open spec fn covers(self, x: int, y: int) -> bool {
        &&& self.x <= x <= self.x + self.width
        &&& self.y <= y <= self.y + self.height
    }

    /// The rectangle with the given origin and size.
    pub fn new(origin: (i32, i32), size: (u32, u32)) -> (r: AaRect)
        ensures
            r == (AaRect {
                x: origin.0 as i64,
                y: origin.1 as i64,
                width: size.0 as i64,
                height: size.1 as i64,
            }),
    {
        AaRect { x: origin.0 as i64, y: origin.1 as i64, width: size.0 as i64, height: size.1 as i64 }
    }

    /// Whether the point lies in the rectangle, edges included.
    pub fn contains_point(&self, x: i64, y: i64) -> (r: bool)
        ensures
            r == self.covers(x as int, y as int),
    {
        // The sums are taken in 128 bits, where they cannot overflow.
        let right: i128 = self.x as i128 + self.width as i128;
        let bottom: i128 = self.y as i128 + self.height as i128;
        x >= self.x && x as i128 <= right && y >= self.y && y as i128 <= bottom
    }
}

/// The thickness of a window's decorations on each side.
#[derive(Clone, Copy, Debug, PartialEq, Eq, Structural)]
pub struct FrameExtents {
    pub left: u32,
    pub right: u32,
    pub top: u32,
    pub bottom: u32,
}

/// How a window's frame extents were found.
#[derive(Clone, Copy, Debug, PartialEq, Eq, Structural)]
pub enum FrameExtentsHeuristicPath {
    /// The window manager reported them.
    Supported,
    /// Measured on a window that the window manager nests in a frame.
    UnsupportedNested,
    /// Measured as the window's own border.
    UnsupportedBordered,
}

/// Frame extents, with the way they were found.
#[derive(Clone, Copy, Debug, PartialEq, Eq, Structural)]
pub struct FrameExtentsHeuristic {
    pub frame_extents: FrameExtents,
    pub heuristic_path: FrameExtentsHeuristicPath,
}

impl FrameExtentsHeuristic {
    /// Where the surface lies inside the frame.
    pub open spec fn spec_surface_position(self) -> (i32, i32) {
        if self.heuristic_path != FrameExtentsHeuristicPath::UnsupportedBordered {
            (hint_dimension(self.frame_extents.left), hint_dimension(self.frame_extents.top))
        } else {
            (0i32, 0i32)
        }
    }

    /// The frame's position, given the surface's; saturating.
    pub open spec fn spec_inner_pos_to_outer(self, x: i32, y: i32) -> (i32, i32) {
        if self.heuristic_path != FrameExtentsHeuristicPath::UnsupportedBordered {
            (
                saturate_i32(x - self.frame_extents.left),
                saturate_i32(y - self.frame_extents.top),
            )
        } else {
            (x, y)
        }
    }

    /// The frame's size, given the surface's; saturating.
    pub open spec fn spec_surface_size_to_outer(self, width: u32, height: u32) -> (u32, u32) {
        (
            saturate_u32(width + saturate_u32(self.frame_extents.left + self.frame_extents.right)),
            saturate_u32(height + saturate_u32(self.frame_extents.top + self.frame_extents.bottom)),
        )
    }

    /// Where the surface lies inside the frame.
    pub fn surface_position(&self) -> (r: (i32, i32))
        ensures
            r == self.spec_surface_position(),
    {
        match self.heuristic_path {
            FrameExtentsHeuristicPath::UnsupportedBordered => (0, 0),
            _ => (
                cast_dimension_to_hint(self.frame_extents.left),
                cast_dimension_to_hint(self.frame_extents.top),
            ),
        }
    }

    /// The frame's position, given the surface's; saturating.
    pub fn inner_pos_to_outer(&self, x: i32, y: i32) -> (r: (i32, i32))
        ensures
            r == self.spec_inner_pos_to_outer(x, y),
    {
        match self.heuristic_path {
            FrameExtentsHeuristicPath::UnsupportedBordered => (x, y),
            _ => (
                sub_saturating(x, self.frame_extents.left),
                sub_saturating(y, self.frame_extents.top),
            ),
        }
    }

    /// The frame's size, given the surface's; saturating.
    pub fn surface_size_to_outer(&self, width: u32, height: u32) -> (r: (u32, u32))
        ensures
            r == self.spec_surface_size_to_outer(width, height),
    {
        let across = add_saturating(self.frame_extents.left, self.frame_extents.right);
        let down = add_saturating(self.frame_extents.top, self.frame_extents.bottom);
        (add_saturating(width, across), add_saturating(height, down))
    }
}

/// `a - b`, saturated to thirty-two signed bits.
pub fn sub_saturating(a: i32, b: u32) -> (r: i32)
    ensures
        r == saturate_i32(a - b),
{
    let d: i64 = a as i64 - b as i64;
    if d < -2147483648 {
        i32::MIN
    } else {
        d as i32
    }
}

/// `a + b`, saturated to thirty-two signed bits.
pub fn offset_saturating(a: i32, b: i32) -> (r: i32)
    ensures
        r == saturate_i32(a + b),
{
    let d: i64 = a as i64 + b as i64;
    if d < -2147483648 {
        i32::MIN
    } else if d > 2147483647 {
        i32::MAX
    } else {
        d as i32
    }
}

/// `a + b`, saturated to thirty-two unsigned bits.
pub fn add_saturating(a: u32, b: u32) -> (r: u32)
    ensures
        r == saturate_u32(a + b),
{
    let d: u64 = a as u64 + b as u64;
    if d > 4294967295 {
        u32::MAX
    } else {
        d as u32
    }
}

} // verus!

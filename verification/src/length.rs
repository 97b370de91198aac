//! Lengths, sizes, padding and the resolution of a sizing policy against the
//! limits offered by a host.

use vstd::prelude::*;

verus! {

/// How a box claims space along one axis.
#[derive(Clone, Copy, Debug, PartialEq, Eq, Structural)]
pub enum Length {
    /// Take all the space on offer.
    Fill,
    /// Take a weighted share of the space on offer. The host divides the
    /// space among siblings; the share that it hands down is the maximum of
    /// the limits.
    FillPortion(u16),
    /// Take as little space as the content needs.
    Shrink,
    /// Take a fixed number of units, as far as the limits allow.
    Fixed(u32),
}

/// A width and a height, in layout units.
#[derive(Clone, Copy, Debug, PartialEq, Eq, Structural)]
pub struct Size {
    pub width: u32,
    pub height: u32,
}

/// The inset around the content of a box, in layout units.
#[derive(Clone, Copy, Debug, PartialEq, Eq, Structural)]
pub struct Padding {
    pub top: u32,
    pub right: u32,
    pub bottom: u32,
    pub left: u32,
}

/// The smallest and the largest size that a host offers.
#[derive(Clone, Copy, Debug, PartialEq, Eq, Structural)]
pub struct Limits {
    pub min: Size,
    pub max: Size,
}

/// `value` brought into `min..=max`; where the two bounds cross, `min` wins.
pub open spec fn spec_clamp(value: int, min: int, max: int) -> int {
    let capped = if value < max { value } else { max };
    if capped > min { capped } else { min }
}

/// The extent that `length` resolves to along one axis with bounds `min` and
/// `max`, for content of extent `intrinsic`.
pub open spec fn spec_resolve_axis(length: Length, min: int, max: int, intrinsic: int) -> int {
    match length {
        Length::Fill | Length::FillPortion(_) => max,
        Length::Fixed(amount) => spec_clamp(amount as int, min, max),
        Length::Shrink => spec_clamp(intrinsic, min, max),
    }
}

impl Size {
    /// The size with no extent.
    pub fn zero() -> (size: Size)
        ensures
            size.width == 0,
            size.height == 0,
    {
        Size { width: 0, height: 0 }
    }

    pub fn new(width: u32, height: u32) -> (size: Size)
        ensures
            size.width == width,
            size.height == height,
    {
        Size { width, height }
    }
}

impl Padding {
    /// No padding on any side.
    pub fn zero() -> (padding: Padding)
        ensures
            padding.top == 0,
            padding.right == 0,
            padding.bottom == 0,
            padding.left == 0,
    {
        Padding { top: 0, right: 0, bottom: 0, left: 0 }
    }

    /// The same padding on all four sides.
    pub fn new(amount: u32) -> (padding: Padding)
        ensures
            padding.top == amount,
            padding.right == amount,
            padding.bottom == amount,
            padding.left == amount,
    {
        Padding { top: amount, right: amount, bottom: amount, left: amount }
    }

    /// Left and right padding together.
    pub open spec fn spec_horizontal(self) -> int {
        self.left + self.right
    }

    /// Top and bottom padding together.
    pub open spec fn spec_vertical(self) -> int {
        self.top + self.bottom
    }

    pub fn horizontal(self) -> (total: u64)
        ensures
            total == self.spec_horizontal(),
    {
        self.left as u64 + self.right as u64
    }

    pub fn vertical(self) -> (total: u64)
        ensures
            total == self.spec_vertical(),
    {
        self.top as u64 + self.bottom as u64
    }
}

/// `value` brought into `min..=max`; where the two bounds cross, `min` wins.
pub fn clamp(value: u32, min: u32, max: u32) -> (clamped: u32)
    ensures
        clamped == spec_clamp(value as int, min as int, max as int),
{
    let capped: u32 = if value < max { value } else { max };
    if capped > min { capped } else { min }
}

/// Resolves one axis: a fill takes the maximum, a fixed length is clamped
/// into the bounds, and a shrinking box takes the content's extent, clamped
/// into the bounds.
pub fn resolve_axis(length: Length, min: u32, max: u32, intrinsic: u32) -> (extent: u32)
    ensures
        extent == spec_resolve_axis(length, min as int, max as int, intrinsic as int),
{
    match length {
        Length::Fill => max,
        Length::FillPortion(_) => max,
        Length::Fixed(amount) => clamp(amount, min, max),
        Length::Shrink => clamp(intrinsic, min, max),
    }
}

impl Limits {
    pub fn new(min: Size, max: Size) -> (limits: Limits)
        ensures
            limits.min == min,
            limits.max == max,
    {
        Limits { min, max }
    }

    /// The size that a box with the given policies takes within these limits.
    pub open spec fn spec_resolve(self, width: Length, height: Length, intrinsic: Size) -> Size {
        Size {
            width: spec_resolve_axis(
                width,
                self.min.width as int,
                self.max.width as int,
                intrinsic.width as int,
            ) as u32,
            height: spec_resolve_axis(
                height,
                self.min.height as int,
                self.max.height as int,
                intrinsic.height as int,
            ) as u32,
        }
    }

    /// Resolves the size of a box from its width and height policies and the
    /// size of its content.
    pub fn resolve(&self, width: Length, height: Length, intrinsic: Size) -> (size: Size)
        ensures
            size == self.spec_resolve(width, height, intrinsic),
    {
        Size {
            width: resolve_axis(width, self.min.width, self.max.width, intrinsic.width),
            height: resolve_axis(height, self.min.height, self.max.height, intrinsic.height),
        }
    }
}

} // verus!

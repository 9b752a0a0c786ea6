//! Sizes, positions and scale factors, all held as integers.
//!
//! Pointer positions arrive on the wire as 24.8 signed fixed-point numbers
//! and fractional scale factors as a numerator over 120, so both are kept in
//! exactly that form.

use vstd::prelude::*;

verus! {

/// A 24.8 signed fixed-point number: `raw` counts 256ths of a logical pixel.
#[derive(Debug, Clone, Copy, PartialEq, Eq, Structural, Hash)]
pub struct Fixed(pub i32);

impl Fixed {
    /// The fixed-point number that stands for a whole number of pixels, held
    /// exactly; none where it does not fit in 24 bits of integer part.
    pub fn from_pixels(pixels: i32) -> (fixed: Option<Fixed>)
        ensures
            fixed == if -8388608 <= pixels <= 8388607 {
                Some(Fixed((pixels * 256) as i32))
            } else {
                None::<Fixed>
            },
    {
        if -8388608 <= pixels && pixels <= 8388607 {
            Some(Fixed(pixels * 256))
        } else {
            None
        }
    }

    /// The sum of two fixed-point numbers, held at the ends of the range.
    pub fn saturating_add(self, other: Fixed) -> (sum: Fixed)
        ensures
            sum.0 == clamp_to_i32(self.0 + other.0),
    {
        let wide: i64 = self.0 as i64 + other.0 as i64;
        if wide > i32::MAX as i64 {
            Fixed(i32::MAX)
        } else if wide < i32::MIN as i64 {
            Fixed(i32::MIN)
        } else {
            Fixed(wide as i32)
        }
    }
}

/// `value`, or the end of the `i32` range that it lies beyond.
pub open spec fn clamp_to_i32(value: int) -> int {
    if value > i32::MAX {
        i32::MAX as int
    } else if value < i32::MIN {
        i32::MIN as int
    } else {
        value
    }
}

/// A point in logical pixels, in fixed-point form.
#[derive(Debug, Clone, Copy, PartialEq, Eq, Structural, Hash)]
pub struct Point {
    pub x: Fixed,
    pub y: Fixed,
}

/// A displacement in logical pixels, in fixed-point form.
#[derive(Debug, Clone, Copy, PartialEq, Eq, Structural, Hash)]
pub struct Vector {
    pub x: Fixed,
    pub y: Fixed,
}

/// A size in whole logical pixels.
#[derive(Debug, Clone, Copy, PartialEq, Eq, Structural, Hash)]
pub struct LogicalSize {
    pub width: u32,
    pub height: u32,
}

impl LogicalSize {
    pub fn new(width: u32, height: u32) -> (size: LogicalSize)
        ensures
            size == (LogicalSize { width, height }),
    {
        LogicalSize { width, height }
    }
}

/// A position in whole logical pixels.
#[derive(Debug, Clone, Copy, PartialEq, Eq, Structural, Hash)]
pub struct LogicalPosition {
    pub x: u32,
    pub y: u32,
}

/// A rectangle in whole logical pixels.
#[derive(Debug, Clone, Copy, PartialEq, Eq, Structural, Hash)]
pub struct Rectangle {
    pub x: i32,
    pub y: i32,
    pub width: i32,
    pub height: i32,
}

/// The denominator of every [`ScaleFactor`].
pub const SCALE_DENOMINATOR: u32 = 120;

/// A scale factor, as a numerator over 120: `ScaleFactor(120)` is 1.0 and
/// `ScaleFactor(180)` is 1.5.
#[derive(Debug, Clone, Copy, PartialEq, Eq, Structural, Hash)]
pub struct ScaleFactor(pub u32);

impl ScaleFactor {
    /// The scale factor that stands for a whole number, held at the top of
    /// the range.
    pub fn from_integer(factor: u32) -> (scale: ScaleFactor)
        ensures
            scale.0 == if factor * SCALE_DENOMINATOR > u32::MAX {
                u32::MAX as int
            } else {
                factor * SCALE_DENOMINATOR
            },
    {
        if factor > u32::MAX / SCALE_DENOMINATOR {
            ScaleFactor(u32::MAX)
        } else {
            ScaleFactor(factor * SCALE_DENOMINATOR)
        }
    }

    /// The whole part of the factor: what a buffer scale is set to.
    pub fn integer_part(self) -> (whole: u32)
        ensures
            whole == self.0 / SCALE_DENOMINATOR,
    {
        self.0 / SCALE_DENOMINATOR
    }
}

/// `value`, or one where it is zero: no surface has an empty dimension.
pub open spec fn at_least_one(value: u32) -> u32 {
    if value == 0 {
        1
    } else {
        value
    }
}

/// Collapses a zero dimension to one.
pub fn non_zero(value: u32) -> (dimension: u32)
    ensures
        dimension == at_least_one(value),
        dimension >= 1,
{
    if value == 0 {
        1
    } else {
        value
    }
}

} // verus!

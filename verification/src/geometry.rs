use vstd::prelude::*;

verus! {

/// Fixed-point denominator: coordinates, scale factors and scroll deltas
/// are all held in thousandths of their unit.
pub const SUBUNITS: u64 = 1000;

/// A scale factor of `SCALE_ONE` thousandths maps one physical pixel to
/// one logical point.
pub const SCALE_ONE: u32 = 1000;

/// Logical points added per whole scroll notch (line-based wheel events).
pub const POINTS_PER_NOTCH: i64 = 60;

/// Largest coordinate or delta magnitude, in thousandths, that the
/// conversions accept; large enough for any real screen, small enough
/// that the fixed-point arithmetic can never overflow.
pub const MAX_COORD_MILLI: i64 = 0x1_0000_0000_0000;

/// Physical-to-logical pixel ratio in thousandths (`1500` is a ratio
/// of one and a half physical pixels per logical point).
#[derive(Debug, Clone, Copy, PartialEq, Eq, Structural)]
pub struct ScaleFactor {
    pub millis: u32,
}

impl ScaleFactor {
    /// A ratio of zero would make logical coordinates undefined.
    pub open spec fn well_formed(self) -> bool {
        self.millis >= 1
    }
}

/// A drawable size in whole physical pixels.
#[derive(Debug, Clone, Copy, PartialEq, Eq, Structural)]
pub struct PhysicalSize {
    pub width: u32,
    pub height: u32,
}

/// A cursor position in thousandths of a physical pixel.
#[derive(Debug, Clone, Copy, PartialEq, Eq, Structural)]
pub struct PhysicalPosition {
    pub x: u64,
    pub y: u64,
}

impl PhysicalPosition {
    pub open spec fn well_formed(self) -> bool {
        self.x <= MAX_COORD_MILLI && self.y <= MAX_COORD_MILLI
    }
}

/// A position in thousandths of a logical point.
#[derive(Debug, Clone, Copy, PartialEq, Eq, Structural)]
pub struct LogicalPos {
    pub x: u64,
    pub y: u64,
}

/// A displacement in thousandths of a logical point.
#[derive(Debug, Clone, Copy, PartialEq, Eq, Structural)]
pub struct LogicalVec {
    pub x: i64,
    pub y: i64,
}

/// A size in thousandths of a logical point.
#[derive(Debug, Clone, Copy, PartialEq, Eq, Structural)]
pub struct LogicalSize {
    pub width: u64,
    pub height: u64,
}

/// Physical thousandths divided by the scale factor, truncated toward
/// zero: the logical coordinate in thousandths of a point.
pub open spec fn spec_to_logical(phys_milli: int, scale_millis: int) -> int {
    if phys_milli >= 0 {
        (phys_milli * SUBUNITS) / scale_millis
    } else {
        -(((-phys_milli) * SUBUNITS) / scale_millis)
    }
}

/// Converts a non-negative physical coordinate (thousandths of a pixel)
/// to a logical coordinate (thousandths of a point).
pub fn to_logical_milli(phys_milli: u64, scale: &ScaleFactor) -> (r: u64)
    requires
        scale.well_formed(),
        phys_milli <= MAX_COORD_MILLI,
    ensures
        r == spec_to_logical(phys_milli as int, scale.millis as int),
{
    phys_milli * SUBUNITS / (scale.millis as u64)
}

/// Converts a signed physical delta (thousandths of a pixel) to a logical
/// delta (thousandths of a point), truncating toward zero as the
/// floating-point division it stands in for would.
pub fn to_logical_delta(phys_milli: i64, scale: &ScaleFactor) -> (r: i64)
    requires
        scale.well_formed(),
        -MAX_COORD_MILLI <= phys_milli <= MAX_COORD_MILLI,
    ensures
        r == spec_to_logical(phys_milli as int, scale.millis as int),
{
    if phys_milli >= 0 {
        let scaled: u64 = (phys_milli as u64) * SUBUNITS / (scale.millis as u64);
        scaled as i64
    } else {
        let magnitude: u64 = (-phys_milli) as u64;
        let scaled: u64 = magnitude * SUBUNITS / (scale.millis as u64);
        -(scaled as i64)
    }
}

/// Converts a cursor position from physical to logical coordinates.
pub fn position_to_logical(pos: &PhysicalPosition, scale: &ScaleFactor) -> (r: LogicalPos)
    requires
        scale.well_formed(),
        pos.well_formed(),
    ensures
        r.x == spec_to_logical(pos.x as int, scale.millis as int),
        r.y == spec_to_logical(pos.y as int, scale.millis as int),
{
    LogicalPos {
        x: to_logical_milli(pos.x, scale),
        y: to_logical_milli(pos.y, scale),
    }
}

/// Scales a line-based scroll delta (thousandths of a notch) to logical
/// points (thousandths), at `POINTS_PER_NOTCH` points per whole notch.
pub fn line_delta_to_points(lines_milli: i64) -> (r: i64)
    requires
        -MAX_COORD_MILLI <= lines_milli <= MAX_COORD_MILLI,
    ensures
        r == lines_milli * POINTS_PER_NOTCH,
{
    lines_milli * POINTS_PER_NOTCH
}

} // verus!

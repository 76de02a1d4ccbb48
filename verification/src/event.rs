//! Raw input records and the normalised touch position.

use vstd::prelude::*;
use crate::ratio::Ratio;

verus! {

/// Type tag of an absolute-axis record.
pub const ABSOLUTE: u16 = 3;

/// Code of the horizontal absolute axis.
pub const ABS_X: u16 = 53;

/// Code of the vertical absolute axis.
pub const ABS_Y: u16 = 54;

/// One decoded record of the device: its type tag, its axis code and its
/// value in the device's own units.
#[derive(Debug, Clone, Copy, PartialEq, Eq, Structural)]
pub struct RawSample {
    pub kind: u16,
    pub code: u16,
    pub value: i32,
}

impl RawSample {
    /// Whether the record reports the horizontal absolute axis.
    pub open spec fn is_horizontal(self) -> bool {
        self.kind == ABSOLUTE && self.code == ABS_X
    }

    /// Whether the record reports the vertical absolute axis.
    pub open spec fn is_vertical(self) -> bool {
        self.kind == ABSOLUTE && self.code == ABS_Y
    }

    /// Whether the record reports one of the two axes that move the touch
    /// position.
    pub open spec fn is_recognized(self) -> bool {
        self.is_horizontal() || self.is_vertical()
    }
}

/// A fractional screen position.
#[derive(Debug, Clone, Copy, PartialEq, Eq, Structural)]
pub struct TouchEvent {
    pub pos_x: Ratio,
    pub pos_y: Ratio,
}

impl TouchEvent {
    /// The position before any sample has been seen: both coordinates zero.
    pub open spec fn origin() -> TouchEvent {
        TouchEvent { pos_x: Ratio::zero(), pos_y: Ratio::zero() }
    }
}

} // verus!

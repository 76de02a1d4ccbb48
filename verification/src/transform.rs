//! Coordinate formulas and their selection by screen rotation.
//!
//! A normalised coordinate is kept as an exact ratio of two integers: the
//! numerator comes from the raw axis value, the denominator is one of the
//! device's axis resolutions.

use vstd::prelude::*;
use crate::error::InputError;
use crate::event::{RawSample, TouchEvent, ABSOLUTE, ABS_X, ABS_Y};
use crate::ratio::Ratio;
use crate::rotation::ScreenRotation;

verus! {

/// Resolution of the device's horizontal axis, in raw units.
pub const X_RES: i64 = 8640;

/// Resolution of the device's vertical axis, in raw units.
pub const Y_RES: i64 = 15360;

/// One way of turning a raw axis value into a normalised coordinate.
#[derive(Debug, Clone, Copy, PartialEq, Eq, Structural)]
pub enum AxisFormula {
    /// `v / X_RES`
    OverXRes,
    /// `v / Y_RES`
    OverYRes,
    /// `(X_RES - v) / X_RES`
    MirroredOverXRes,
}

impl AxisFormula {
    /// The coordinate that the formula gives for a raw value.
    pub open spec fn eval(self, value: i32) -> Ratio {
        match self {
            AxisFormula::OverXRes => Ratio { num: value as i64, den: X_RES },
            AxisFormula::OverYRes => Ratio { num: value as i64, den: Y_RES },
            AxisFormula::MirroredOverXRes => Ratio { num: (X_RES - value) as i64, den: X_RES },
        }
    }

    /// Applies the formula to a raw value.
    pub fn apply(self, value: i32) -> (coordinate: Ratio)
        ensures
            coordinate == self.eval(value),
    {
        match self {
            AxisFormula::OverXRes => Ratio { num: value as i64, den: X_RES },
            AxisFormula::OverYRes => Ratio { num: value as i64, den: Y_RES },
            AxisFormula::MirroredOverXRes => Ratio { num: X_RES - value as i64, den: X_RES },
        }
    }
}

/// The formula that a rotation selects for raw horizontal values, if it
/// selects one.
pub open spec fn horizontal_formula(rotation: ScreenRotation) -> Option<AxisFormula> {
    match rotation {
        ScreenRotation::Deg_0 => Some(AxisFormula::OverXRes),
        ScreenRotation::Deg_CW90 => Some(AxisFormula::OverYRes),
        _ => None,
    }
}

/// The formula that a rotation selects for raw vertical values, if it
/// selects one.
pub open spec fn vertical_formula(rotation: ScreenRotation) -> Option<AxisFormula> {
    match rotation {
        ScreenRotation::Deg_0 => Some(AxisFormula::OverYRes),
        ScreenRotation::Deg_CW90 => Some(AxisFormula::MirroredOverXRes),
        _ => None,
    }
}

/// Selects the formula for raw horizontal values, or refuses the rotation.
pub fn formula_x(screen_rotation: ScreenRotation) -> (res: Result<AxisFormula, InputError>)
    ensures
        match horizontal_formula(screen_rotation) {
            Some(formula) => res == Ok::<AxisFormula, InputError>(formula),
            None => res == Err::<AxisFormula, InputError>(
                InputError::UnsupportedRotation { rotation: screen_rotation },
            ),
        },
{
    match screen_rotation {
        ScreenRotation::Deg_0 => Ok(AxisFormula::OverXRes),
        ScreenRotation::Deg_CW90 => Ok(AxisFormula::OverYRes),
        _ => Err(InputError::UnsupportedRotation { rotation: screen_rotation }),
    }
}

/// Selects the formula for raw vertical values, or refuses the rotation.
pub fn formula_y(screen_rotation: ScreenRotation) -> (res: Result<AxisFormula, InputError>)
    ensures
        match vertical_formula(screen_rotation) {
            Some(formula) => res == Ok::<AxisFormula, InputError>(formula),
            None => res == Err::<AxisFormula, InputError>(
                InputError::UnsupportedRotation { rotation: screen_rotation },
            ),
        },
{
    match screen_rotation {
        ScreenRotation::Deg_0 => Ok(AxisFormula::OverYRes),
        ScreenRotation::Deg_CW90 => Ok(AxisFormula::MirroredOverXRes),
        _ => Err(InputError::UnsupportedRotation { rotation: screen_rotation }),
    }
}

/// The pair of formulas resolved for one rotation, with the wiring of raw
/// axes to output coordinates. `fx` serves raw horizontal values and `fy` raw
/// vertical values; with `swap_axes` a horizontal value lands in the output's
/// y coordinate and a vertical value in its x coordinate.
#[derive(Debug, Clone, Copy, PartialEq, Eq, Structural)]
pub struct Transform {
    pub fx: AxisFormula,
    pub fy: AxisFormula,
    pub swap_axes: bool,
}

impl Transform {
    /// The transform that a rotation selects, if formulas are defined for it.
    pub open spec fn of_rotation(rotation: ScreenRotation) -> Option<Transform> {
        match (horizontal_formula(rotation), vertical_formula(rotation)) {
            (Some(fx), Some(fy)) => Some(
                Transform { fx, fy, swap_axes: rotation == ScreenRotation::Deg_CW90 },
            ),
            _ => None,
        }
    }

    /// The position that follows `position` once `sample` has been seen. A
    /// horizontal or vertical absolute-axis record replaces one coordinate;
    /// any other record leaves the position as it is.
    pub open spec fn update(self, position: TouchEvent, sample: RawSample) -> TouchEvent {
        if sample.is_horizontal() {
            if self.swap_axes {
                TouchEvent { pos_y: self.fx.eval(sample.value), ..position }
            } else {
                TouchEvent { pos_x: self.fx.eval(sample.value), ..position }
            }
        } else if sample.is_vertical() {
            if self.swap_axes {
                TouchEvent { pos_x: self.fy.eval(sample.value), ..position }
            } else {
                TouchEvent { pos_y: self.fy.eval(sample.value), ..position }
            }
        } else {
            position
        }
    }

    /// The position reached from `position` after all of `samples`, taken
    /// left to right.
    pub open spec fn fold(self, position: TouchEvent, samples: Seq<RawSample>) -> TouchEvent
        decreases samples.len(),
    {
        if samples.len() == 0 {
            position
        } else {
            self.update(self.fold(position, samples.drop_last()), samples.last())
        }
    }

    /// The positions dispatched for a batch: one per sample and in the
    /// samples' order, each the position reached once that sample has been
    /// seen.
    pub open spec fn dispatches(self, position: TouchEvent, samples: Seq<RawSample>) -> Seq<
        TouchEvent,
    > {
        Seq::new(samples.len(), |i: int| self.fold(position, samples.take(i + 1)))
    }

    /// Resolves the formulas of a rotation, or refuses the rotation.
    pub fn for_rotation(screen_rotation: ScreenRotation) -> (res: Result<Transform, InputError>)
        ensures
            match Transform::of_rotation(screen_rotation) {
                Some(transform) => res == Ok::<Transform, InputError>(transform),
                None => res == Err::<Transform, InputError>(
                    InputError::UnsupportedRotation { rotation: screen_rotation },
                ),
            },
    {
        let fx = match formula_x(screen_rotation) {
            Ok(formula) => formula,
            Err(error) => {
                return Err(error);
            },
        };
        let fy = match formula_y(screen_rotation) {
            Ok(formula) => formula,
            Err(error) => {
                return Err(error);
            },
        };
        let swap_axes = match screen_rotation {
            ScreenRotation::Deg_CW90 => true,
            _ => false,
        };
        Ok(Transform { fx, fy, swap_axes })
    }

    /// Moves a position by one raw sample.
    pub fn apply(&self, position: TouchEvent, sample: RawSample) -> (next: TouchEvent)
        ensures
            next == self.update(position, sample),
    {
        let mut next = position;
        if sample.kind == ABSOLUTE {
            if sample.code == ABS_X {
                let coordinate = self.fx.apply(sample.value);
                if self.swap_axes {
                    next.pos_y = coordinate;
                } else {
                    next.pos_x = coordinate;
                }
            } else if sample.code == ABS_Y {
                let coordinate = self.fy.apply(sample.value);
                if self.swap_axes {
                    next.pos_x = coordinate;
                } else {
                    next.pos_y = coordinate;
                }
            }
        }
        next
    }
}

} // verus!

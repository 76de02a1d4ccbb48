//! Errors surfaced to the caller.

use vstd::prelude::*;
use crate::rotation::ScreenRotation;
use crate::text::{decimal, decimal_string};

verus! {

/// Why a handler could not be constructed or its polling task not started.
#[derive(Debug, Clone, Copy, PartialEq, Eq, Structural)]
pub enum InputError {
    /// No enumerated device carries the requested identifiers.
    DeviceNotFound { vendor: u16, product: u16 },
    /// No coordinate formulas are defined for the rotation.
    UnsupportedRotation { rotation: ScreenRotation },
}

impl InputError {
    /// The diagnostic text of an error. Identifiers are written in decimal.
    pub open spec fn message_text(self) -> Seq<char> {
        match self {
            InputError::DeviceNotFound { vendor, product } => {
                "Could not open device with: vendor:"@ + decimal(vendor as nat) + ", product: "@
                    + decimal(product as nat)
            },
            InputError::UnsupportedRotation { rotation } => {
                "Unsupported screen rotation "@ + rotation.name_text()
            },
        }
    }

    /// Writes the diagnostic text of this error.
    pub fn message(&self) -> (text: String)
        ensures
            text@ == self.message_text(),
    {
        match self {
            InputError::DeviceNotFound { vendor, product } => {
                let mut text: String = "Could not open device with: vendor:".to_owned();
                let vendor_text = decimal_string(*vendor);
                text.append(vendor_text.as_str());
                text.append(", product: ");
                let product_text = decimal_string(*product);
                text.append(product_text.as_str());
                text
            },
            InputError::UnsupportedRotation { rotation } => {
                let mut text: String = "Unsupported screen rotation ".to_owned();
                text.append(rotation.name());
                text
            },
        }
    }
}

} // verus!

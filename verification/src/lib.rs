//! Normalised touch input for a vendor/product-identified absolute-axis device.
//!
//! The crate holds the decisions of a touch-input adapter: which enumerated
//! device a handler binds to, which coordinate formulas a screen rotation
//! selects, how a batch of raw samples is folded into touch positions, and
//! when a polling task may be started. Opening devices, blocking reads,
//! threads and the user's callback live with the caller, which feeds plain
//! values in and acts on the plain values that come back.

pub mod error;
pub mod event;
pub mod handler;
pub mod locator;
pub mod poller;
pub mod ratio;
pub mod rotation;
pub mod text;
pub mod transform;

pub use error::InputError;
pub use event::{RawSample, TouchEvent, ABSOLUTE, ABS_X, ABS_Y};
pub use handler::{HandlerState, InputHandler, PollingStart};
pub use locator::{locate, DeviceId};
pub use poller::{DeviceReadError, Poller, PollerState};
pub use rotation::ScreenRotation;
pub use ratio::Ratio;
pub use transform::{formula_x, formula_y, AxisFormula, Transform, X_RES, Y_RES};

//! A minimal data-representation layer for CAN (Controller Area Network) bus
//! traffic: a value type packing a CAN frame's identifier, flags, length code
//! and payload, an opaque error-code wrapper, and a generic wrapper that tags
//! a value with a timestamp.

use vstd::prelude::*;

pub mod can_error;
pub mod can_frame;
pub mod timestamped;

pub use can_error::CanError;
pub use can_error::CanErrorCategory;
pub use can_frame::CanFrame;
pub use timestamped::Timestamped;

verus! {

/// A timestamped CAN frame: the shape of one element of a frame stream.
pub type TCanFrame = Timestamped<CanFrame>;

/// A timestamped CAN error: the shape of one element of an error stream.
pub type TCanError = Timestamped<CanError>;

} // verus!

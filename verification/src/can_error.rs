//! An opaque wrapper around a 64-bit CAN bus-error bitmask, together with the
//! mapping from bit positions to named error categories.

use vstd::prelude::*;

verus! {

/// A raw 64-bit CAN bus-error code. The low bits select an error category
/// (bit 0: bit error, bit 1: bit-stuffing error, bit 2: form error,
/// bit 3: ACK error, bit 4: CRC error); any other pattern is unclassified.
/// Read-only after construction.
#[derive(Clone, Debug)]
pub struct CanError(pub u64);

/// The named error categories that a [`CanError`] bitmask can select,
/// decided by the lowest set bit among bits 0 to 4.
#[derive(Clone, Copy, Debug, PartialEq, Eq, Structural)]
pub enum CanErrorCategory {
    /// Bit 0: a transmitted bit was read back with the opposite value.
    Bit,
    /// Bit 1: more identical consecutive bits than bit stuffing allows.
    Stuffing,
    /// Bit 2: a fixed-form field held an illegal value.
    Form,
    /// Bit 3: no acknowledgement was received.
    Ack,
    /// Bit 4: the frame checksum did not match.
    Crc,
    /// No classified bit is set: an unclassified or internal error.
    Internal,
}

/// The category that a raw error code selects: the lowest set bit among
/// bits 0 to 4 decides; with none of them set the code is unclassified.
pub open spec fn spec_category(bits: u64) -> CanErrorCategory {
    if bits & 1 != 0 {
        CanErrorCategory::Bit
    } else if bits & 2 != 0 {
        CanErrorCategory::Stuffing
    } else if bits & 4 != 0 {
        CanErrorCategory::Form
    } else if bits & 8 != 0 {
        CanErrorCategory::Ack
    } else if bits & 16 != 0 {
        CanErrorCategory::Crc
    } else {
        CanErrorCategory::Internal
    }
}

impl CanError {
    /// The raw error code, exactly as stored.
    pub fn erno(&self) -> (bits: u64)
        ensures
            bits == self.0,
    {
        self.0
    }

    /// The named category that this code's bit pattern selects.
    pub fn category(&self) -> (c: CanErrorCategory)
        ensures
            c == spec_category(self.0),
    {
        if self.0 & 1 != 0 {
            CanErrorCategory::Bit
        } else if self.0 & 2 != 0 {
            CanErrorCategory::Stuffing
        } else if self.0 & 4 != 0 {
            CanErrorCategory::Form
        } else if self.0 & 8 != 0 {
            CanErrorCategory::Ack
        } else if self.0 & 16 != 0 {
            CanErrorCategory::Crc
        } else {
            CanErrorCategory::Internal
        }
    }
}

} // verus!

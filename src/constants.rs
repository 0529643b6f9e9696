//! Masks and bit counts of the two CAN identifier widths.
use vstd::prelude::*;

verus! {

/// The 11-bit mask of standard CAN-IDs.
pub const STANDARD_FRAME_ID_MASK: u32 = 0x7FFu32;

/// The number of bits of a standard CAN-ID.
pub const STANDARD_FRAME_ID_LENGTH: u32 = 11u32;

/// The 29-bit mask of extended CAN-IDs.
pub const EXTENDED_FRAME_ID_MASK: u32 = 0x1FFF_FFFFu32;

/// The number of bits of an extended CAN-ID.
pub const EXTENDED_FRAME_ID_LENGTH: u32 = 29u32;

} // verus!

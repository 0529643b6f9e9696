//! Value types for Controller Area Network (CAN) frames and the algebra of
//! identifier acceptance filters, with their behaviour proved by Verus.
pub mod constants;
pub mod filter;
pub mod frame;

pub use constants::{
    EXTENDED_FRAME_ID_LENGTH, EXTENDED_FRAME_ID_MASK, STANDARD_FRAME_ID_LENGTH,
    STANDARD_FRAME_ID_MASK,
};

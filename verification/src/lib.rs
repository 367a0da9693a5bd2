//! Bit-exact model of the RISC-V machine status register (`mstatus`).
//!
//! The field model decodes a raw register word into typed interrupt-enable
//! flags and privilege-mode fields, and encodes desired field values into the
//! masks consumed by the hardware's atomic set-bits / clear-bits instructions.
//! Mutation of the live register is never a read-modify-write sequence: every
//! update is a single mask handed to one atomic primitive.

pub mod bits;
pub mod register;

pub use bits::apply_clear_mask;
pub use bits::apply_set_mask;
pub use bits::decode_flag;
pub use bits::encode_flag;
pub use register::Mstatus;
pub use register::MPP;
pub use register::SPP;

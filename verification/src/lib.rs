//! Resident runtime of a CMSIS-Pack flash algorithm.
//!
//! A debug probe loads a flash algorithm into the RAM of a target and drives
//! it through a fixed set of entry points. This crate holds the parts of that
//! runtime that do not depend on the device: the decoding of the host's
//! function code, the mapping of outcomes to status words, the slot that owns
//! the single algorithm instance together with the guarded entry points, and
//! the construction of the device description that the host reads from the
//! image.

pub mod algorithm;
pub mod descriptor;
pub mod function;
pub mod slot;
pub mod status;

pub use algorithm::{EraseAll, FlashAlgorithm, Verify};
pub use descriptor::{
    arrayify_string, sector_table, DeviceConfig, DeviceType, FlashDeviceDescription, FlashSector,
};
pub use function::{Function, FUNCTION_ERASE, FUNCTION_PROGRAM, FUNCTION_VERIFY};
pub use slot::AlgorithmSlot;
pub use status::{status_code, ErrorCode, Outcome, STATUS_NOT_INITIALIZED, STATUS_OK};

//! The interface a device-specific flash algorithm implements.

use crate::function::Function;
use crate::status::ErrorCode;
use vstd::prelude::*;

verus! {

/// A flash algorithm for one device.
///
/// The entry points construct an instance when the host initializes the
/// algorithm and hand every later request to that instance. Nothing is
/// promised about what an operation returns or how it changes the instance:
/// that is for the device-specific implementation to decide.
pub trait FlashAlgorithm: Sized + 'static {
    /// Initializes the algorithm.
    ///
    /// * `address` - the start address of the flash region to work on.
    /// * `clock` - the clock speed of the device in Hertz.
    /// * `function` - the kind of operation that will follow.
    fn new(address: u32, clock: u32, function: Function) -> Result<Self, ErrorCode>;

    /// Erases the sector that starts at `address`.
    fn erase_sector(&mut self, address: u32) -> Result<(), ErrorCode>;

    /// Programs `data` into the page that starts at `address`.
    fn program_page(&mut self, address: u32, data: &[u8]) -> Result<(), ErrorCode>;
}

/// A flash algorithm that can erase the whole device at once.
pub trait EraseAll: FlashAlgorithm {
    /// Erases the entire chip.
    fn erase_all(&mut self) -> Result<(), ErrorCode>;
}

/// A flash algorithm that can check what has been programmed.
pub trait Verify: FlashAlgorithm {
    /// Verifies `size` bytes of flash from `address` on: against `data` where
    /// it is given, for being blank where it is not.
    fn verify(&mut self, address: u32, size: u32, data: Option<&[u8]>) -> Result<(), ErrorCode>;
}

} // verus!

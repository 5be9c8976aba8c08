//! EEPROM emulation: the address rules.
//!
//! EEPROM emulation uses a small (~1KiB) region of flash to persist data.
//! This module decides which accesses stay inside that region; the access
//! itself is made by the board's driver, and only where this module allows
//! it.

use vstd::prelude::*;

verus! {

/// Possible errors encountered when interacting with EEPROM.
#[non_exhaustive]
#[derive(Debug, Clone, Copy, PartialEq, Eq, Structural)]
pub enum EepromError {
    /// The operation extends beyond the EEPROM range.
    ///
    /// See [`EEPROM_CAPACITY`] for more information.
    OutOfRange,
}

/// The last valid EEPROM address.
pub const E2END: usize = 0x437;

/// The EEPROM capacity, in bytes.
///
/// Every address handed to the EEPROM must be less than this value.
pub const EEPROM_CAPACITY: usize = E2END + 1;

/// Whether the single address `addr` lies inside the EEPROM.
pub open spec fn scalar_in_range(addr: int) -> bool {
    addr <= E2END
}

/// Whether an access of `len` cells starting at `addr` stays inside the
/// EEPROM: it starts at a valid address and does not reach beyond the last
/// one. An empty access is in range exactly when its start is.
pub open spec fn slice_in_range(addr: int, len: int) -> bool {
    scalar_in_range(addr) && addr + len <= EEPROM_CAPACITY
}

/// Tells whether the one address `addr` lies inside the EEPROM.
pub fn bounds_check_scalar(addr: usize) -> (r: Result<(), EepromError>)
    ensures
        r is Ok <==> scalar_in_range(addr as int),
        r matches Err(e) ==> e == EepromError::OutOfRange,
{
    if addr > E2END {
        Err(EepromError::OutOfRange)
    } else {
        Ok(())
    }
}

/// Tells whether an access that starts at `addr` and covers all of `slice`
/// stays inside the EEPROM.
///
/// An empty slice is refused too where `addr` itself is out of range,
/// though there is nothing to read or write.
pub fn bounds_check_slice<T>(addr: usize, slice: &[T]) -> (r: Result<(), EepromError>)
    ensures
        r is Ok <==> slice_in_range(addr as int, slice@.len() as int),
        r matches Err(e) ==> e == EepromError::OutOfRange,
{
    match bounds_check_scalar(addr) {
        Err(e) => Err(e),
        Ok(()) => {
            // `addr` is at most `E2END` here, so a slice that fits the
            // EEPROM cannot take the sum beyond `usize`.
            let len = slice.len();
            if len > EEPROM_CAPACITY {
                Err(EepromError::OutOfRange)
            } else {
                let end = addr + len;
                let last = if end >= 1 {
                    end - 1
                } else {
                    0
                };
                bounds_check_scalar(last)
            }
        },
    }
}

} // verus!

//! Error types of the driver.
//!
//! Transport faults are a single kind: the bus either completed a transaction
//! or it did not, and no layer subdivides the cause. Decoding faults (a byte
//! that is not a legal encoding, a register file that does not hold a real
//! date) are a distinct, recoverable kind.

use vstd::prelude::*;

verus! {

/// A transport-level fault on the register bus: the transaction did not
/// complete. Every layer propagates it unchanged; there is no retry.
#[derive(Clone, Copy, Debug, PartialEq, Eq, Structural)]
pub struct BusError;

/// A fault of the driver as a whole: either the bus failed, or the device
/// returned data that does not decode (a weekday byte that is not one-hot,
/// a register file that does not hold a valid calendar date).
#[derive(Clone, Copy, Debug, PartialEq, Eq, Structural)]
pub enum Rx8900Error {
    /// The bus transaction failed.
    Bus,
    /// The device's data does not decode to a legal value.
    InvalidData,
}

} // verus!

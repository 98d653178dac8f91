//! The transactional addressed bus the chip sits on.
//!
//! The driver owns its bus handle exclusively for the life of the process:
//! one caller, no concurrent access. Multi-threaded use would need external
//! serialisation, because the read-modify-write sequences above this layer
//! are not atomic across their two transactions.
//!
//! The bus is modelled by the register file it reaches: a total map from
//! one-byte address to byte. A completed combined write-then-read returns
//! the byte at the selected address and changes nothing; a completed
//! two-byte write replaces exactly the byte at the selected address. A
//! failed transaction leaves the register file as it was and is reported
//! as [`BusError`].

use vstd::prelude::*;

use crate::error::BusError;

verus! {

/// The fixed 7-bit bus address of the chip.
pub const RX8900_ADDR: u8 = 0x32;

/// A transactional addressed serial bus with a single device on it.
///
/// `regs` is the device's register file as the bus reaches it. Both
/// transactions take the device address first; the model has one device, so
/// the register file does not depend on it.
pub trait I2cBus: Sized {
    /// The device's register file: the byte stored at each one-byte address.
    spec fn regs(&self) -> Map<u8, u8>;

    /// Combined write-then-read transaction: select register `reg` of the
    /// device at `device`, then read one byte from it.
    fn write_read(&mut self, device: u8, reg: u8) -> (r: Result<u8, BusError>)
        ensures
            final(self).regs() == old(self).regs(),
            r is Ok ==> r->Ok_0 == old(self).regs()[reg],
    ;

    /// Two-byte write transaction: select register `reg` of the device at
    /// `device` and store `data` in it.
    fn write_bytes(&mut self, device: u8, reg: u8, data: u8) -> (r: Result<(), BusError>)
        ensures
            r is Ok ==> final(self).regs() == old(self).regs().insert(reg, data),
            r is Err ==> final(self).regs() == old(self).regs(),
    ;
}

} // verus!

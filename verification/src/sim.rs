//! Simulated peripherals for driving the library without hardware.
//!
//! The simulated bus holds a full register file in memory and completes
//! every transaction, unless a fault is injected; it is the test double the
//! state machine and the driver run against. The simulated light and delay
//! record what was asked of them.

use vstd::prelude::*;

use crate::bus::I2cBus;
use crate::error::BusError;
use crate::indicator::DelayProvider;
use crate::indicator::StatusLeds;

verus! {

/// An in-memory bus with one simulated device: a byte for each of the 256
/// possible register addresses, all zero at the start. While `fail_next`
/// is set, every transaction fails without touching the register file.
pub struct SimBus {
    store: Vec<u8>,
    fail_next: bool,
}

impl SimBus {
    #[verifier::type_invariant]
    spec fn type_inv(self) -> bool {
        self.store@.len() == 256
    }

    /// Whether fault injection is currently switched on.
    pub closed spec fn spec_fail_next(&self) -> bool {
        self.fail_next
    }

    /// A simulated bus with every register zero.
    pub fn new() -> (r: SimBus)
        ensures
            forall|a: u8| r.regs()[a] == 0,
            !r.spec_fail_next(),
    {
        SimBus { store: vec![0u8; 256], fail_next: false }
    }

    /// Stores `data` at `addr` directly, bypassing the bus protocol: the
    /// simulated device's own state change (a ticking second, a dropped
    /// voltage) that no transaction caused.
    pub fn poke(&mut self, addr: u8, data: u8)
        ensures
            final(self).regs() == old(self).regs().insert(addr, data),
            final(self).spec_fail_next() == old(self).spec_fail_next(),
    {
        proof {
            use_type_invariant(&*self);
        }
        self.store[addr as usize] = data;
        proof {
            assert(self.regs() =~= old(self).regs().insert(addr, data));
        }
    }

    /// Reads the byte at `addr` directly, bypassing the bus protocol.
    pub fn peek(&self, addr: u8) -> (r: u8)
        ensures
            r == self.regs()[addr],
    {
        proof {
            use_type_invariant(self);
        }
        self.store[addr as usize]
    }

    /// Makes every following transaction fail until cleared.
    pub fn set_fail(&mut self, fail: bool)
        ensures
            final(self).regs() == old(self).regs(),
            final(self).spec_fail_next() == fail,
    {
        proof {
            use_type_invariant(&*self);
        }
        self.fail_next = fail;
        proof {
            assert(self.regs() =~= old(self).regs());
        }
    }
}

impl I2cBus for SimBus {
    closed spec fn regs(&self) -> Map<u8, u8> {
        Map::new(|a: u8| true, |a: u8| self.store@[a as int])
    }

    fn write_read(&mut self, device: u8, reg: u8) -> (r: Result<u8, BusError>) {
        proof {
            use_type_invariant(&*self);
        }
        if self.fail_next {
            Err(BusError)
        } else {
            Ok(self.store[reg as usize])
        }
    }

    fn write_bytes(&mut self, device: u8, reg: u8, data: u8) -> (r: Result<(), BusError>) {
        proof {
            use_type_invariant(&*self);
        }
        if self.fail_next {
            Err(BusError)
        } else {
            self.store[reg as usize] = data;
            proof {
                assert(self.regs() =~= old(self).regs().insert(reg, data));
            }
            Ok(())
        }
    }
}

/// A simulated two-colour light: remembers the last level driven on each
/// line.
pub struct SimLeds {
    pub red: bool,
    pub green: bool,
}

impl SimLeds {
    /// A simulated light with both lines low.
    pub fn new() -> (r: SimLeds)
        ensures
            !r.red_on(),
            !r.green_on(),
    {
        SimLeds { red: false, green: false }
    }
}

impl StatusLeds for SimLeds {
    open spec fn red_on(&self) -> bool {
        self.red
    }

    open spec fn green_on(&self) -> bool {
        self.green
    }

    fn set_red(&mut self, on: bool) {
        self.red = on;
    }

    fn set_green(&mut self, on: bool) {
        self.green = on;
    }
}

/// A simulated delay: waits for nothing and adds up the milliseconds it was
/// asked to wait, saturating at the counter's limit.
pub struct SimDelay {
    pub total_ms: u64,
}

impl SimDelay {
    /// A simulated delay with nothing waited yet.
    pub fn new() -> (r: SimDelay)
        ensures
            r.total_ms == 0,
    {
        SimDelay { total_ms: 0 }
    }
}

impl DelayProvider for SimDelay {
    fn delay_ms(&mut self, ms: u32) {
        if self.total_ms <= u64::MAX - ms as u64 {
            self.total_ms = self.total_ms + ms as u64;
        } else {
            self.total_ms = u64::MAX;
        }
    }
}

} // verus!

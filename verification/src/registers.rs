//! The register map of the chip.
//!
//! Thirty-two one-byte addresses in two banks: 0x00-0x0F is compatible with
//! the RX-8803, 0x10-0x1F is the extended bank. The meaning of each address
//! is fixed by the hardware; the day alarm and the week alarm share address
//! 0x0A.

use vstd::prelude::*;

verus! {

/// One register of the chip, tagged with its fixed one-byte address.
#[derive(Clone, Copy, Debug, PartialEq, Eq, Structural)]
pub enum RegisterTable {
    CompatibleSEC,
    CompatibleMIN,
    CompatibleHOUR,
    CompatibleWEEK,
    CompatibleDAY,
    CompatibleMONTH,
    CompatibleYEAR,
    CompatibleRAM,
    CompatibleMinAlarm,
    CompatibleHourAlarm,
    CompatibleWeekDayAlarm,
    CompatibleTimerCounter0,
    CompatibleTimerCounter1,
    CompatibleExtensionRegister,
    CompatibleFlagRegister,
    CompatibleControlRegister,
    ExtendedSEC,
    ExtendedMIN,
    ExtendedHOUR,
    ExtendedWEEK,
    ExtendedDAY,
    ExtendedMONTH,
    ExtendedYEAR,
    ExtendedTEMP,
    ExtendedBackupFunction,
    ExtendedTimerCounter0,
    ExtendedTimerCounter1,
    ExtendedExtensionRegister,
    ExtendedFlagRegister,
    ExtendedControlRegister,
}

impl RegisterTable {
    /// The one-byte bus address of the register.
    pub open spec fn spec_addr(self) -> u8 {
        match self {
            RegisterTable::CompatibleSEC => 0x00,
            RegisterTable::CompatibleMIN => 0x01,
            RegisterTable::CompatibleHOUR => 0x02,
            RegisterTable::CompatibleWEEK => 0x03,
            RegisterTable::CompatibleDAY => 0x04,
            RegisterTable::CompatibleMONTH => 0x05,
            RegisterTable::CompatibleYEAR => 0x06,
            RegisterTable::CompatibleRAM => 0x07,
            RegisterTable::CompatibleMinAlarm => 0x08,
            RegisterTable::CompatibleHourAlarm => 0x09,
            RegisterTable::CompatibleWeekDayAlarm => 0x0A,
            RegisterTable::CompatibleTimerCounter0 => 0x0B,
            RegisterTable::CompatibleTimerCounter1 => 0x0C,
            RegisterTable::CompatibleExtensionRegister => 0x0D,
            RegisterTable::CompatibleFlagRegister => 0x0E,
            RegisterTable::CompatibleControlRegister => 0x0F,
            RegisterTable::ExtendedSEC => 0x10,
            RegisterTable::ExtendedMIN => 0x11,
            RegisterTable::ExtendedHOUR => 0x12,
            RegisterTable::ExtendedWEEK => 0x13,
            RegisterTable::ExtendedDAY => 0x14,
            RegisterTable::ExtendedMONTH => 0x15,
            RegisterTable::ExtendedYEAR => 0x16,
            RegisterTable::ExtendedTEMP => 0x17,
            RegisterTable::ExtendedBackupFunction => 0x18,
            RegisterTable::ExtendedTimerCounter0 => 0x1B,
            RegisterTable::ExtendedTimerCounter1 => 0x1C,
            RegisterTable::ExtendedExtensionRegister => 0x1D,
            RegisterTable::ExtendedFlagRegister => 0x1E,
            RegisterTable::ExtendedControlRegister => 0x1F,
        }
    }

    /// The one-byte bus address of the register.
    pub fn addr(self) -> (r: u8)
        ensures
            r == self.spec_addr(),
    {
        match self {
            RegisterTable::CompatibleSEC => 0x00,
            RegisterTable::CompatibleMIN => 0x01,
            RegisterTable::CompatibleHOUR => 0x02,
            RegisterTable::CompatibleWEEK => 0x03,
            RegisterTable::CompatibleDAY => 0x04,
            RegisterTable::CompatibleMONTH => 0x05,
            RegisterTable::CompatibleYEAR => 0x06,
            RegisterTable::CompatibleRAM => 0x07,
            RegisterTable::CompatibleMinAlarm => 0x08,
            RegisterTable::CompatibleHourAlarm => 0x09,
            RegisterTable::CompatibleWeekDayAlarm => 0x0A,
            RegisterTable::CompatibleTimerCounter0 => 0x0B,
            RegisterTable::CompatibleTimerCounter1 => 0x0C,
            RegisterTable::CompatibleExtensionRegister => 0x0D,
            RegisterTable::CompatibleFlagRegister => 0x0E,
            RegisterTable::CompatibleControlRegister => 0x0F,
            RegisterTable::ExtendedSEC => 0x10,
            RegisterTable::ExtendedMIN => 0x11,
            RegisterTable::ExtendedHOUR => 0x12,
            RegisterTable::ExtendedWEEK => 0x13,
            RegisterTable::ExtendedDAY => 0x14,
            RegisterTable::ExtendedMONTH => 0x15,
            RegisterTable::ExtendedYEAR => 0x16,
            RegisterTable::ExtendedTEMP => 0x17,
            RegisterTable::ExtendedBackupFunction => 0x18,
            RegisterTable::ExtendedTimerCounter0 => 0x1B,
            RegisterTable::ExtendedTimerCounter1 => 0x1C,
            RegisterTable::ExtendedExtensionRegister => 0x1D,
            RegisterTable::ExtendedFlagRegister => 0x1E,
            RegisterTable::ExtendedControlRegister => 0x1F,
        }
    }
}

} // verus!

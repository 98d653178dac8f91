//! Enumerated fields of the extension, flag and control registers.

use vstd::prelude::*;

verus! {

/// Source clock of the timer counter, a 2-bit field.
#[derive(Clone, Copy, Debug, PartialEq, Eq, Structural)]
pub enum SourceClock {
    SourceClock4096Hz,
    SourceClock64Hz,
    SourceClockSecond,
    SourceClockMinute,
}

impl SourceClock {
    /// The 2-bit field value of this source clock.
    pub open spec fn spec_value(self) -> u8 {
        match self {
            SourceClock::SourceClock4096Hz => 0b00,
            SourceClock::SourceClock64Hz => 0b01,
            SourceClock::SourceClockSecond => 0b10,
            SourceClock::SourceClockMinute => 0b11,
        }
    }

    /// The 2-bit field value of this source clock.
    pub fn value(self) -> (r: u8)
        ensures
            r == self.spec_value(),
    {
        match self {
            SourceClock::SourceClock4096Hz => 0b00,
            SourceClock::SourceClock64Hz => 0b01,
            SourceClock::SourceClockSecond => 0b10,
            SourceClock::SourceClockMinute => 0b11,
        }
    }
}

/// The source clock a 2-bit field value selects.
pub open spec fn spec_source_clock_of(v: u8) -> SourceClock
    recommends
        v < 4,
{
    if v == 0b00 {
        SourceClock::SourceClock4096Hz
    } else if v == 0b01 {
        SourceClock::SourceClock64Hz
    } else if v == 0b10 {
        SourceClock::SourceClockSecond
    } else {
        SourceClock::SourceClockMinute
    }
}

/// Which alarm the shared alarm register holds, a 1-bit field.
#[derive(Clone, Copy, Debug, PartialEq, Eq, Structural)]
pub enum AlarmType {
    WeekAlarm,
    DayAlarm,
}

/// The alarm type a WADA bit selects.
pub open spec fn spec_alarm_type_of(wada: bool) -> AlarmType {
    if wada {
        AlarmType::DayAlarm
    } else {
        AlarmType::WeekAlarm
    }
}

/// Granularity of the update interrupt, a 1-bit field.
#[derive(Clone, Copy, Debug, PartialEq, Eq, Structural)]
pub enum UpdateInterruptType {
    EverySecond,
    EveryMinute,
}

/// The update granularity a USEL bit selects.
pub open spec fn spec_update_interrupt_type_of(usel: bool) -> UpdateInterruptType {
    if usel {
        UpdateInterruptType::EveryMinute
    } else {
        UpdateInterruptType::EverySecond
    }
}

/// Frequency of the FOUT pin, a 2-bit field; both 0b00 and 0b11 select
/// 32.768 kHz.
#[derive(Clone, Copy, Debug, PartialEq, Eq, Structural)]
pub enum FoutFrequency {
    FoutFrequency32_768kHz,
    FoutFrequency1024Hz,
    FoutFrequency1Hz,
}

impl FoutFrequency {
    /// The 2-bit field value of this frequency.
    pub open spec fn spec_value(self) -> u8 {
        match self {
            FoutFrequency::FoutFrequency32_768kHz => 0b00,
            FoutFrequency::FoutFrequency1024Hz => 0b01,
            FoutFrequency::FoutFrequency1Hz => 0b10,
        }
    }

    /// The 2-bit field value of this frequency.
    pub fn value(self) -> (r: u8)
        ensures
            r == self.spec_value(),
    {
        match self {
            FoutFrequency::FoutFrequency32_768kHz => 0b00,
            FoutFrequency::FoutFrequency1024Hz => 0b01,
            FoutFrequency::FoutFrequency1Hz => 0b10,
        }
    }
}

/// The FOUT frequency a 2-bit field value selects.
pub open spec fn spec_fout_frequency_of(v: u8) -> FoutFrequency
    recommends
        v < 4,
{
    if v == 0b01 {
        FoutFrequency::FoutFrequency1024Hz
    } else if v == 0b10 {
        FoutFrequency::FoutFrequency1Hz
    } else {
        FoutFrequency::FoutFrequency32_768kHz
    }
}

/// Interval of the temperature-compensation cycle, a 2-bit field.
#[derive(Clone, Copy, Debug, PartialEq, Eq, Structural)]
pub enum CompensationIntervalType {
    CompensationInterval0_5s,
    CompensationInterval2_0s,
    CompensationInterval10s,
    CompensationInterval30s,
}

impl CompensationIntervalType {
    /// The 2-bit field value of this interval.
    pub open spec fn spec_value(self) -> u8 {
        match self {
            CompensationIntervalType::CompensationInterval0_5s => 0b00,
            CompensationIntervalType::CompensationInterval2_0s => 0b01,
            CompensationIntervalType::CompensationInterval10s => 0b10,
            CompensationIntervalType::CompensationInterval30s => 0b11,
        }
    }

    /// The 2-bit field value of this interval.
    pub fn value(self) -> (r: u8)
        ensures
            r == self.spec_value(),
    {
        match self {
            CompensationIntervalType::CompensationInterval0_5s => 0b00,
            CompensationIntervalType::CompensationInterval2_0s => 0b01,
            CompensationIntervalType::CompensationInterval10s => 0b10,
            CompensationIntervalType::CompensationInterval30s => 0b11,
        }
    }
}

/// The compensation interval a 2-bit field value selects.
pub open spec fn spec_compensation_interval_of(v: u8) -> CompensationIntervalType
    recommends
        v < 4,
{
    if v == 0b00 {
        CompensationIntervalType::CompensationInterval0_5s
    } else if v == 0b01 {
        CompensationIntervalType::CompensationInterval2_0s
    } else if v == 0b10 {
        CompensationIntervalType::CompensationInterval10s
    } else {
        CompensationIntervalType::CompensationInterval30s
    }
}

} // verus!

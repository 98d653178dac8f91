//! The RX8900 register-map driver.
//!
//! Every accessor is built on four primitives over the transactional bus:
//! read a register, write a register, read one bit, and a read-modify-write
//! of one bit. The read-modify-write spans two bus transactions and is not
//! atomic; the driver owns the bus exclusively, which is what makes it
//! sound. A bus fault propagates unchanged from every accessor, with no
//! retry.
//!
//! Contracts are stated against the bus's register file: a read leaves it
//! untouched and decodes the byte found there; a write replaces exactly
//! the bytes it names.

use vstd::prelude::*;

use crate::bcd::from_bcd;
use crate::bcd::lemma_bcd_round_trip;
use crate::bcd::spec_from_bcd;
use crate::bcd::spec_to_bcd;
use crate::bcd::to_bcd;
use crate::bits::lemma_set_bit;
use crate::bits::spec_bit;
use crate::bits::spec_set_bit;
use crate::bus::I2cBus;
use crate::bus::RX8900_ADDR;
use crate::control::AlarmType;
use crate::control::CompensationIntervalType;
use crate::control::FoutFrequency;
use crate::control::SourceClock;
use crate::control::UpdateInterruptType;
use crate::control::spec_alarm_type_of;
use crate::control::spec_compensation_interval_of;
use crate::control::spec_fout_frequency_of;
use crate::control::spec_source_clock_of;
use crate::control::spec_update_interrupt_type_of;
use crate::error::BusError;
use crate::error::Rx8900Error;
use crate::registers::RegisterTable;
use crate::timestamp::Timestamp;
use crate::timestamp::is_valid_date;
use crate::timestamp::is_valid_time;
use crate::timestamp::spec_is_valid_date;
use crate::timestamp::spec_is_valid_time;
use crate::timestamp::spec_weekday_number_of_date;
use crate::timestamp::weekday_number_of_date;
use crate::weekday::Weekday;
use crate::weekday::from_week;
use crate::weekday::spec_from_week;
use crate::weekday::spec_is_one_hot_week;
use crate::weekday::spec_to_week;
use crate::weekday::spec_weekday_from_index;
use crate::weekday::to_week;
use crate::weekday::weekday_from_index;
use crate::weekday::weekday_vec_get;
use crate::weekday::weekday_vec_len;
use crate::weekday::weekday_vec_new;
use crate::weekday::weekday_vec_push;
use crate::weekday::weekday_vec_view;

verus! {

/// The seconds-of-minute held in a register file, after masking and BCD
/// decode.
pub open spec fn spec_sec_of(m: Map<u8, u8>) -> u8 {
    spec_from_bcd(m[RegisterTable::CompatibleSEC.spec_addr()] & 0x7F)
}

/// The minutes-of-hour held in a register file.
pub open spec fn spec_min_of(m: Map<u8, u8>) -> u8 {
    spec_from_bcd(m[RegisterTable::CompatibleMIN.spec_addr()] & 0x7F)
}

/// The hour-of-day held in a register file.
pub open spec fn spec_hour_of(m: Map<u8, u8>) -> u8 {
    spec_from_bcd(m[RegisterTable::CompatibleHOUR.spec_addr()] & 0x3F)
}

/// The day-of-month held in a register file.
pub open spec fn spec_day_of(m: Map<u8, u8>) -> u8 {
    spec_from_bcd(m[RegisterTable::CompatibleDAY.spec_addr()] & 0x3F)
}

/// The month held in a register file.
pub open spec fn spec_month_of(m: Map<u8, u8>) -> u8 {
    spec_from_bcd(m[RegisterTable::CompatibleMONTH.spec_addr()] & 0x1F)
}

/// The two-digit year held in a register file.
pub open spec fn spec_year_of(m: Map<u8, u8>) -> u8 {
    spec_from_bcd(m[RegisterTable::CompatibleYEAR.spec_addr()])
}

/// Whether the calendar registers of a register file decode to a valid
/// date.
pub open spec fn spec_regs_date_valid(m: Map<u8, u8>) -> bool {
    spec_is_valid_date(
        2000 + spec_year_of(m) as int,
        spec_month_of(m) as int,
        spec_day_of(m) as int,
    )
}

/// The full timestamp a register file holds: six masked, BCD-decoded
/// calendar registers. An impossible time of day (a momentarily
/// inconsistent read) decodes as midnight: callers must treat that as a
/// read artifact, not as device state.
pub open spec fn spec_datetime_of(m: Map<u8, u8>) -> Timestamp {
    let hour = spec_hour_of(m);
    let minute = spec_min_of(m);
    let second = spec_sec_of(m);
    let valid = spec_is_valid_time(hour as int, minute as int, second as int);
    Timestamp {
        year: (2000 + spec_year_of(m)) as u16,
        month: spec_month_of(m),
        day: spec_day_of(m),
        hour: if valid {
            hour
        } else {
            0
        },
        minute: if valid {
            minute
        } else {
            0
        },
        second: if valid {
            second
        } else {
            0
        },
    }
}

/// The register file after a timestamp write: the six calendar registers
/// replaced with the masked BCD encodings, and the weekday register with
/// the one-hot byte of the weekday derived from the date.
pub open spec fn spec_set_datetime_regs(m: Map<u8, u8>, data: Timestamp) -> Map<u8, u8>
    recommends
        data.wf(),
{
    m.insert(RegisterTable::CompatibleYEAR.spec_addr(), spec_to_bcd((data.year - 2000) as u8))
        .insert(RegisterTable::CompatibleMONTH.spec_addr(), spec_to_bcd(data.month & 0x1F)).insert(
        RegisterTable::CompatibleDAY.spec_addr(),
        spec_to_bcd(data.day & 0x3F),
    ).insert(
        RegisterTable::CompatibleWEEK.spec_addr(),
        spec_to_week(
            spec_weekday_from_index(
                spec_weekday_number_of_date(
                    data.year as int,
                    data.month as int,
                    data.day as int,
                ),
            ),
        ),
    ).insert(RegisterTable::CompatibleHOUR.spec_addr(), spec_to_bcd(data.hour & 0x3F)).insert(
        RegisterTable::CompatibleMIN.spec_addr(),
        spec_to_bcd(data.minute),
    ).insert(RegisterTable::CompatibleSEC.spec_addr(), spec_to_bcd(data.second))
}

/// The weekdays whose bits are set among the low `n` bits of a mask, in
/// ascending bit order.
pub open spec fn spec_weekdays_of_mask_upto(mask: u8, n: int) -> Seq<Weekday>
    decreases n,
{
    if n <= 0 {
        Seq::empty()
    } else if spec_bit(mask, (n - 1) as u8) {
        spec_weekdays_of_mask_upto(mask, n - 1).push(spec_weekday_from_index(n - 1))
    } else {
        spec_weekdays_of_mask_upto(mask, n - 1)
    }
}

/// The weekdays whose bits are set among the low seven bits of a mask, in
/// ascending bit order.
pub open spec fn spec_weekdays_of_mask(mask: u8) -> Seq<Weekday> {
    spec_weekdays_of_mask_upto(mask, 7)
}

/// At most `n` weekdays have their bit among the low `n` bits of a mask.
pub proof fn lemma_weekdays_of_mask_upto_len(mask: u8, n: int)
    requires
        n >= 0,
    ensures
        spec_weekdays_of_mask_upto(mask, n).len() <= n,
    decreases n,
{
    if n > 0 {
        lemma_weekdays_of_mask_upto_len(mask, n - 1);
    }
}

/// The one-hot bits of a run of weekdays, folded together with bitwise or.
pub open spec fn spec_week_mask_of(s: Seq<Weekday>) -> u8
    decreases s.len(),
{
    if s.len() == 0 {
        0
    } else {
        spec_week_mask_of(s.drop_last()) | spec_to_week(s.last())
    }
}

/// Writing a well-formed timestamp and reading the register file back
/// yields the same date and time; the weekday register, being derived
/// from the date, plays no part in what is read back.
pub proof fn lemma_datetime_round_trip(m: Map<u8, u8>, data: Timestamp)
    requires
        data.wf(),
    ensures
        spec_regs_date_valid(spec_set_datetime_regs(m, data)),
        spec_datetime_of(spec_set_datetime_regs(m, data)) == data,
{
    let yy = (data.year - 2000) as u8;
    let mo = data.month;
    let d = data.day;
    let h = data.hour;
    let mi = data.minute;
    let s = data.second;
    assert(mo <= 12 ==> mo & 0x1F == mo) by (bit_vector);
    assert(d <= 31 ==> d & 0x3F == d) by (bit_vector);
    assert(h <= 23 ==> h & 0x3F == h) by (bit_vector);
    assert(mo <= 12 ==>(((mo / 10) << 4) | (mo % 10)) & 0x1F == (((mo / 10) << 4) | (mo % 10)))
        by (bit_vector);
    assert(d <= 31 ==> (((d / 10) << 4) | (d % 10)) & 0x3F == (((d / 10) << 4) | (d % 10)))
        by (bit_vector);
    assert(h <= 23 ==> (((h / 10) << 4) | (h % 10)) & 0x3F == (((h / 10) << 4) | (h % 10)))
        by (bit_vector);
    assert(mi <= 59 ==> (((mi / 10) << 4) | (mi % 10)) & 0x7F == (((mi / 10) << 4) | (mi % 10)))
        by (bit_vector);
    assert(s <= 59 ==> (((s / 10) << 4) | (s % 10)) & 0x7F == (((s / 10) << 4) | (s % 10)))
        by (bit_vector);
    lemma_bcd_round_trip(yy);
    lemma_bcd_round_trip(mo);
    lemma_bcd_round_trip(d);
    lemma_bcd_round_trip(h);
    lemma_bcd_round_trip(mi);
    lemma_bcd_round_trip(s);
}

/// Driver for the RX8900 chip on an exclusively owned bus handle.
pub struct Rx8900<I2C> {
    i2c: I2C,
}

impl<I2C: I2cBus> Rx8900<I2C> {
    /// The device's register file, as the bus handle reaches it.
    pub closed spec fn regs(&self) -> Map<u8, u8> {
        self.i2c.regs()
    }

    /// Takes ownership of the bus handle.
    pub fn new(i2c: I2C) -> (r: Self)
        ensures
            r.regs() == i2c.regs(),
    {
        Self { i2c }
    }

    /// Borrows the bus handle, for example to let a simulated device's
    /// own state advance between polls.
    pub fn bus_mut(&mut self) -> (r: &mut I2C)
        ensures
            (*r).regs() == old(self).regs(),
            final(self).regs() == final(r).regs(),
    {
        &mut self.i2c
    }

    /// Reads one register in a single write-then-read transaction.
    fn read_register(&mut self, register: RegisterTable) -> (r: Result<u8, BusError>)
        ensures
            final(self).regs() == old(self).regs(),
            r is Ok ==> r->Ok_0 == old(self).regs()[register.spec_addr()],
    {
        self.i2c.write_read(RX8900_ADDR, register.addr())
    }

    /// Reads one register and tests one of its bits.
    fn read_register_1bit(&mut self, register: RegisterTable, bit: u8) -> (r: Result<
        bool,
        BusError,
    >)
        requires
            bit < 8,
        ensures
            final(self).regs() == old(self).regs(),
            r is Ok ==> r->Ok_0 == spec_bit(old(self).regs()[register.spec_addr()], bit),
    {
        let data = match self.read_register(register) {
            Ok(d) => d,
            Err(e) => {
                return Err(e);
            },
        };
        Ok((data & (1u8 << bit)) == (1u8 << bit))
    }

    /// The seconds register, masked to 7 bits and BCD-decoded.
    pub fn sec(&mut self) -> (r: Result<u8, BusError>)
        ensures
            final(self).regs() == old(self).regs(),
            r is Ok ==> r->Ok_0 == spec_sec_of(old(self).regs()),
    {
        let data = match self.read_register(RegisterTable::CompatibleSEC) {
            Ok(d) => d,
            Err(e) => {
                return Err(e);
            },
        };
        Ok(from_bcd(data & 0x7F))
    }

    /// The minutes register, masked to 7 bits and BCD-decoded.
    pub fn min(&mut self) -> (r: Result<u8, BusError>)
        ensures
            final(self).regs() == old(self).regs(),
            r is Ok ==> r->Ok_0 == spec_min_of(old(self).regs()),
    {
        let data = match self.read_register(RegisterTable::CompatibleMIN) {
            Ok(d) => d,
            Err(e) => {
                return Err(e);
            },
        };
        Ok(from_bcd(data & 0x7F))
    }

    /// The hours register, masked to 6 bits and BCD-decoded.
    pub fn hour(&mut self) -> (r: Result<u8, BusError>)
        ensures
            final(self).regs() == old(self).regs(),
            r is Ok ==> r->Ok_0 == spec_hour_of(old(self).regs()),
    {
        let data = match self.read_register(RegisterTable::CompatibleHOUR) {
            Ok(d) => d,
            Err(e) => {
                return Err(e);
            },
        };
        Ok(from_bcd(data & 0x3F))
    }

    /// The weekday register, decoded from its one-hot byte. A byte that is
    /// not one-hot is invalid data, not a weekday.
    pub fn week(&mut self) -> (r: Result<Weekday, Rx8900Error>)
        ensures
            final(self).regs() == old(self).regs(),
            r is Ok ==> spec_is_one_hot_week(
                old(self).regs()[RegisterTable::CompatibleWEEK.spec_addr()],
            ) && r->Ok_0 == spec_from_week(
                old(self).regs()[RegisterTable::CompatibleWEEK.spec_addr()],
            ),
            r is Err ==> r->Err_0 == Rx8900Error::Bus || (r->Err_0 == Rx8900Error::InvalidData
                && !spec_is_one_hot_week(
                old(self).regs()[RegisterTable::CompatibleWEEK.spec_addr()],
            )),
    {
        let data = match self.read_register(RegisterTable::CompatibleWEEK) {
            Ok(d) => d,
            Err(_) => {
                return Err(Rx8900Error::Bus);
            },
        };
        from_week(data)
    }

    /// The day-of-month register, masked to 6 bits and BCD-decoded.
    pub fn day(&mut self) -> (r: Result<u8, BusError>)
        ensures
            final(self).regs() == old(self).regs(),
            r is Ok ==> r->Ok_0 == spec_day_of(old(self).regs()),
    {
        let data = match self.read_register(RegisterTable::CompatibleDAY) {
            Ok(d) => d,
            Err(e) => {
                return Err(e);
            },
        };
        Ok(from_bcd(data & 0x3F))
    }

    /// The month register, masked to 5 bits and BCD-decoded.
    pub fn month(&mut self) -> (r: Result<u8, BusError>)
        ensures
            final(self).regs() == old(self).regs(),
            r is Ok ==> r->Ok_0 == spec_month_of(old(self).regs()),
    {
        let data = match self.read_register(RegisterTable::CompatibleMONTH) {
            Ok(d) => d,
            Err(e) => {
                return Err(e);
            },
        };
        Ok(from_bcd(data & 0x1F))
    }

    /// The two-digit year register, BCD-decoded.
    pub fn year(&mut self) -> (r: Result<u8, BusError>)
        ensures
            final(self).regs() == old(self).regs(),
            r is Ok ==> r->Ok_0 == spec_year_of(old(self).regs()),
    {
        let data = match self.read_register(RegisterTable::CompatibleYEAR) {
            Ok(d) => d,
            Err(e) => {
                return Err(e);
            },
        };
        Ok(from_bcd(data))
    }

    /// The free RAM register, raw.
    pub fn ram(&mut self) -> (r: Result<u8, BusError>)
        ensures
            final(self).regs() == old(self).regs(),
            r is Ok ==> r->Ok_0 == old(self).regs()[RegisterTable::CompatibleRAM.spec_addr()],
    {
        self.read_register(RegisterTable::CompatibleRAM)
    }

    /// The minute-alarm value, masked to 7 bits and BCD-decoded.
    pub fn min_alarm(&mut self) -> (r: Result<u8, BusError>)
        ensures
            final(self).regs() == old(self).regs(),
            r is Ok ==> r->Ok_0 == spec_from_bcd(
                old(self).regs()[RegisterTable::CompatibleMinAlarm.spec_addr()] & 0x7F,
            ),
    {
        let data = match self.read_register(RegisterTable::CompatibleMinAlarm) {
            Ok(d) => d,
            Err(e) => {
                return Err(e);
            },
        };
        Ok(from_bcd(data & 0x7F))
    }

    /// Whether the minute alarm is enabled: bit 7 of its register.
    pub fn min_alarm_enabled(&mut self) -> (r: Result<bool, BusError>)
        ensures
            final(self).regs() == old(self).regs(),
            r is Ok ==> r->Ok_0 == spec_bit(
                old(self).regs()[RegisterTable::CompatibleMinAlarm.spec_addr()],
                7,
            ),
    {
        self.read_register_1bit(RegisterTable::CompatibleMinAlarm, 7)
    }

    /// The hour-alarm value, masked to 6 bits and BCD-decoded.
    pub fn hour_alarm(&mut self) -> (r: Result<u8, BusError>)
        ensures
            final(self).regs() == old(self).regs(),
            r is Ok ==> r->Ok_0 == spec_from_bcd(
                old(self).regs()[RegisterTable::CompatibleHourAlarm.spec_addr()] & 0x3F,
            ),
    {
        let data = match self.read_register(RegisterTable::CompatibleHourAlarm) {
            Ok(d) => d,
            Err(e) => {
                return Err(e);
            },
        };
        Ok(from_bcd(data & 0x3F))
    }

    /// Whether the hour alarm is enabled: bit 7 of its register.
    pub fn hour_alarm_enabled(&mut self) -> (r: Result<bool, BusError>)
        ensures
            final(self).regs() == old(self).regs(),
            r is Ok ==> r->Ok_0 == spec_bit(
                old(self).regs()[RegisterTable::CompatibleHourAlarm.spec_addr()],
                7,
            ),
    {
        self.read_register_1bit(RegisterTable::CompatibleHourAlarm, 7)
    }

    /// Whether the week alarm is enabled: bit 7 of the shared alarm
    /// register.
    pub fn week_alarm_enabled(&mut self) -> (r: Result<bool, BusError>)
        ensures
            final(self).regs() == old(self).regs(),
            r is Ok ==> r->Ok_0 == spec_bit(
                old(self).regs()[RegisterTable::CompatibleWeekDayAlarm.spec_addr()],
                7,
            ),
    {
        self.read_register_1bit(RegisterTable::CompatibleWeekDayAlarm, 7)
    }

    /// The day-alarm value, masked to 7 bits and BCD-decoded, from the
    /// shared alarm register.
    pub fn day_alarm(&mut self) -> (r: Result<u8, BusError>)
        ensures
            final(self).regs() == old(self).regs(),
            r is Ok ==> r->Ok_0 == spec_from_bcd(
                old(self).regs()[RegisterTable::CompatibleWeekDayAlarm.spec_addr()] & 0x7F,
            ),
    {
        let data = match self.read_register(RegisterTable::CompatibleWeekDayAlarm) {
            Ok(d) => d,
            Err(e) => {
                return Err(e);
            },
        };
        Ok(from_bcd(data & 0x7F))
    }

    /// Whether the day alarm is enabled: bit 7 of the shared alarm
    /// register.
    pub fn day_alarm_enabled(&mut self) -> (r: Result<bool, BusError>)
        ensures
            final(self).regs() == old(self).regs(),
            r is Ok ==> r->Ok_0 == spec_bit(
                old(self).regs()[RegisterTable::CompatibleWeekDayAlarm.spec_addr()],
                7,
            ),
    {
        self.read_register_1bit(RegisterTable::CompatibleWeekDayAlarm, 7)
    }

    /// The low byte of the timer counter, raw.
    pub fn timer_counter0(&mut self) -> (r: Result<u8, BusError>)
        ensures
            final(self).regs() == old(self).regs(),
            r is Ok ==> r->Ok_0 == old(self).regs()[
                RegisterTable::CompatibleTimerCounter0.spec_addr()],
    {
        self.read_register(RegisterTable::CompatibleTimerCounter0)
    }

    /// The high byte of the timer counter, raw.
    pub fn timer_counter1(&mut self) -> (r: Result<u8, BusError>)
        ensures
            final(self).regs() == old(self).regs(),
            r is Ok ==> r->Ok_0 == old(self).regs()[
                RegisterTable::CompatibleTimerCounter1.spec_addr()],
    {
        self.read_register(RegisterTable::CompatibleTimerCounter1)
    }

    /// The 16-bit timer counter, low byte first.
    pub fn timer_counter(&mut self) -> (r: Result<u16, BusError>)
        ensures
            final(self).regs() == old(self).regs(),
            r is Ok ==> r->Ok_0 == ((old(self).regs()[
                RegisterTable::CompatibleTimerCounter1.spec_addr()] as u16) << 8) | (old(
                self,
            ).regs()[RegisterTable::CompatibleTimerCounter0.spec_addr()] as u16),
    {
        let data0 = match self.read_register(RegisterTable::CompatibleTimerCounter0) {
            Ok(d) => d,
            Err(e) => {
                return Err(e);
            },
        };
        let data1 = match self.read_register(RegisterTable::CompatibleTimerCounter1) {
            Ok(d) => d,
            Err(e) => {
                return Err(e);
            },
        };
        Ok(((data1 as u16) << 8) | (data0 as u16))
    }

    /// The raw temperature register of the extended bank.
    pub fn temp(&mut self) -> (r: Result<u8, BusError>)
        ensures
            final(self).regs() == old(self).regs(),
            r is Ok ==> r->Ok_0 == old(self).regs()[RegisterTable::ExtendedTEMP.spec_addr()],
    {
        self.read_register(RegisterTable::ExtendedTEMP)
    }

    /// The VDETOFF bit of the backup-function register.
    pub fn vdetoff(&mut self) -> (r: Result<bool, BusError>)
        ensures
            final(self).regs() == old(self).regs(),
            r is Ok ==> r->Ok_0 == spec_bit(
                old(self).regs()[RegisterTable::ExtendedBackupFunction.spec_addr()],
                3,
            ),
    {
        self.read_register_1bit(RegisterTable::ExtendedBackupFunction, 3)
    }

    /// Whether the voltage detector is switched off: the VDETOFF bit.
    pub fn voltage_detector_off(&mut self) -> (r: Result<bool, BusError>)
        ensures
            final(self).regs() == old(self).regs(),
            r is Ok ==> r->Ok_0 == spec_bit(
                old(self).regs()[RegisterTable::ExtendedBackupFunction.spec_addr()],
                3,
            ),
    {
        self.vdetoff()
    }

    /// The SWOFF bit of the backup-function register.
    pub fn swoff(&mut self) -> (r: Result<bool, BusError>)
        ensures
            final(self).regs() == old(self).regs(),
            r is Ok ==> r->Ok_0 == spec_bit(
                old(self).regs()[RegisterTable::ExtendedBackupFunction.spec_addr()],
                2,
            ),
    {
        self.read_register_1bit(RegisterTable::ExtendedBackupFunction, 2)
    }

    /// Whether the power switch is off: the SWOFF bit.
    pub fn switch_off(&mut self) -> (r: Result<bool, BusError>)
        ensures
            final(self).regs() == old(self).regs(),
            r is Ok ==> r->Ok_0 == spec_bit(
                old(self).regs()[RegisterTable::ExtendedBackupFunction.spec_addr()],
                2,
            ),
    {
        self.swoff()
    }

    /// Bit 1 of the backup-mode sampling-time field.
    pub fn bksmp1(&mut self) -> (r: Result<bool, BusError>)
        ensures
            final(self).regs() == old(self).regs(),
            r is Ok ==> r->Ok_0 == spec_bit(
                old(self).regs()[RegisterTable::ExtendedBackupFunction.spec_addr()],
                1,
            ),
    {
        self.read_register_1bit(RegisterTable::ExtendedBackupFunction, 1)
    }

    /// Bit 0 of the backup-mode sampling-time field.
    pub fn bksmp0(&mut self) -> (r: Result<bool, BusError>)
        ensures
            final(self).regs() == old(self).regs(),
            r is Ok ==> r->Ok_0 == spec_bit(
                old(self).regs()[RegisterTable::ExtendedBackupFunction.spec_addr()],
                0,
            ),
    {
        self.read_register_1bit(RegisterTable::ExtendedBackupFunction, 0)
    }

    /// The 2-bit backup-mode sampling-time field.
    pub fn bksmp(&mut self) -> (r: Result<u8, BusError>)
        ensures
            final(self).regs() == old(self).regs(),
            r is Ok ==> r->Ok_0 == old(self).regs()[
                RegisterTable::ExtendedBackupFunction.spec_addr()] & 0x03,
    {
        let data = match self.read_register(RegisterTable::ExtendedBackupFunction) {
            Ok(d) => d,
            Err(e) => {
                return Err(e);
            },
        };
        Ok(data & 0x03)
    }

    /// The 2-bit backup-mode sampling-time field.
    pub fn backup_mode_sampling_time(&mut self) -> (r: Result<u8, BusError>)
        ensures
            final(self).regs() == old(self).regs(),
            r is Ok ==> r->Ok_0 == old(self).regs()[
                RegisterTable::ExtendedBackupFunction.spec_addr()] & 0x03,
    {
        self.bksmp()
    }

    /// Which alarm the shared alarm register holds, from the WADA bit.
    pub fn alarm_type(&mut self) -> (r: Result<AlarmType, BusError>)
        ensures
            final(self).regs() == old(self).regs(),
            r is Ok ==> r->Ok_0 == spec_alarm_type_of(
                spec_bit(old(self).regs()[RegisterTable::CompatibleExtensionRegister.spec_addr()], 6),
            ),
    {
        let wada = match self.wada() {
            Ok(b) => b,
            Err(e) => {
                return Err(e);
            },
        };
        Ok(
            if wada {
                AlarmType::DayAlarm
            } else {
                AlarmType::WeekAlarm
            },
        )
    }

    /// The TEST bit of the extension register.
    pub fn test(&mut self) -> (r: Result<bool, BusError>)
        ensures
            final(self).regs() == old(self).regs(),
            r is Ok ==> r->Ok_0 == spec_bit(
                old(self).regs()[RegisterTable::CompatibleExtensionRegister.spec_addr()],
                7,
            ),
    {
        self.read_register_1bit(RegisterTable::CompatibleExtensionRegister, 7)
    }

    /// The WADA bit of the extension register: week- or day-alarm select.
    pub fn wada(&mut self) -> (r: Result<bool, BusError>)
        ensures
            final(self).regs() == old(self).regs(),
            r is Ok ==> r->Ok_0 == spec_bit(
                old(self).regs()[RegisterTable::CompatibleExtensionRegister.spec_addr()],
                6,
            ),
    {
        self.read_register_1bit(RegisterTable::CompatibleExtensionRegister, 6)
    }

    /// The update-interrupt granularity, from the USEL bit.
    pub fn update_interrupt_type(&mut self) -> (r: Result<UpdateInterruptType, BusError>)
        ensures
            final(self).regs() == old(self).regs(),
            r is Ok ==> r->Ok_0 == spec_update_interrupt_type_of(
                spec_bit(old(self).regs()[RegisterTable::CompatibleExtensionRegister.spec_addr()], 5),
            ),
    {
        let usel = match self.usel() {
            Ok(b) => b,
            Err(e) => {
                return Err(e);
            },
        };
        Ok(
            if usel {
                UpdateInterruptType::EveryMinute
            } else {
                UpdateInterruptType::EverySecond
            },
        )
    }

    /// The USEL bit of the extension register.
    pub fn usel(&mut self) -> (r: Result<bool, BusError>)
        ensures
            final(self).regs() == old(self).regs(),
            r is Ok ==> r->Ok_0 == spec_bit(
                old(self).regs()[RegisterTable::CompatibleExtensionRegister.spec_addr()],
                5,
            ),
    {
        self.read_register_1bit(RegisterTable::CompatibleExtensionRegister, 5)
    }

    /// The TE bit of the extension register: timer enable.
    pub fn te(&mut self) -> (r: Result<bool, BusError>)
        ensures
            final(self).regs() == old(self).regs(),
            r is Ok ==> r->Ok_0 == spec_bit(
                old(self).regs()[RegisterTable::CompatibleExtensionRegister.spec_addr()],
                4,
            ),
    {
        self.read_register_1bit(RegisterTable::CompatibleExtensionRegister, 4)
    }

    /// Whether the timer is enabled: the TE bit.
    pub fn timer_enable(&mut self) -> (r: Result<bool, BusError>)
        ensures
            final(self).regs() == old(self).regs(),
            r is Ok ==> r->Ok_0 == spec_bit(
                old(self).regs()[RegisterTable::CompatibleExtensionRegister.spec_addr()],
                4,
            ),
    {
        self.te()
    }

    /// The FSEL1 bit of the extension register.
    pub fn fsel1(&mut self) -> (r: Result<bool, BusError>)
        ensures
            final(self).regs() == old(self).regs(),
            r is Ok ==> r->Ok_0 == spec_bit(
                old(self).regs()[RegisterTable::CompatibleExtensionRegister.spec_addr()],
                3,
            ),
    {
        self.read_register_1bit(RegisterTable::CompatibleExtensionRegister, 3)
    }

    /// The FSEL0 bit of the extension register.
    pub fn fsel0(&mut self) -> (r: Result<bool, BusError>)
        ensures
            final(self).regs() == old(self).regs(),
            r is Ok ==> r->Ok_0 == spec_bit(
                old(self).regs()[RegisterTable::CompatibleExtensionRegister.spec_addr()],
                2,
            ),
    {
        self.read_register_1bit(RegisterTable::CompatibleExtensionRegister, 2)
    }

    /// The 2-bit FOUT-frequency field: bits 3 and 2 of the extension
    /// register.
    pub fn fsel(&mut self) -> (r: Result<u8, BusError>)
        ensures
            final(self).regs() == old(self).regs(),
            r is Ok ==> r->Ok_0 == (old(self).regs()[
                RegisterTable::CompatibleExtensionRegister.spec_addr()] & 0x0C) >> 2,
    {
        let data = match self.read_register(RegisterTable::CompatibleExtensionRegister) {
            Ok(d) => d,
            Err(e) => {
                return Err(e);
            },
        };
        Ok((data & 0x0C) >> 2)
    }

    /// The FOUT frequency the FSEL field selects.
    pub fn fout_frequency(&mut self) -> (r: Result<FoutFrequency, BusError>)
        ensures
            final(self).regs() == old(self).regs(),
            r is Ok ==> r->Ok_0 == spec_fout_frequency_of(
                (old(self).regs()[RegisterTable::CompatibleExtensionRegister.spec_addr()] & 0x0C)
                    >> 2,
            ),
    {
        let current = match self.fsel() {
            Ok(v) => v,
            Err(e) => {
                return Err(e);
            },
        };
        Ok(
            if current == 0b01 {
                FoutFrequency::FoutFrequency1024Hz
            } else if current == 0b10 {
                FoutFrequency::FoutFrequency1Hz
            } else {
                FoutFrequency::FoutFrequency32_768kHz
            },
        )
    }

    /// The source clock the TSEL field selects: bits 1 and 0 of the
    /// extension register.
    pub fn source_clock(&mut self) -> (r: Result<SourceClock, BusError>)
        ensures
            final(self).regs() == old(self).regs(),
            r is Ok ==> r->Ok_0 == spec_source_clock_of(
                old(self).regs()[RegisterTable::CompatibleExtensionRegister.spec_addr()] & 0x03,
            ),
    {
        let data = match self.read_register(RegisterTable::CompatibleExtensionRegister) {
            Ok(d) => d,
            Err(e) => {
                return Err(e);
            },
        };
        let field = data & 0x03;
        Ok(
            if field == 0b00 {
                SourceClock::SourceClock4096Hz
            } else if field == 0b01 {
                SourceClock::SourceClock64Hz
            } else if field == 0b10 {
                SourceClock::SourceClockSecond
            } else {
                SourceClock::SourceClockMinute
            },
        )
    }

    /// The TSEL1 bit of the extension register.
    pub fn tsel1(&mut self) -> (r: Result<bool, BusError>)
        ensures
            final(self).regs() == old(self).regs(),
            r is Ok ==> r->Ok_0 == spec_bit(
                old(self).regs()[RegisterTable::CompatibleExtensionRegister.spec_addr()],
                1,
            ),
    {
        self.read_register_1bit(RegisterTable::CompatibleExtensionRegister, 1)
    }

    /// The TSEL0 bit of the extension register.
    pub fn tsel0(&mut self) -> (r: Result<bool, BusError>)
        ensures
            final(self).regs() == old(self).regs(),
            r is Ok ==> r->Ok_0 == spec_bit(
                old(self).regs()[RegisterTable::CompatibleExtensionRegister.spec_addr()],
                0,
            ),
    {
        self.read_register_1bit(RegisterTable::CompatibleExtensionRegister, 0)
    }

    /// The 2-bit TSEL field: bits 1 and 0 of the extension register.
    pub fn tsel(&mut self) -> (r: Result<u8, BusError>)
        ensures
            final(self).regs() == old(self).regs(),
            r is Ok ==> r->Ok_0 == old(self).regs()[
                RegisterTable::CompatibleExtensionRegister.spec_addr()] & 0x03,
    {
        let data = match self.read_register(RegisterTable::CompatibleExtensionRegister) {
            Ok(d) => d,
            Err(e) => {
                return Err(e);
            },
        };
        Ok(data & 0x03)
    }

    /// The UF bit of the flag register: update flag.
    pub fn uf(&mut self) -> (r: Result<bool, BusError>)
        ensures
            final(self).regs() == old(self).regs(),
            r is Ok ==> r->Ok_0 == spec_bit(
                old(self).regs()[RegisterTable::CompatibleFlagRegister.spec_addr()],
                5,
            ),
    {
        self.read_register_1bit(RegisterTable::CompatibleFlagRegister, 5)
    }

    /// The update flag: the UF bit.
    pub fn update_flag(&mut self) -> (r: Result<bool, BusError>)
        ensures
            final(self).regs() == old(self).regs(),
            r is Ok ==> r->Ok_0 == spec_bit(
                old(self).regs()[RegisterTable::CompatibleFlagRegister.spec_addr()],
                5,
            ),
    {
        self.uf()
    }

    /// The TF bit of the flag register: timer flag.
    pub fn tf(&mut self) -> (r: Result<bool, BusError>)
        ensures
            final(self).regs() == old(self).regs(),
            r is Ok ==> r->Ok_0 == spec_bit(
                old(self).regs()[RegisterTable::CompatibleFlagRegister.spec_addr()],
                4,
            ),
    {
        self.read_register_1bit(RegisterTable::CompatibleFlagRegister, 4)
    }

    /// The timer flag: the TF bit.
    pub fn timer_flag(&mut self) -> (r: Result<bool, BusError>)
        ensures
            final(self).regs() == old(self).regs(),
            r is Ok ==> r->Ok_0 == spec_bit(
                old(self).regs()[RegisterTable::CompatibleFlagRegister.spec_addr()],
                4,
            ),
    {
        self.tf()
    }

    /// The AF bit of the flag register: alarm flag.
    pub fn af(&mut self) -> (r: Result<bool, BusError>)
        ensures
            final(self).regs() == old(self).regs(),
            r is Ok ==> r->Ok_0 == spec_bit(
                old(self).regs()[RegisterTable::CompatibleFlagRegister.spec_addr()],
                3,
            ),
    {
        self.read_register_1bit(RegisterTable::CompatibleFlagRegister, 3)
    }

    /// The alarm flag: the AF bit.
    pub fn alarm_flag(&mut self) -> (r: Result<bool, BusError>)
        ensures
            final(self).regs() == old(self).regs(),
            r is Ok ==> r->Ok_0 == spec_bit(
                old(self).regs()[RegisterTable::CompatibleFlagRegister.spec_addr()],
                3,
            ),
    {
        self.af()
    }

    /// The VLF bit of the flag register: voltage-low flag.
    pub fn vlf(&mut self) -> (r: Result<bool, BusError>)
        ensures
            final(self).regs() == old(self).regs(),
            r is Ok ==> r->Ok_0 == spec_bit(
                old(self).regs()[RegisterTable::CompatibleFlagRegister.spec_addr()],
                1,
            ),
    {
        self.read_register_1bit(RegisterTable::CompatibleFlagRegister, 1)
    }

    /// The voltage-low flag: backup power dropped and the stored time may
    /// be stale.
    pub fn voltage_low_flag(&mut self) -> (r: Result<bool, BusError>)
        ensures
            final(self).regs() == old(self).regs(),
            r is Ok ==> r->Ok_0 == spec_bit(
                old(self).regs()[RegisterTable::CompatibleFlagRegister.spec_addr()],
                1,
            ),
    {
        self.vlf()
    }

    /// The VDET bit of the flag register: voltage-detect flag.
    pub fn vdet(&mut self) -> (r: Result<bool, BusError>)
        ensures
            final(self).regs() == old(self).regs(),
            r is Ok ==> r->Ok_0 == spec_bit(
                old(self).regs()[RegisterTable::CompatibleFlagRegister.spec_addr()],
                0,
            ),
    {
        self.read_register_1bit(RegisterTable::CompatibleFlagRegister, 0)
    }

    /// The voltage-detect flag: the VDET bit.
    pub fn voltage_detect_flag(&mut self) -> (r: Result<bool, BusError>)
        ensures
            final(self).regs() == old(self).regs(),
            r is Ok ==> r->Ok_0 == spec_bit(
                old(self).regs()[RegisterTable::CompatibleFlagRegister.spec_addr()],
                0,
            ),
    {
        self.vdet()
    }

    /// The CSEL1 bit of the control register.
    pub fn csel1(&mut self) -> (r: Result<bool, BusError>)
        ensures
            final(self).regs() == old(self).regs(),
            r is Ok ==> r->Ok_0 == spec_bit(
                old(self).regs()[RegisterTable::CompatibleControlRegister.spec_addr()],
                7,
            ),
    {
        self.read_register_1bit(RegisterTable::CompatibleControlRegister, 7)
    }

    /// The CSEL0 bit of the control register.
    pub fn csel0(&mut self) -> (r: Result<bool, BusError>)
        ensures
            final(self).regs() == old(self).regs(),
            r is Ok ==> r->Ok_0 == spec_bit(
                old(self).regs()[RegisterTable::CompatibleControlRegister.spec_addr()],
                6,
            ),
    {
        self.read_register_1bit(RegisterTable::CompatibleControlRegister, 6)
    }

    /// The 2-bit compensation-interval field: bits 7 and 6 of the control
    /// register.
    pub fn csel(&mut self) -> (r: Result<u8, BusError>)
        ensures
            final(self).regs() == old(self).regs(),
            r is Ok ==> r->Ok_0 == (old(self).regs()[
                RegisterTable::CompatibleControlRegister.spec_addr()] & 0xC0) >> 6,
    {
        let data = match self.read_register(RegisterTable::CompatibleControlRegister) {
            Ok(d) => d,
            Err(e) => {
                return Err(e);
            },
        };
        Ok((data & 0xC0) >> 6)
    }

    /// The compensation interval the CSEL field selects.
    pub fn compensation_interval_type(&mut self) -> (r: Result<CompensationIntervalType, BusError>)
        ensures
            final(self).regs() == old(self).regs(),
            r is Ok ==> r->Ok_0 == spec_compensation_interval_of(
                (old(self).regs()[RegisterTable::CompatibleControlRegister.spec_addr()] & 0xC0)
                    >> 6,
            ),
    {
        let current = match self.csel() {
            Ok(v) => v,
            Err(e) => {
                return Err(e);
            },
        };
        Ok(
            if current == 0b00 {
                CompensationIntervalType::CompensationInterval0_5s
            } else if current == 0b01 {
                CompensationIntervalType::CompensationInterval2_0s
            } else if current == 0b10 {
                CompensationIntervalType::CompensationInterval10s
            } else {
                CompensationIntervalType::CompensationInterval30s
            },
        )
    }

    /// The UIE bit of the control register: update-interrupt enable.
    pub fn uie(&mut self) -> (r: Result<bool, BusError>)
        ensures
            final(self).regs() == old(self).regs(),
            r is Ok ==> r->Ok_0 == spec_bit(
                old(self).regs()[RegisterTable::CompatibleControlRegister.spec_addr()],
                5,
            ),
    {
        self.read_register_1bit(RegisterTable::CompatibleControlRegister, 5)
    }

    /// Whether the update interrupt is enabled: the UIE bit.
    pub fn update_interrupt_enable(&mut self) -> (r: Result<bool, BusError>)
        ensures
            final(self).regs() == old(self).regs(),
            r is Ok ==> r->Ok_0 == spec_bit(
                old(self).regs()[RegisterTable::CompatibleControlRegister.spec_addr()],
                5,
            ),
    {
        self.uie()
    }

    /// The TIE bit of the control register: timer-interrupt enable.
    pub fn tie(&mut self) -> (r: Result<bool, BusError>)
        ensures
            final(self).regs() == old(self).regs(),
            r is Ok ==> r->Ok_0 == spec_bit(
                old(self).regs()[RegisterTable::CompatibleControlRegister.spec_addr()],
                4,
            ),
    {
        self.read_register_1bit(RegisterTable::CompatibleControlRegister, 4)
    }

    /// Whether the timer interrupt is enabled: the TIE bit.
    pub fn timer_interrupt_enable(&mut self) -> (r: Result<bool, BusError>)
        ensures
            final(self).regs() == old(self).regs(),
            r is Ok ==> r->Ok_0 == spec_bit(
                old(self).regs()[RegisterTable::CompatibleControlRegister.spec_addr()],
                4,
            ),
    {
        self.tie()
    }

    /// The AIE bit of the control register: alarm-interrupt enable.
    pub fn aie(&mut self) -> (r: Result<bool, BusError>)
        ensures
            final(self).regs() == old(self).regs(),
            r is Ok ==> r->Ok_0 == spec_bit(
                old(self).regs()[RegisterTable::CompatibleControlRegister.spec_addr()],
                3,
            ),
    {
        self.read_register_1bit(RegisterTable::CompatibleControlRegister, 3)
    }

    /// Whether the alarm interrupt is enabled: the AIE bit.
    pub fn alarm_interrupt_enable(&mut self) -> (r: Result<bool, BusError>)
        ensures
            final(self).regs() == old(self).regs(),
            r is Ok ==> r->Ok_0 == spec_bit(
                old(self).regs()[RegisterTable::CompatibleControlRegister.spec_addr()],
                3,
            ),
    {
        self.aie()
    }

    /// Writes one register in a two-byte write transaction.
    fn write_register(&mut self, register: RegisterTable, data: u8) -> (r: Result<(), BusError>)
        ensures
            r is Ok ==> final(self).regs() == old(self).regs().insert(
                register.spec_addr(),
                data,
            ),
            r is Err ==> final(self).regs() == old(self).regs(),
    {
        self.i2c.write_bytes(RX8900_ADDR, register.addr(), data)
    }

    /// Read-modify-write of one bit: reads the register, forces the bit,
    /// writes the byte back. Not atomic across its two transactions.
    fn set_bit(&mut self, register: RegisterTable, bit: u8, data: bool) -> (r: Result<
        (),
        BusError,
    >)
        requires
            bit < 8,
        ensures
            r is Ok ==> final(self).regs() == old(self).regs().insert(
                register.spec_addr(),
                spec_set_bit(old(self).regs()[register.spec_addr()], bit, data),
            ),
            r is Err ==> final(self).regs() == old(self).regs(),
    {
        let current = match self.read_register(register) {
            Ok(d) => d,
            Err(e) => {
                return Err(e);
            },
        };
        let mask: u8 = 1u8 << bit;
        let value = if data {
            current | mask
        } else {
            current & !mask
        };
        self.write_register(register, value)
    }

    /// Writes the seconds register, BCD-encoded.
    pub fn set_sec(&mut self, data: u8) -> (r: Result<(), BusError>)
        requires
            data <= 99,
        ensures
            r is Ok ==> final(self).regs() == old(self).regs().insert(
                RegisterTable::CompatibleSEC.spec_addr(),
                spec_to_bcd(data),
            ),
            r is Err ==> final(self).regs() == old(self).regs(),
    {
        proof {
            assert(data <= 99 ==> data & 0x7F == data) by (bit_vector);
        }
        self.write_register(RegisterTable::CompatibleSEC, to_bcd(data & 0x7F))
    }

    /// Writes the minutes register, BCD-encoded.
    pub fn set_min(&mut self, data: u8) -> (r: Result<(), BusError>)
        requires
            data <= 99,
        ensures
            r is Ok ==> final(self).regs() == old(self).regs().insert(
                RegisterTable::CompatibleMIN.spec_addr(),
                spec_to_bcd(data),
            ),
            r is Err ==> final(self).regs() == old(self).regs(),
    {
        proof {
            assert(data <= 99 ==> data & 0x7F == data) by (bit_vector);
        }
        self.write_register(RegisterTable::CompatibleMIN, to_bcd(data & 0x7F))
    }

    /// Writes the hours register, masked to 6 bits and BCD-encoded.
    pub fn set_hour(&mut self, data: u8) -> (r: Result<(), BusError>)
        ensures
            r is Ok ==> final(self).regs() == old(self).regs().insert(
                RegisterTable::CompatibleHOUR.spec_addr(),
                spec_to_bcd(data & 0x3F),
            ),
            r is Err ==> final(self).regs() == old(self).regs(),
    {
        proof {
            assert(data & 0x3F <= 99) by (bit_vector);
        }
        self.write_register(RegisterTable::CompatibleHOUR, to_bcd(data & 0x3F))
    }

    /// Writes the weekday register as a one-hot byte.
    pub fn set_week(&mut self, data: Weekday) -> (r: Result<(), BusError>)
        ensures
            r is Ok ==> final(self).regs() == old(self).regs().insert(
                RegisterTable::CompatibleWEEK.spec_addr(),
                spec_to_week(data),
            ),
            r is Err ==> final(self).regs() == old(self).regs(),
    {
        self.write_register(RegisterTable::CompatibleWEEK, to_week(data))
    }

    /// Writes the day-of-month register, masked to 6 bits and BCD-encoded.
    pub fn set_day(&mut self, data: u8) -> (r: Result<(), BusError>)
        ensures
            r is Ok ==> final(self).regs() == old(self).regs().insert(
                RegisterTable::CompatibleDAY.spec_addr(),
                spec_to_bcd(data & 0x3F),
            ),
            r is Err ==> final(self).regs() == old(self).regs(),
    {
        proof {
            assert(data & 0x3F <= 99) by (bit_vector);
        }
        self.write_register(RegisterTable::CompatibleDAY, to_bcd(data & 0x3F))
    }

    /// Writes the month register, masked to 5 bits and BCD-encoded.
    pub fn set_month(&mut self, data: u8) -> (r: Result<(), BusError>)
        ensures
            r is Ok ==> final(self).regs() == old(self).regs().insert(
                RegisterTable::CompatibleMONTH.spec_addr(),
                spec_to_bcd(data & 0x1F),
            ),
            r is Err ==> final(self).regs() == old(self).regs(),
    {
        proof {
            assert(data & 0x1F <= 99) by (bit_vector);
        }
        self.write_register(RegisterTable::CompatibleMONTH, to_bcd(data & 0x1F))
    }

    /// Writes the two-digit year register, BCD-encoded.
    pub fn set_year(&mut self, data: u8) -> (r: Result<(), BusError>)
        requires
            data <= 99,
        ensures
            r is Ok ==> final(self).regs() == old(self).regs().insert(
                RegisterTable::CompatibleYEAR.spec_addr(),
                spec_to_bcd(data),
            ),
            r is Err ==> final(self).regs() == old(self).regs(),
    {
        self.write_register(RegisterTable::CompatibleYEAR, to_bcd(data))
    }

    /// Writes the free RAM register, raw.
    pub fn set_ram(&mut self, data: u8) -> (r: Result<(), BusError>)
        ensures
            r is Ok ==> final(self).regs() == old(self).regs().insert(
                RegisterTable::CompatibleRAM.spec_addr(),
                data,
            ),
            r is Err ==> final(self).regs() == old(self).regs(),
    {
        self.write_register(RegisterTable::CompatibleRAM, data)
    }

    /// Writes the minute alarm: BCD value and enable bit in one byte.
    pub fn set_min_alarm(&mut self, data: u8, enabled: bool) -> (r: Result<(), BusError>)
        requires
            data <= 99,
        ensures
            r is Ok ==> final(self).regs() == old(self).regs().insert(
                RegisterTable::CompatibleMinAlarm.spec_addr(),
                spec_to_bcd(data) | (if enabled {
                    0x80u8
                } else {
                    0u8
                }),
            ),
            r is Err ==> final(self).regs() == old(self).regs(),
    {
        proof {
            assert(data <= 99 ==> data & 0x7F == data) by (bit_vector);
        }
        let encoded = to_bcd(data & 0x7F);
        let value = if enabled {
            encoded | 0x80
        } else {
            encoded
        };
        proof {
            assert(encoded | 0u8 == encoded) by (bit_vector);
        }
        self.write_register(RegisterTable::CompatibleMinAlarm, value)
    }

    /// Writes the hour alarm: masked BCD value and enable bit in one byte.
    pub fn set_hour_alarm(&mut self, data: u8, enabled: bool) -> (r: Result<(), BusError>)
        ensures
            r is Ok ==> final(self).regs() == old(self).regs().insert(
                RegisterTable::CompatibleHourAlarm.spec_addr(),
                spec_to_bcd(data & 0x3F) | (if enabled {
                    0x80u8
                } else {
                    0u8
                }),
            ),
            r is Err ==> final(self).regs() == old(self).regs(),
    {
        proof {
            assert(data & 0x3F <= 99) by (bit_vector);
        }
        let encoded = to_bcd(data & 0x3F);
        let value = if enabled {
            encoded | 0x80
        } else {
            encoded
        };
        proof {
            assert(encoded | 0u8 == encoded) by (bit_vector);
        }
        self.write_register(RegisterTable::CompatibleHourAlarm, value)
    }

    /// Writes the day alarm into the shared alarm register: BCD value and
    /// enable bit in one byte.
    pub fn set_day_alarm(&mut self, data: u8, enabled: bool) -> (r: Result<(), BusError>)
        requires
            data <= 99,
        ensures
            r is Ok ==> final(self).regs() == old(self).regs().insert(
                RegisterTable::CompatibleWeekDayAlarm.spec_addr(),
                spec_to_bcd(data) | (if enabled {
                    0x80u8
                } else {
                    0u8
                }),
            ),
            r is Err ==> final(self).regs() == old(self).regs(),
    {
        proof {
            assert(data <= 99 ==> data & 0x7F == data) by (bit_vector);
        }
        let encoded = to_bcd(data & 0x7F);
        let value = if enabled {
            encoded | 0x80
        } else {
            encoded
        };
        proof {
            assert(encoded | 0u8 == encoded) by (bit_vector);
        }
        self.write_register(RegisterTable::CompatibleWeekDayAlarm, value)
    }

    /// Writes the low byte of the timer counter.
    pub fn set_timer_counter0(&mut self, data: u8) -> (r: Result<(), BusError>)
        ensures
            r is Ok ==> final(self).regs() == old(self).regs().insert(
                RegisterTable::CompatibleTimerCounter0.spec_addr(),
                data,
            ),
            r is Err ==> final(self).regs() == old(self).regs(),
    {
        self.write_register(RegisterTable::CompatibleTimerCounter0, data)
    }

    /// Writes the high byte of the timer counter.
    pub fn set_timer_counter1(&mut self, data: u8) -> (r: Result<(), BusError>)
        ensures
            r is Ok ==> final(self).regs() == old(self).regs().insert(
                RegisterTable::CompatibleTimerCounter1.spec_addr(),
                data,
            ),
            r is Err ==> final(self).regs() == old(self).regs(),
    {
        self.write_register(RegisterTable::CompatibleTimerCounter1, data)
    }

    /// Writes the 16-bit timer counter, low byte first. A fault between
    /// the two writes leaves only the low byte updated.
    pub fn set_timer_counter(&mut self, data: u16) -> (r: Result<(), BusError>)
        ensures
            r is Ok ==> final(self).regs() == old(self).regs().insert(
                RegisterTable::CompatibleTimerCounter0.spec_addr(),
                (data & 0x00FF) as u8,
            ).insert(
                RegisterTable::CompatibleTimerCounter1.spec_addr(),
                ((data & 0xFF00) >> 8) as u8,
            ),
            r is Err ==> final(self).regs() == old(self).regs() || final(self).regs() == old(
                self,
            ).regs().insert(
                RegisterTable::CompatibleTimerCounter0.spec_addr(),
                (data & 0x00FF) as u8,
            ),
    {
        match self.write_register(RegisterTable::CompatibleTimerCounter0, (data & 0x00FF) as u8) {
            Ok(()) => (),
            Err(e) => {
                return Err(e);
            },
        }
        self.write_register(RegisterTable::CompatibleTimerCounter1, ((data & 0xFF00) >> 8) as u8)
    }

    /// The RESET bit of the control register.
    pub fn reset(&mut self) -> (r: Result<bool, BusError>)
        ensures
            final(self).regs() == old(self).regs(),
            r is Ok ==> r->Ok_0 == spec_bit(
                old(self).regs()[RegisterTable::CompatibleControlRegister.spec_addr()],
                0,
            ),
    {
        self.read_register_1bit(RegisterTable::CompatibleControlRegister, 0)
    }
}

impl<I2C: I2cBus> Rx8900<I2C> {
    /// Writes the TEST bit of the extension register.
    pub fn set_test(&mut self, data: bool) -> (r: Result<(), BusError>)
        ensures
            r is Ok ==> final(self).regs() == old(self).regs().insert(
                RegisterTable::CompatibleExtensionRegister.spec_addr(),
                spec_set_bit(old(self).regs()[RegisterTable::CompatibleExtensionRegister.spec_addr()], 7, data),
            ),
            r is Err ==> final(self).regs() == old(self).regs(),
    {
        self.set_bit(RegisterTable::CompatibleExtensionRegister, 7, data)
    }

    /// Writes the WADA bit of the extension register: week- or day-alarm select.
    pub fn set_wada(&mut self, data: bool) -> (r: Result<(), BusError>)
        ensures
            r is Ok ==> final(self).regs() == old(self).regs().insert(
                RegisterTable::CompatibleExtensionRegister.spec_addr(),
                spec_set_bit(old(self).regs()[RegisterTable::CompatibleExtensionRegister.spec_addr()], 6, data),
            ),
            r is Err ==> final(self).regs() == old(self).regs(),
    {
        self.set_bit(RegisterTable::CompatibleExtensionRegister, 6, data)
    }

    /// Selects which alarm the shared alarm register holds, through the
    /// WADA bit.
    pub fn set_alarm_type(&mut self, data: AlarmType) -> (r: Result<(), BusError>)
        ensures
            r is Ok ==> final(self).regs() == old(self).regs().insert(
                RegisterTable::CompatibleExtensionRegister.spec_addr(),
                spec_set_bit(
                    old(self).regs()[RegisterTable::CompatibleExtensionRegister.spec_addr()],
                    6,
                    data is DayAlarm,
                ),
            ),
            r is Err ==> final(self).regs() == old(self).regs(),
    {
        self.set_wada(data == AlarmType::DayAlarm)
    }

    /// Writes the USEL bit of the extension register.
    pub fn set_usel(&mut self, data: bool) -> (r: Result<(), BusError>)
        ensures
            r is Ok ==> final(self).regs() == old(self).regs().insert(
                RegisterTable::CompatibleExtensionRegister.spec_addr(),
                spec_set_bit(old(self).regs()[RegisterTable::CompatibleExtensionRegister.spec_addr()], 5, data),
            ),
            r is Err ==> final(self).regs() == old(self).regs(),
    {
        self.set_bit(RegisterTable::CompatibleExtensionRegister, 5, data)
    }

    /// Selects the update-interrupt granularity, through the USEL bit.
    pub fn set_update_interrupt_type(&mut self, data: UpdateInterruptType) -> (r: Result<
        (),
        BusError,
    >)
        ensures
            r is Ok ==> final(self).regs() == old(self).regs().insert(
                RegisterTable::CompatibleExtensionRegister.spec_addr(),
                spec_set_bit(
                    old(self).regs()[RegisterTable::CompatibleExtensionRegister.spec_addr()],
                    5,
                    data is EveryMinute,
                ),
            ),
            r is Err ==> final(self).regs() == old(self).regs(),
    {
        self.set_usel(data == UpdateInterruptType::EveryMinute)
    }

    /// Writes the TE bit of the extension register: timer enable.
    pub fn set_te(&mut self, data: bool) -> (r: Result<(), BusError>)
        ensures
            r is Ok ==> final(self).regs() == old(self).regs().insert(
                RegisterTable::CompatibleExtensionRegister.spec_addr(),
                spec_set_bit(old(self).regs()[RegisterTable::CompatibleExtensionRegister.spec_addr()], 4, data),
            ),
            r is Err ==> final(self).regs() == old(self).regs(),
    {
        self.set_bit(RegisterTable::CompatibleExtensionRegister, 4, data)
    }

    /// Enables the timer: writes 1 to the TE bit.
    pub fn set_timer_enable(&mut self) -> (r: Result<(), BusError>)
        ensures
            r is Ok ==> final(self).regs() == old(self).regs().insert(
                RegisterTable::CompatibleExtensionRegister.spec_addr(),
                spec_set_bit(old(self).regs()[RegisterTable::CompatibleExtensionRegister.spec_addr()], 4, true),
            ),
            r is Err ==> final(self).regs() == old(self).regs(),
    {
        let r = self.set_te(true);
        proof {
            lemma_set_bit(old(self).regs()[RegisterTable::CompatibleExtensionRegister.spec_addr()], 4, true);
        }
        r
    }

    /// Disables the timer: writes 0 to the TE bit.
    pub fn reset_timer_enable(&mut self) -> (r: Result<(), BusError>)
        ensures
            r is Ok ==> final(self).regs() == old(self).regs().insert(
                RegisterTable::CompatibleExtensionRegister.spec_addr(),
                spec_set_bit(old(self).regs()[RegisterTable::CompatibleExtensionRegister.spec_addr()], 4, false),
            ),
            r is Err ==> final(self).regs() == old(self).regs(),
    {
        let r = self.set_te(false);
        proof {
            lemma_set_bit(old(self).regs()[RegisterTable::CompatibleExtensionRegister.spec_addr()], 4, false);
        }
        r
    }

    /// Writes the FSEL1 bit of the extension register.
    pub fn set_fsel1(&mut self, data: bool) -> (r: Result<(), BusError>)
        ensures
            r is Ok ==> final(self).regs() == old(self).regs().insert(
                RegisterTable::CompatibleExtensionRegister.spec_addr(),
                spec_set_bit(old(self).regs()[RegisterTable::CompatibleExtensionRegister.spec_addr()], 3, data),
            ),
            r is Err ==> final(self).regs() == old(self).regs(),
    {
        self.set_bit(RegisterTable::CompatibleExtensionRegister, 3, data)
    }

    /// Writes the FSEL0 bit of the extension register.
    pub fn set_fsel0(&mut self, data: bool) -> (r: Result<(), BusError>)
        ensures
            r is Ok ==> final(self).regs() == old(self).regs().insert(
                RegisterTable::CompatibleExtensionRegister.spec_addr(),
                spec_set_bit(old(self).regs()[RegisterTable::CompatibleExtensionRegister.spec_addr()], 2, data),
            ),
            r is Err ==> final(self).regs() == old(self).regs(),
    {
        self.set_bit(RegisterTable::CompatibleExtensionRegister, 2, data)
    }

    /// Writes the 2-bit FSEL field: bits 3 and 2 of the extension
    /// register, keeping the rest.
    pub fn set_fsel(&mut self, data: u8) -> (r: Result<(), BusError>)
        ensures
            r is Ok ==> final(self).regs() == old(self).regs().insert(
                RegisterTable::CompatibleExtensionRegister.spec_addr(),
                (old(self).regs()[RegisterTable::CompatibleExtensionRegister.spec_addr()] & 0xF3) | (data << 2),
            ),
            r is Err ==> final(self).regs() == old(self).regs(),
    {
        let current = match self.read_register(RegisterTable::CompatibleExtensionRegister) {
            Ok(d) => d,
            Err(e) => {
                return Err(e);
            },
        };
        self.write_register(RegisterTable::CompatibleExtensionRegister, (current & 0xF3) | (data << 2))
    }

    /// Selects the FOUT frequency, through the FSEL field.
    pub fn set_fout_frequency(&mut self, data: FoutFrequency) -> (r: Result<(), BusError>)
        ensures
            r is Ok ==> final(self).regs() == old(self).regs().insert(
                RegisterTable::CompatibleExtensionRegister.spec_addr(),
                (old(self).regs()[RegisterTable::CompatibleExtensionRegister.spec_addr()] & 0xF3) | (data.spec_value()
                    << 2),
            ),
            r is Err ==> final(self).regs() == old(self).regs(),
    {
        self.set_fsel(data.value())
    }

    /// Selects the timer's source clock: writes the 2-bit TSEL field,
    /// bits 1 and 0 of the extension register, keeping the rest.
    pub fn set_source_clock(&mut self, data: SourceClock) -> (r: Result<(), BusError>)
        ensures
            r is Ok ==> final(self).regs() == old(self).regs().insert(
                RegisterTable::CompatibleExtensionRegister.spec_addr(),
                (old(self).regs()[RegisterTable::CompatibleExtensionRegister.spec_addr()] & 0xFC) | data.spec_value(),
            ),
            r is Err ==> final(self).regs() == old(self).regs(),
    {
        let current = match self.read_register(RegisterTable::CompatibleExtensionRegister) {
            Ok(d) => d,
            Err(e) => {
                return Err(e);
            },
        };
        self.write_register(RegisterTable::CompatibleExtensionRegister, (current & 0xFC) | data.value())
    }

    /// Writes the TSEL1 bit of the extension register.
    pub fn set_tsel1(&mut self, data: bool) -> (r: Result<(), BusError>)
        ensures
            r is Ok ==> final(self).regs() == old(self).regs().insert(
                RegisterTable::CompatibleExtensionRegister.spec_addr(),
                spec_set_bit(old(self).regs()[RegisterTable::CompatibleExtensionRegister.spec_addr()], 1, data),
            ),
            r is Err ==> final(self).regs() == old(self).regs(),
    {
        self.set_bit(RegisterTable::CompatibleExtensionRegister, 1, data)
    }

    /// Writes the TSEL0 bit of the extension register.
    pub fn set_tsel0(&mut self, data: bool) -> (r: Result<(), BusError>)
        ensures
            r is Ok ==> final(self).regs() == old(self).regs().insert(
                RegisterTable::CompatibleExtensionRegister.spec_addr(),
                spec_set_bit(old(self).regs()[RegisterTable::CompatibleExtensionRegister.spec_addr()], 0, data),
            ),
            r is Err ==> final(self).regs() == old(self).regs(),
    {
        self.set_bit(RegisterTable::CompatibleExtensionRegister, 0, data)
    }

    /// Writes the 2-bit TSEL field: bits 1 and 0 of the extension
    /// register, keeping the rest. The value is not masked: bits of
    /// `data` above the field overwrite the rest of the register, as the
    /// hardware sees the byte.
    pub fn set_tsel(&mut self, data: u8) -> (r: Result<(), BusError>)
        ensures
            r is Ok ==> final(self).regs() == old(self).regs().insert(
                RegisterTable::CompatibleExtensionRegister.spec_addr(),
                (old(self).regs()[RegisterTable::CompatibleExtensionRegister.spec_addr()] & 0xFC) | data,
            ),
            r is Err ==> final(self).regs() == old(self).regs(),
    {
        let current = match self.read_register(RegisterTable::CompatibleExtensionRegister) {
            Ok(d) => d,
            Err(e) => {
                return Err(e);
            },
        };
        self.write_register(RegisterTable::CompatibleExtensionRegister, (current & 0xFC) | data)
    }

    /// Clears the update flag: always writes 0 to the UF bit, whatever the caller intends.
    pub fn set_uf(&mut self) -> (r: Result<(), BusError>)
        ensures
            r is Ok ==> final(self).regs() == old(self).regs().insert(
                RegisterTable::CompatibleFlagRegister.spec_addr(),
                spec_set_bit(old(self).regs()[RegisterTable::CompatibleFlagRegister.spec_addr()], 5, false),
            ),
            r is Ok ==> !spec_bit(
                final(self).regs()[RegisterTable::CompatibleFlagRegister.spec_addr()],
                5,
            ),
            r is Err ==> final(self).regs() == old(self).regs(),
    {
        let r = self.set_bit(RegisterTable::CompatibleFlagRegister, 5, false);
        proof {
            lemma_set_bit(old(self).regs()[RegisterTable::CompatibleFlagRegister.spec_addr()], 5, false);
        }
        r
    }

    /// Clears the update flag: always writes 0 to the UF bit.
    pub fn set_update_flag(&mut self) -> (r: Result<(), BusError>)
        ensures
            r is Ok ==> final(self).regs() == old(self).regs().insert(
                RegisterTable::CompatibleFlagRegister.spec_addr(),
                spec_set_bit(old(self).regs()[RegisterTable::CompatibleFlagRegister.spec_addr()], 5, false),
            ),
            r is Ok ==> !spec_bit(
                final(self).regs()[RegisterTable::CompatibleFlagRegister.spec_addr()],
                5,
            ),
            r is Err ==> final(self).regs() == old(self).regs(),
    {
        self.set_uf()
    }

    /// Writes the TF bit of the flag register: timer flag.
    pub fn set_tf(&mut self, data: bool) -> (r: Result<(), BusError>)
        ensures
            r is Ok ==> final(self).regs() == old(self).regs().insert(
                RegisterTable::CompatibleFlagRegister.spec_addr(),
                spec_set_bit(old(self).regs()[RegisterTable::CompatibleFlagRegister.spec_addr()], 4, data),
            ),
            r is Err ==> final(self).regs() == old(self).regs(),
    {
        self.set_bit(RegisterTable::CompatibleFlagRegister, 4, data)
    }

    /// Clears the timer flag: writes 0 to the TF bit.
    pub fn reset_timer_flag(&mut self) -> (r: Result<(), BusError>)
        ensures
            r is Ok ==> final(self).regs() == old(self).regs().insert(
                RegisterTable::CompatibleFlagRegister.spec_addr(),
                spec_set_bit(old(self).regs()[RegisterTable::CompatibleFlagRegister.spec_addr()], 4, false),
            ),
            r is Ok ==> !spec_bit(
                final(self).regs()[RegisterTable::CompatibleFlagRegister.spec_addr()],
                4,
            ),
            r is Err ==> final(self).regs() == old(self).regs(),
    {
        let r = self.set_tf(false);
        proof {
            lemma_set_bit(old(self).regs()[RegisterTable::CompatibleFlagRegister.spec_addr()], 4, false);
        }
        r
    }

    /// Writes the AF bit of the flag register: alarm flag.
    pub fn set_af(&mut self, data: bool) -> (r: Result<(), BusError>)
        ensures
            r is Ok ==> final(self).regs() == old(self).regs().insert(
                RegisterTable::CompatibleFlagRegister.spec_addr(),
                spec_set_bit(old(self).regs()[RegisterTable::CompatibleFlagRegister.spec_addr()], 3, data),
            ),
            r is Err ==> final(self).regs() == old(self).regs(),
    {
        self.set_bit(RegisterTable::CompatibleFlagRegister, 3, data)
    }

    /// Clears the alarm flag: writes 0 to the AF bit.
    pub fn reset_alarm_flag(&mut self) -> (r: Result<(), BusError>)
        ensures
            r is Ok ==> final(self).regs() == old(self).regs().insert(
                RegisterTable::CompatibleFlagRegister.spec_addr(),
                spec_set_bit(old(self).regs()[RegisterTable::CompatibleFlagRegister.spec_addr()], 3, false),
            ),
            r is Ok ==> !spec_bit(
                final(self).regs()[RegisterTable::CompatibleFlagRegister.spec_addr()],
                3,
            ),
            r is Err ==> final(self).regs() == old(self).regs(),
    {
        let r = self.set_af(false);
        proof {
            lemma_set_bit(old(self).regs()[RegisterTable::CompatibleFlagRegister.spec_addr()], 3, false);
        }
        r
    }

    /// Clears the voltage-low flag: always writes 0 to the VLF bit, whatever the caller intends.
    pub fn set_vlf(&mut self) -> (r: Result<(), BusError>)
        ensures
            r is Ok ==> final(self).regs() == old(self).regs().insert(
                RegisterTable::CompatibleFlagRegister.spec_addr(),
                spec_set_bit(old(self).regs()[RegisterTable::CompatibleFlagRegister.spec_addr()], 1, false),
            ),
            r is Ok ==> !spec_bit(
                final(self).regs()[RegisterTable::CompatibleFlagRegister.spec_addr()],
                1,
            ),
            r is Err ==> final(self).regs() == old(self).regs(),
    {
        let r = self.set_bit(RegisterTable::CompatibleFlagRegister, 1, false);
        proof {
            lemma_set_bit(old(self).regs()[RegisterTable::CompatibleFlagRegister.spec_addr()], 1, false);
        }
        r
    }

    /// Clears the voltage-low flag: always writes 0 to the VLF bit.
    pub fn set_voltage_low_flag(&mut self) -> (r: Result<(), BusError>)
        ensures
            r is Ok ==> final(self).regs() == old(self).regs().insert(
                RegisterTable::CompatibleFlagRegister.spec_addr(),
                spec_set_bit(old(self).regs()[RegisterTable::CompatibleFlagRegister.spec_addr()], 1, false),
            ),
            r is Ok ==> !spec_bit(
                final(self).regs()[RegisterTable::CompatibleFlagRegister.spec_addr()],
                1,
            ),
            r is Err ==> final(self).regs() == old(self).regs(),
    {
        self.set_vlf()
    }

    /// Clears the voltage-detect flag: always writes 0 to the VDET bit, whatever the caller intends.
    pub fn set_vdet(&mut self) -> (r: Result<(), BusError>)
        ensures
            r is Ok ==> final(self).regs() == old(self).regs().insert(
                RegisterTable::CompatibleFlagRegister.spec_addr(),
                spec_set_bit(old(self).regs()[RegisterTable::CompatibleFlagRegister.spec_addr()], 0, false),
            ),
            r is Ok ==> !spec_bit(
                final(self).regs()[RegisterTable::CompatibleFlagRegister.spec_addr()],
                0,
            ),
            r is Err ==> final(self).regs() == old(self).regs(),
    {
        let r = self.set_bit(RegisterTable::CompatibleFlagRegister, 0, false);
        proof {
            lemma_set_bit(old(self).regs()[RegisterTable::CompatibleFlagRegister.spec_addr()], 0, false);
        }
        r
    }

    /// Clears the voltage-detect flag: always writes 0 to the VDET bit.
    pub fn set_voltage_detect_flag(&mut self) -> (r: Result<(), BusError>)
        ensures
            r is Ok ==> final(self).regs() == old(self).regs().insert(
                RegisterTable::CompatibleFlagRegister.spec_addr(),
                spec_set_bit(old(self).regs()[RegisterTable::CompatibleFlagRegister.spec_addr()], 0, false),
            ),
            r is Ok ==> !spec_bit(
                final(self).regs()[RegisterTable::CompatibleFlagRegister.spec_addr()],
                0,
            ),
            r is Err ==> final(self).regs() == old(self).regs(),
    {
        self.set_vdet()
    }

    /// Writes the CSEL1 bit of the control register.
    pub fn set_csel1(&mut self, data: bool) -> (r: Result<(), BusError>)
        ensures
            r is Ok ==> final(self).regs() == old(self).regs().insert(
                RegisterTable::CompatibleControlRegister.spec_addr(),
                spec_set_bit(old(self).regs()[RegisterTable::CompatibleControlRegister.spec_addr()], 7, data),
            ),
            r is Err ==> final(self).regs() == old(self).regs(),
    {
        self.set_bit(RegisterTable::CompatibleControlRegister, 7, data)
    }

    /// Writes the CSEL0 bit of the control register.
    pub fn set_csel0(&mut self, data: bool) -> (r: Result<(), BusError>)
        ensures
            r is Ok ==> final(self).regs() == old(self).regs().insert(
                RegisterTable::CompatibleControlRegister.spec_addr(),
                spec_set_bit(old(self).regs()[RegisterTable::CompatibleControlRegister.spec_addr()], 6, data),
            ),
            r is Err ==> final(self).regs() == old(self).regs(),
    {
        self.set_bit(RegisterTable::CompatibleControlRegister, 6, data)
    }

    /// Writes the 2-bit CSEL field: bits 7 and 6 of the control register,
    /// keeping the rest.
    pub fn set_csel(&mut self, data: u8) -> (r: Result<(), BusError>)
        ensures
            r is Ok ==> final(self).regs() == old(self).regs().insert(
                RegisterTable::CompatibleControlRegister.spec_addr(),
                (old(self).regs()[RegisterTable::CompatibleControlRegister.spec_addr()] & 0x3F) | (data << 6),
            ),
            r is Err ==> final(self).regs() == old(self).regs(),
    {
        let current = match self.read_register(RegisterTable::CompatibleControlRegister) {
            Ok(d) => d,
            Err(e) => {
                return Err(e);
            },
        };
        self.write_register(RegisterTable::CompatibleControlRegister, (current & 0x3F) | (data << 6))
    }

    /// Selects the compensation interval, through the CSEL field.
    pub fn set_compensation_interval_type(&mut self, data: CompensationIntervalType) -> (r: Result<
        (),
        BusError,
    >)
        ensures
            r is Ok ==> final(self).regs() == old(self).regs().insert(
                RegisterTable::CompatibleControlRegister.spec_addr(),
                (old(self).regs()[RegisterTable::CompatibleControlRegister.spec_addr()] & 0x3F) | (data.spec_value()
                    << 6),
            ),
            r is Err ==> final(self).regs() == old(self).regs(),
    {
        self.set_csel(data.value())
    }

    /// Writes the UIE bit of the control register: update-interrupt enable.
    pub fn set_uie(&mut self, data: bool) -> (r: Result<(), BusError>)
        ensures
            r is Ok ==> final(self).regs() == old(self).regs().insert(
                RegisterTable::CompatibleControlRegister.spec_addr(),
                spec_set_bit(old(self).regs()[RegisterTable::CompatibleControlRegister.spec_addr()], 5, data),
            ),
            r is Err ==> final(self).regs() == old(self).regs(),
    {
        self.set_bit(RegisterTable::CompatibleControlRegister, 5, data)
    }

    /// Writes the update-interrupt enable: the UIE bit.
    pub fn set_update_interrupt_enable(&mut self, data: bool) -> (r: Result<(), BusError>)
        ensures
            r is Ok ==> final(self).regs() == old(self).regs().insert(
                RegisterTable::CompatibleControlRegister.spec_addr(),
                spec_set_bit(old(self).regs()[RegisterTable::CompatibleControlRegister.spec_addr()], 5, data),
            ),
            r is Err ==> final(self).regs() == old(self).regs(),
    {
        self.set_uie(data)
    }

    /// Writes the TIE bit of the control register: timer-interrupt enable.
    pub fn set_tie(&mut self, data: bool) -> (r: Result<(), BusError>)
        ensures
            r is Ok ==> final(self).regs() == old(self).regs().insert(
                RegisterTable::CompatibleControlRegister.spec_addr(),
                spec_set_bit(old(self).regs()[RegisterTable::CompatibleControlRegister.spec_addr()], 4, data),
            ),
            r is Err ==> final(self).regs() == old(self).regs(),
    {
        self.set_bit(RegisterTable::CompatibleControlRegister, 4, data)
    }

    /// Enables the timer interrupt: writes 1 to the TIE bit.
    pub fn set_timer_interrupt_enable(&mut self) -> (r: Result<(), BusError>)
        ensures
            r is Ok ==> final(self).regs() == old(self).regs().insert(
                RegisterTable::CompatibleControlRegister.spec_addr(),
                spec_set_bit(old(self).regs()[RegisterTable::CompatibleControlRegister.spec_addr()], 4, true),
            ),
            r is Err ==> final(self).regs() == old(self).regs(),
    {
        let r = self.set_tie(true);
        proof {
            lemma_set_bit(old(self).regs()[RegisterTable::CompatibleControlRegister.spec_addr()], 4, true);
        }
        r
    }

    /// Disables the timer interrupt: writes 0 to the TIE bit.
    pub fn reset_timer_interrupt_enable(&mut self) -> (r: Result<(), BusError>)
        ensures
            r is Ok ==> final(self).regs() == old(self).regs().insert(
                RegisterTable::CompatibleControlRegister.spec_addr(),
                spec_set_bit(old(self).regs()[RegisterTable::CompatibleControlRegister.spec_addr()], 4, false),
            ),
            r is Err ==> final(self).regs() == old(self).regs(),
    {
        let r = self.set_tie(false);
        proof {
            lemma_set_bit(old(self).regs()[RegisterTable::CompatibleControlRegister.spec_addr()], 4, false);
        }
        r
    }

    /// Writes the AIE bit of the control register: alarm-interrupt enable.
    pub fn set_aie(&mut self, data: bool) -> (r: Result<(), BusError>)
        ensures
            r is Ok ==> final(self).regs() == old(self).regs().insert(
                RegisterTable::CompatibleControlRegister.spec_addr(),
                spec_set_bit(old(self).regs()[RegisterTable::CompatibleControlRegister.spec_addr()], 3, data),
            ),
            r is Err ==> final(self).regs() == old(self).regs(),
    {
        self.set_bit(RegisterTable::CompatibleControlRegister, 3, data)
    }

    /// Enables the alarm interrupt: writes 1 to the AIE bit.
    pub fn set_alarm_interrupt_enable(&mut self) -> (r: Result<(), BusError>)
        ensures
            r is Ok ==> final(self).regs() == old(self).regs().insert(
                RegisterTable::CompatibleControlRegister.spec_addr(),
                spec_set_bit(old(self).regs()[RegisterTable::CompatibleControlRegister.spec_addr()], 3, true),
            ),
            r is Err ==> final(self).regs() == old(self).regs(),
    {
        let r = self.set_aie(true);
        proof {
            lemma_set_bit(old(self).regs()[RegisterTable::CompatibleControlRegister.spec_addr()], 3, true);
        }
        r
    }

    /// Disables the alarm interrupt: writes 0 to the AIE bit.
    pub fn reset_alarm_interrupt_enable(&mut self) -> (r: Result<(), BusError>)
        ensures
            r is Ok ==> final(self).regs() == old(self).regs().insert(
                RegisterTable::CompatibleControlRegister.spec_addr(),
                spec_set_bit(old(self).regs()[RegisterTable::CompatibleControlRegister.spec_addr()], 3, false),
            ),
            r is Err ==> final(self).regs() == old(self).regs(),
    {
        let r = self.set_aie(false);
        proof {
            lemma_set_bit(old(self).regs()[RegisterTable::CompatibleControlRegister.spec_addr()], 3, false);
        }
        r
    }

    /// Writes the RESET bit of the control register.
    pub fn set_reset(&mut self, data: bool) -> (r: Result<(), BusError>)
        ensures
            r is Ok ==> final(self).regs() == old(self).regs().insert(
                RegisterTable::CompatibleControlRegister.spec_addr(),
                spec_set_bit(old(self).regs()[RegisterTable::CompatibleControlRegister.spec_addr()], 0, data),
            ),
            r is Err ==> final(self).regs() == old(self).regs(),
    {
        self.set_bit(RegisterTable::CompatibleControlRegister, 0, data)
    }

    /// Writes the VDETOFF bit of the backup-function register.
    pub fn set_vdetoff(&mut self, data: bool) -> (r: Result<(), BusError>)
        ensures
            r is Ok ==> final(self).regs() == old(self).regs().insert(
                RegisterTable::ExtendedBackupFunction.spec_addr(),
                spec_set_bit(old(self).regs()[RegisterTable::ExtendedBackupFunction.spec_addr()], 3, data),
            ),
            r is Err ==> final(self).regs() == old(self).regs(),
    {
        self.set_bit(RegisterTable::ExtendedBackupFunction, 3, data)
    }

    /// Writes the voltage-detector switch-off: the VDETOFF bit.
    pub fn set_voltage_detector_off(&mut self, data: bool) -> (r: Result<(), BusError>)
        ensures
            r is Ok ==> final(self).regs() == old(self).regs().insert(
                RegisterTable::ExtendedBackupFunction.spec_addr(),
                spec_set_bit(old(self).regs()[RegisterTable::ExtendedBackupFunction.spec_addr()], 3, data),
            ),
            r is Err ==> final(self).regs() == old(self).regs(),
    {
        self.set_vdetoff(data)
    }

    /// Writes the SWOFF bit of the backup-function register.
    pub fn set_swoff(&mut self, data: bool) -> (r: Result<(), BusError>)
        ensures
            r is Ok ==> final(self).regs() == old(self).regs().insert(
                RegisterTable::ExtendedBackupFunction.spec_addr(),
                spec_set_bit(old(self).regs()[RegisterTable::ExtendedBackupFunction.spec_addr()], 2, data),
            ),
            r is Err ==> final(self).regs() == old(self).regs(),
    {
        self.set_bit(RegisterTable::ExtendedBackupFunction, 2, data)
    }

    /// Writes the power switch-off: the SWOFF bit.
    pub fn set_switch_off(&mut self, data: bool) -> (r: Result<(), BusError>)
        ensures
            r is Ok ==> final(self).regs() == old(self).regs().insert(
                RegisterTable::ExtendedBackupFunction.spec_addr(),
                spec_set_bit(old(self).regs()[RegisterTable::ExtendedBackupFunction.spec_addr()], 2, data),
            ),
            r is Err ==> final(self).regs() == old(self).regs(),
    {
        self.set_swoff(data)
    }

    /// Writes bit 1 of the backup-mode sampling-time field.
    pub fn set_bksmp1(&mut self, data: bool) -> (r: Result<(), BusError>)
        ensures
            r is Ok ==> final(self).regs() == old(self).regs().insert(
                RegisterTable::ExtendedBackupFunction.spec_addr(),
                spec_set_bit(old(self).regs()[RegisterTable::ExtendedBackupFunction.spec_addr()], 1, data),
            ),
            r is Err ==> final(self).regs() == old(self).regs(),
    {
        self.set_bit(RegisterTable::ExtendedBackupFunction, 1, data)
    }

    /// Writes bit 0 of the backup-mode sampling-time field.
    pub fn set_bksmp0(&mut self, data: bool) -> (r: Result<(), BusError>)
        ensures
            r is Ok ==> final(self).regs() == old(self).regs().insert(
                RegisterTable::ExtendedBackupFunction.spec_addr(),
                spec_set_bit(old(self).regs()[RegisterTable::ExtendedBackupFunction.spec_addr()], 0, data),
            ),
            r is Err ==> final(self).regs() == old(self).regs(),
    {
        self.set_bit(RegisterTable::ExtendedBackupFunction, 0, data)
    }

    /// Writes the 2-bit backup-mode sampling-time field, keeping the rest
    /// of the register.
    pub fn set_bksmp(&mut self, data: u8) -> (r: Result<(), BusError>)
        ensures
            r is Ok ==> final(self).regs() == old(self).regs().insert(
                RegisterTable::ExtendedBackupFunction.spec_addr(),
                (old(self).regs()[RegisterTable::ExtendedBackupFunction.spec_addr()] & 0xFC) | (data & 0x03),
            ),
            r is Err ==> final(self).regs() == old(self).regs(),
    {
        let current = match self.read_register(RegisterTable::ExtendedBackupFunction) {
            Ok(d) => d,
            Err(e) => {
                return Err(e);
            },
        };
        self.write_register(RegisterTable::ExtendedBackupFunction, (current & 0xFC) | (data & 0x03))
    }

    /// Writes the 2-bit backup-mode sampling-time field.
    pub fn set_backup_mode_sampling_time(&mut self, data: u8) -> (r: Result<(), BusError>)
        ensures
            r is Ok ==> final(self).regs() == old(self).regs().insert(
                RegisterTable::ExtendedBackupFunction.spec_addr(),
                (old(self).regs()[RegisterTable::ExtendedBackupFunction.spec_addr()] & 0xFC) | (data & 0x03),
            ),
            r is Err ==> final(self).regs() == old(self).regs(),
    {
        self.set_bksmp(data)
    }
}

impl<I2C: I2cBus> Rx8900<I2C> {
    /// Runs the one-shot configuration after power loss: disables the
    /// timer, FOUT selection, test mode and all three interrupts, clears
    /// the voltage flags, disables the voltage detector and enables the
    /// power switch-off feature. Not atomic: a bus fault partway leaves a
    /// mixed configuration, and only the four registers named here can
    /// have changed. The caller then supplies a fresh timestamp and, on a
    /// fault, re-checks the voltage-low flag on the next boot.
    pub fn init(&mut self) -> (r: Result<(), BusError>)
        ensures
            r is Ok ==> final(self).regs() == old(self).regs().insert(
                RegisterTable::CompatibleExtensionRegister.spec_addr(),
                old(self).regs()[RegisterTable::CompatibleExtensionRegister.spec_addr()] & 0x63,
            ).insert(
                RegisterTable::CompatibleFlagRegister.spec_addr(),
                old(self).regs()[RegisterTable::CompatibleFlagRegister.spec_addr()] & 0xFC,
            ).insert(
                RegisterTable::CompatibleControlRegister.spec_addr(),
                old(self).regs()[RegisterTable::CompatibleControlRegister.spec_addr()] & 0xC7,
            ).insert(
                RegisterTable::ExtendedBackupFunction.spec_addr(),
                old(self).regs()[RegisterTable::ExtendedBackupFunction.spec_addr()] | 0x0C,
            ),
            r is Err ==> forall|a: u8|
                a != RegisterTable::CompatibleExtensionRegister.spec_addr() && a
                    != RegisterTable::CompatibleFlagRegister.spec_addr() && a
                    != RegisterTable::CompatibleControlRegister.spec_addr() && a
                    != RegisterTable::ExtendedBackupFunction.spec_addr() ==> final(self).regs()[a]
                    == old(self).regs()[a],
    {
        match self.set_te(false) {
            Ok(()) => (),
            Err(e) => {
                return Err(e);
            },
        }
        match self.set_fsel0(false) {
            Ok(()) => (),
            Err(e) => {
                return Err(e);
            },
        }
        match self.set_fsel1(false) {
            Ok(()) => (),
            Err(e) => {
                return Err(e);
            },
        }
        match self.set_test(false) {
            Ok(()) => (),
            Err(e) => {
                return Err(e);
            },
        }
        match self.set_vdet() {
            Ok(()) => (),
            Err(e) => {
                return Err(e);
            },
        }
        match self.set_vlf() {
            Ok(()) => (),
            Err(e) => {
                return Err(e);
            },
        }
        match self.set_aie(false) {
            Ok(()) => (),
            Err(e) => {
                return Err(e);
            },
        }
        match self.set_tie(false) {
            Ok(()) => (),
            Err(e) => {
                return Err(e);
            },
        }
        match self.set_uie(false) {
            Ok(()) => (),
            Err(e) => {
                return Err(e);
            },
        }
        match self.set_voltage_detector_off(true) {
            Ok(()) => (),
            Err(e) => {
                return Err(e);
            },
        }
        match self.set_switch_off(true) {
            Ok(()) => (),
            Err(e) => {
                return Err(e);
            },
        }
        proof {
            let e0 = old(self).regs()[RegisterTable::CompatibleExtensionRegister.spec_addr()];
            let f0 = old(self).regs()[RegisterTable::CompatibleFlagRegister.spec_addr()];
            let c0 = old(self).regs()[RegisterTable::CompatibleControlRegister.spec_addr()];
            let b0 = old(self).regs()[RegisterTable::ExtendedBackupFunction.spec_addr()];
            assert((((e0 & !(1u8 << 4)) & !(1u8 << 2)) & !(1u8 << 3)) & !(1u8 << 7) == e0 & 0x63)
                by (bit_vector);
            assert((f0 & !(1u8 << 0)) & !(1u8 << 1) == f0 & 0xFC) by (bit_vector);
            assert(((c0 & !(1u8 << 3)) & !(1u8 << 4)) & !(1u8 << 5) == c0 & 0xC7) by (bit_vector);
            assert((b0 | (1u8 << 3)) | (1u8 << 2) == b0 | 0x0C) by (bit_vector);
            assert(self.regs() =~= old(self).regs().insert(
                RegisterTable::CompatibleExtensionRegister.spec_addr(),
                e0 & 0x63,
            ).insert(RegisterTable::CompatibleFlagRegister.spec_addr(), f0 & 0xFC).insert(
                RegisterTable::CompatibleControlRegister.spec_addr(),
                c0 & 0xC7,
            ).insert(RegisterTable::ExtendedBackupFunction.spec_addr(), b0 | 0x0C));
        }
        Ok(())
    }

    /// Reads the full timestamp: six calendar registers, decoded and
    /// validated. A register file that does not hold a real date is
    /// invalid data; an impossible time of day (a momentarily
    /// inconsistent read) is substituted with midnight rather than
    /// failing.
    pub fn datetime(&mut self) -> (r: Result<Timestamp, Rx8900Error>)
        ensures
            final(self).regs() == old(self).regs(),
            r is Ok ==> spec_regs_date_valid(old(self).regs()) && r->Ok_0 == spec_datetime_of(
                old(self).regs(),
            ),
            r is Err ==> r->Err_0 == Rx8900Error::Bus || (r->Err_0 == Rx8900Error::InvalidData
                && !spec_regs_date_valid(old(self).regs())),
    {
        let second = match self.sec() {
            Ok(v) => v,
            Err(_) => {
                return Err(Rx8900Error::Bus);
            },
        };
        let minute = match self.min() {
            Ok(v) => v,
            Err(_) => {
                return Err(Rx8900Error::Bus);
            },
        };
        let hour = match self.hour() {
            Ok(v) => v,
            Err(_) => {
                return Err(Rx8900Error::Bus);
            },
        };
        let day = match self.day() {
            Ok(v) => v,
            Err(_) => {
                return Err(Rx8900Error::Bus);
            },
        };
        let month = match self.month() {
            Ok(v) => v,
            Err(_) => {
                return Err(Rx8900Error::Bus);
            },
        };
        let yy = match self.year() {
            Ok(v) => v,
            Err(_) => {
                return Err(Rx8900Error::Bus);
            },
        };
        let year: u16 = 2000 + yy as u16;
        if !is_valid_date(year, month, day) {
            return Err(Rx8900Error::InvalidData);
        }
        if is_valid_time(hour, minute, second) {
            Ok(Timestamp { year, month, day, hour, minute, second })
        } else {
            Ok(Timestamp { year, month, day, hour: 0, minute: 0, second: 0 })
        }
    }

    /// Writes a well-formed timestamp: derives the weekday from the date,
    /// then writes year, month, day, weekday, hour, minute and second as
    /// seven sequential single-register writes. Not atomic: a bus fault
    /// partway leaves a mixed old and new state with no rollback, and
    /// only the seven calendar registers can have changed.
    pub fn set_datetime(&mut self, data: Timestamp) -> (r: Result<(), BusError>)
        requires
            data.wf(),
        ensures
            r is Ok ==> final(self).regs() == spec_set_datetime_regs(old(self).regs(), data),
            r is Err ==> forall|a: u8|
                a != RegisterTable::CompatibleYEAR.spec_addr() && a
                    != RegisterTable::CompatibleMONTH.spec_addr() && a
                    != RegisterTable::CompatibleDAY.spec_addr() && a
                    != RegisterTable::CompatibleWEEK.spec_addr() && a
                    != RegisterTable::CompatibleHOUR.spec_addr() && a
                    != RegisterTable::CompatibleMIN.spec_addr() && a
                    != RegisterTable::CompatibleSEC.spec_addr() ==> final(self).regs()[a] == old(
                    self,
                ).regs()[a],
    {
        let yy = (data.year - 2000) as u8;
        match self.set_year(yy) {
            Ok(()) => (),
            Err(e) => {
                return Err(e);
            },
        }
        match self.set_month(data.month) {
            Ok(()) => (),
            Err(e) => {
                return Err(e);
            },
        }
        match self.set_day(data.day) {
            Ok(()) => (),
            Err(e) => {
                return Err(e);
            },
        }
        let wd = weekday_number_of_date(data.year, data.month, data.day);
        match self.set_week(weekday_from_index(wd)) {
            Ok(()) => (),
            Err(e) => {
                return Err(e);
            },
        }
        match self.set_hour(data.hour) {
            Ok(()) => (),
            Err(e) => {
                return Err(e);
            },
        }
        match self.set_min(data.minute) {
            Ok(()) => (),
            Err(e) => {
                return Err(e);
            },
        }
        match self.set_sec(data.second) {
            Ok(()) => (),
            Err(e) => {
                return Err(e);
            },
        }
        Ok(())
    }

    /// Reads the week alarm: the set of weekdays whose one-hot bits are
    /// set in the shared alarm register, in ascending bit order, at most
    /// seven by the hardware's capacity.
    pub fn week_alarm(&mut self) -> (r: Result<heapless::Vec<Weekday, 7>, BusError>)
        ensures
            final(self).regs() == old(self).regs(),
            r is Ok ==> weekday_vec_view(r->Ok_0) == spec_weekdays_of_mask(
                old(self).regs()[RegisterTable::CompatibleWeekDayAlarm.spec_addr()],
            ),
    {
        let data = match self.read_register(RegisterTable::CompatibleWeekDayAlarm) {
            Ok(d) => d,
            Err(e) => {
                return Err(e);
            },
        };
        let mut weekdays = weekday_vec_new();
        let mut i: u8 = 0;
        while i < 7
            invariant
                i <= 7,
                weekday_vec_view(weekdays) == spec_weekdays_of_mask_upto(data, i as int),
            decreases 7 - i,
        {
            proof {
                lemma_weekdays_of_mask_upto_len(data, i as int);
            }
            let bit = 1u8 << i;
            if (data & bit) == bit {
                weekday_vec_push(&mut weekdays, weekday_from_index(i));
            }
            i = i + 1;
        }
        Ok(weekdays)
    }

    /// Writes the week alarm: the one-hot bits of the given weekdays,
    /// folded together into the shared alarm register.
    pub fn set_week_alarm(&mut self, data: &heapless::Vec<Weekday, 7>) -> (r: Result<
        (),
        BusError,
    >)
        ensures
            r is Ok ==> final(self).regs() == old(self).regs().insert(
                RegisterTable::CompatibleWeekDayAlarm.spec_addr(),
                spec_week_mask_of(weekday_vec_view(*data)),
            ),
            r is Err ==> final(self).regs() == old(self).regs(),
    {
        let n = weekday_vec_len(data);
        let mut value: u8 = 0;
        let mut i: usize = 0;
        proof {
            assert(weekday_vec_view(*data).take(0) =~= Seq::<Weekday>::empty());
        }
        while i < n
            invariant
                i <= n,
                n == weekday_vec_view(*data).len(),
                value == spec_week_mask_of(weekday_vec_view(*data).take(i as int)),
            decreases n - i,
        {
            let day = weekday_vec_get(data, i);
            value = value | to_week(day);
            proof {
                let s = weekday_vec_view(*data);
                assert(s.take(i as int + 1).drop_last() =~= s.take(i as int));
                assert(s.take(i as int + 1).last() == s[i as int]);
            }
            i = i + 1;
        }
        proof {
            assert(weekday_vec_view(*data).take(n as int) =~= weekday_vec_view(*data));
        }
        self.write_register(RegisterTable::CompatibleWeekDayAlarm, value)
    }
}

} // verus!

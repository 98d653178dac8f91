//! Tests of the register accessors against the simulated bus.

use rx8900::BusError;
use rx8900::RegisterTable;
use rx8900::Rx8900;
use rx8900::Rx8900Error;
use rx8900::SimBus;
use rx8900::SourceClock;
use rx8900::FoutFrequency;
use rx8900::CompensationIntervalType;
use rx8900::AlarmType;
use rx8900::UpdateInterruptType;
use rx8900::Weekday;

fn fresh() -> Rx8900<SimBus> {
    Rx8900::new(SimBus::new())
}

#[test]
fn sec_decodes_masked_bcd() {
    let mut rx = fresh();
    rx.bus_mut().poke(RegisterTable::CompatibleSEC.addr(), 0xD9);
    assert_eq!(rx.sec(), Ok(59));
}

#[test]
fn min_decodes_masked_bcd() {
    let mut rx = fresh();
    rx.bus_mut().poke(RegisterTable::CompatibleMIN.addr(), 0x45);
    assert_eq!(rx.min(), Ok(45));
}

#[test]
fn hour_decodes_masked_bcd() {
    let mut rx = fresh();
    rx.bus_mut().poke(RegisterTable::CompatibleHOUR.addr(), 0xE3);
    assert_eq!(rx.hour(), Ok(23));
}

#[test]
fn week_decodes_one_hot() {
    let mut rx = fresh();
    rx.bus_mut().poke(RegisterTable::CompatibleWEEK.addr(), 0x10);
    assert_eq!(rx.week(), Ok(Weekday::Thu));
}

#[test]
fn week_rejects_garbled_byte() {
    let mut rx = fresh();
    rx.bus_mut().poke(RegisterTable::CompatibleWEEK.addr(), 0x05);
    assert_eq!(rx.week(), Err(Rx8900Error::InvalidData));
}

#[test]
fn reads_do_not_change_registers() {
    let mut rx = fresh();
    rx.bus_mut().poke(RegisterTable::CompatibleSEC.addr(), 0x31);
    rx.bus_mut().poke(RegisterTable::CompatibleMIN.addr(), 0x27);
    let first = (rx.sec().unwrap(), rx.min().unwrap(), rx.tsel().unwrap(), rx.uf().unwrap());
    let second = (rx.sec().unwrap(), rx.min().unwrap(), rx.tsel().unwrap(), rx.uf().unwrap());
    assert_eq!(first, second);
}

#[test]
fn setters_encode_bcd() {
    let mut rx = fresh();
    rx.set_sec(59).unwrap();
    rx.set_min(8).unwrap();
    rx.set_hour(23).unwrap();
    rx.set_day(31).unwrap();
    rx.set_month(12).unwrap();
    rx.set_year(99).unwrap();
    assert_eq!(rx.bus_mut().peek(RegisterTable::CompatibleSEC.addr()), 0x59);
    assert_eq!(rx.bus_mut().peek(RegisterTable::CompatibleMIN.addr()), 0x08);
    assert_eq!(rx.bus_mut().peek(RegisterTable::CompatibleHOUR.addr()), 0x23);
    assert_eq!(rx.bus_mut().peek(RegisterTable::CompatibleDAY.addr()), 0x31);
    assert_eq!(rx.bus_mut().peek(RegisterTable::CompatibleMONTH.addr()), 0x12);
    assert_eq!(rx.bus_mut().peek(RegisterTable::CompatibleYEAR.addr()), 0x99);
}

#[test]
fn set_week_writes_one_hot() {
    let mut rx = fresh();
    rx.set_week(Weekday::Fri).unwrap();
    assert_eq!(rx.bus_mut().peek(RegisterTable::CompatibleWEEK.addr()), 0x20);
}

#[test]
fn ram_round_trips_raw() {
    let mut rx = fresh();
    rx.set_ram(0xA7).unwrap();
    assert_eq!(rx.ram(), Ok(0xA7));
}

#[test]
fn alarms_encode_value_and_enable_bit() {
    let mut rx = fresh();
    rx.set_min_alarm(45, true).unwrap();
    rx.set_hour_alarm(7, false).unwrap();
    rx.set_day_alarm(15, true).unwrap();
    assert_eq!(rx.bus_mut().peek(RegisterTable::CompatibleMinAlarm.addr()), 0xC5);
    assert_eq!(rx.bus_mut().peek(RegisterTable::CompatibleHourAlarm.addr()), 0x07);
    assert_eq!(rx.bus_mut().peek(RegisterTable::CompatibleWeekDayAlarm.addr()), 0x95);
    assert_eq!(rx.min_alarm(), Ok(45));
    assert_eq!(rx.min_alarm_enabled(), Ok(true));
    assert_eq!(rx.hour_alarm(), Ok(7));
    assert_eq!(rx.hour_alarm_enabled(), Ok(false));
    assert_eq!(rx.day_alarm(), Ok(15));
    assert_eq!(rx.day_alarm_enabled(), Ok(true));
}

#[test]
fn week_alarm_round_trips_weekday_set() {
    let mut rx = fresh();
    let mut days = rx8900::weekday_vec_new();
    rx8900::weekday_vec_push(&mut days, Weekday::Mon);
    rx8900::weekday_vec_push(&mut days, Weekday::Fri);
    rx.set_week_alarm(&days).unwrap();
    assert_eq!(rx.bus_mut().peek(RegisterTable::CompatibleWeekDayAlarm.addr()), 0x22);
    let back = rx.week_alarm().unwrap();
    assert_eq!(rx8900::weekday_vec_len(&back), 2);
    assert_eq!(rx8900::weekday_vec_get(&back, 0), Weekday::Mon);
    assert_eq!(rx8900::weekday_vec_get(&back, 1), Weekday::Fri);
}

#[test]
fn week_alarm_reads_all_set_bits_in_bit_order() {
    let mut rx = fresh();
    rx.bus_mut().poke(RegisterTable::CompatibleWeekDayAlarm.addr(), 0x41);
    let back = rx.week_alarm().unwrap();
    assert_eq!(rx8900::weekday_vec_len(&back), 2);
    assert_eq!(rx8900::weekday_vec_get(&back, 0), Weekday::Sun);
    assert_eq!(rx8900::weekday_vec_get(&back, 1), Weekday::Sat);
}

#[test]
fn timer_counter_combines_two_registers() {
    let mut rx = fresh();
    rx.set_timer_counter(0xABCD).unwrap();
    assert_eq!(rx.bus_mut().peek(RegisterTable::CompatibleTimerCounter0.addr()), 0xCD);
    assert_eq!(rx.bus_mut().peek(RegisterTable::CompatibleTimerCounter1.addr()), 0xAB);
    assert_eq!(rx.timer_counter(), Ok(0xABCD));
    assert_eq!(rx.timer_counter0(), Ok(0xCD));
    assert_eq!(rx.timer_counter1(), Ok(0xAB));
}

#[test]
fn temp_reads_raw_register() {
    let mut rx = fresh();
    rx.bus_mut().poke(RegisterTable::ExtendedTEMP.addr(), 0x80);
    assert_eq!(rx.temp(), Ok(0x80));
}

#[test]
fn flag_clears_write_zero_from_all_ones() {
    let mut rx = fresh();
    let flag = RegisterTable::CompatibleFlagRegister.addr();
    rx.bus_mut().poke(flag, 0xFF);
    rx.set_vlf().unwrap();
    assert_eq!(rx.bus_mut().peek(flag), 0xFD);
    rx.set_vdet().unwrap();
    assert_eq!(rx.bus_mut().peek(flag), 0xFC);
    rx.set_uf().unwrap();
    assert_eq!(rx.bus_mut().peek(flag), 0xDC);
    rx.reset_timer_flag().unwrap();
    assert_eq!(rx.bus_mut().peek(flag), 0xCC);
    rx.reset_alarm_flag().unwrap();
    assert_eq!(rx.bus_mut().peek(flag), 0xC4);
}

#[test]
fn flag_clears_write_zero_from_all_zeros() {
    let mut rx = fresh();
    let flag = RegisterTable::CompatibleFlagRegister.addr();
    rx.bus_mut().poke(flag, 0x00);
    rx.set_update_flag().unwrap();
    rx.set_voltage_low_flag().unwrap();
    rx.set_voltage_detect_flag().unwrap();
    assert_eq!(rx.bus_mut().peek(flag), 0x00);
    assert_eq!(rx.vlf(), Ok(false));
    assert_eq!(rx.vdet(), Ok(false));
    assert_eq!(rx.uf(), Ok(false));
}

#[test]
fn extension_register_fields() {
    let mut rx = fresh();
    rx.set_test(true).unwrap();
    rx.set_wada(true).unwrap();
    rx.set_usel(true).unwrap();
    rx.set_te(true).unwrap();
    assert_eq!(rx.test(), Ok(true));
    assert_eq!(rx.wada(), Ok(true));
    assert_eq!(rx.usel(), Ok(true));
    assert_eq!(rx.te(), Ok(true));
    assert_eq!(rx.timer_enable(), Ok(true));
    assert_eq!(rx.alarm_type(), Ok(AlarmType::DayAlarm));
    assert_eq!(rx.update_interrupt_type(), Ok(UpdateInterruptType::EveryMinute));
    rx.reset_timer_enable().unwrap();
    assert_eq!(rx.te(), Ok(false));
    rx.set_alarm_type(AlarmType::WeekAlarm).unwrap();
    assert_eq!(rx.wada(), Ok(false));
    rx.set_update_interrupt_type(UpdateInterruptType::EverySecond).unwrap();
    assert_eq!(rx.usel(), Ok(false));
}

#[test]
fn fout_frequency_field() {
    let mut rx = fresh();
    rx.set_fout_frequency(FoutFrequency::FoutFrequency1Hz).unwrap();
    assert_eq!(rx.fsel(), Ok(0b10));
    assert_eq!(rx.fout_frequency(), Ok(FoutFrequency::FoutFrequency1Hz));
    rx.set_fsel(0b11).unwrap();
    assert_eq!(rx.fout_frequency(), Ok(FoutFrequency::FoutFrequency32_768kHz));
    assert_eq!(rx.fsel1(), Ok(true));
    assert_eq!(rx.fsel0(), Ok(true));
}

#[test]
fn source_clock_field() {
    let mut rx = fresh();
    rx.set_source_clock(SourceClock::SourceClockMinute).unwrap();
    assert_eq!(rx.source_clock(), Ok(SourceClock::SourceClockMinute));
    assert_eq!(rx.tsel(), Ok(0b11));
    assert_eq!(rx.tsel1(), Ok(true));
    assert_eq!(rx.tsel0(), Ok(true));
    rx.set_tsel(0b01).unwrap();
    assert_eq!(rx.source_clock(), Ok(SourceClock::SourceClock64Hz));
}

#[test]
fn compensation_interval_field() {
    let mut rx = fresh();
    rx.set_compensation_interval_type(CompensationIntervalType::CompensationInterval30s).unwrap();
    assert_eq!(rx.csel(), Ok(0b11));
    assert_eq!(rx.csel1(), Ok(true));
    assert_eq!(rx.csel0(), Ok(true));
    assert_eq!(
        rx.compensation_interval_type(),
        Ok(CompensationIntervalType::CompensationInterval30s)
    );
    rx.set_csel(0b01).unwrap();
    assert_eq!(
        rx.compensation_interval_type(),
        Ok(CompensationIntervalType::CompensationInterval2_0s)
    );
}

#[test]
fn control_register_bits() {
    let mut rx = fresh();
    rx.set_uie(true).unwrap();
    rx.set_tie(true).unwrap();
    rx.set_aie(true).unwrap();
    rx.set_reset(true).unwrap();
    assert_eq!(rx.uie(), Ok(true));
    assert_eq!(rx.update_interrupt_enable(), Ok(true));
    assert_eq!(rx.tie(), Ok(true));
    assert_eq!(rx.timer_interrupt_enable(), Ok(true));
    assert_eq!(rx.aie(), Ok(true));
    assert_eq!(rx.alarm_interrupt_enable(), Ok(true));
    assert_eq!(rx.reset(), Ok(true));
    rx.reset_timer_interrupt_enable().unwrap();
    rx.reset_alarm_interrupt_enable().unwrap();
    assert_eq!(rx.tie(), Ok(false));
    assert_eq!(rx.aie(), Ok(false));
    rx.set_timer_interrupt_enable().unwrap();
    rx.set_alarm_interrupt_enable().unwrap();
    assert_eq!(rx.tie(), Ok(true));
    assert_eq!(rx.aie(), Ok(true));
    rx.set_update_interrupt_enable(false).unwrap();
    assert_eq!(rx.uie(), Ok(false));
}

#[test]
fn backup_function_register_bits() {
    let mut rx = fresh();
    rx.set_vdetoff(true).unwrap();
    rx.set_swoff(true).unwrap();
    rx.set_bksmp1(true).unwrap();
    rx.set_bksmp0(true).unwrap();
    assert_eq!(rx.vdetoff(), Ok(true));
    assert_eq!(rx.voltage_detector_off(), Ok(true));
    assert_eq!(rx.swoff(), Ok(true));
    assert_eq!(rx.switch_off(), Ok(true));
    assert_eq!(rx.bksmp1(), Ok(true));
    assert_eq!(rx.bksmp0(), Ok(true));
    assert_eq!(rx.bksmp(), Ok(0b11));
    rx.set_bksmp(0b10).unwrap();
    assert_eq!(rx.backup_mode_sampling_time(), Ok(0b10));
    rx.set_backup_mode_sampling_time(0b01).unwrap();
    assert_eq!(rx.bksmp(), Ok(0b01));
    rx.set_voltage_detector_off(false).unwrap();
    rx.set_switch_off(false).unwrap();
    assert_eq!(rx.vdetoff(), Ok(false));
    assert_eq!(rx.swoff(), Ok(false));
}

#[test]
fn init_configures_four_registers() {
    let mut rx = fresh();
    let ext = RegisterTable::CompatibleExtensionRegister.addr();
    let flag = RegisterTable::CompatibleFlagRegister.addr();
    let ctrl = RegisterTable::CompatibleControlRegister.addr();
    let bk = RegisterTable::ExtendedBackupFunction.addr();
    rx.bus_mut().poke(ext, 0xFF);
    rx.bus_mut().poke(flag, 0xFF);
    rx.bus_mut().poke(ctrl, 0xFF);
    rx.bus_mut().poke(bk, 0xFF);
    rx.init().unwrap();
    assert_eq!(rx.bus_mut().peek(ext), 0x63);
    assert_eq!(rx.bus_mut().peek(flag), 0xFC);
    assert_eq!(rx.bus_mut().peek(ctrl), 0xC7);
    assert_eq!(rx.bus_mut().peek(bk), 0xFF);
}

#[test]
fn init_from_cleared_registers() {
    let mut rx = fresh();
    rx.init().unwrap();
    assert_eq!(rx.bus_mut().peek(RegisterTable::CompatibleExtensionRegister.addr()), 0x00);
    assert_eq!(rx.bus_mut().peek(RegisterTable::CompatibleFlagRegister.addr()), 0x00);
    assert_eq!(rx.bus_mut().peek(RegisterTable::CompatibleControlRegister.addr()), 0x00);
    // The voltage detector is switched off and the power switch-off
    // feature enabled: bits 3 and 2 of the backup-function register.
    assert_eq!(rx.bus_mut().peek(RegisterTable::ExtendedBackupFunction.addr()), 0x0C);
    assert_eq!(rx.voltage_detector_off(), Ok(true));
    assert_eq!(rx.switch_off(), Ok(true));
}

#[test]
fn bus_fault_propagates() {
    let mut rx = fresh();
    rx.bus_mut().set_fail(true);
    assert_eq!(rx.sec(), Err(BusError));
    assert_eq!(rx.set_year(24), Err(BusError));
    assert_eq!(rx.week(), Err(Rx8900Error::Bus));
    assert_eq!(rx.set_vlf(), Err(BusError));
    rx.bus_mut().set_fail(false);
    assert_eq!(rx.sec(), Ok(0));
}

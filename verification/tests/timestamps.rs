//! Tests of the timestamp facade: validity, weekday derivation, and the
//! write-then-read round trip.

use rx8900::RegisterTable;
use rx8900::Rx8900;
use rx8900::Rx8900Error;
use rx8900::SimBus;
use rx8900::Timestamp;
use rx8900::is_valid_date;
use rx8900::is_valid_time;
use rx8900::weekday_number_of_date;

fn fresh() -> Rx8900<SimBus> {
    Rx8900::new(SimBus::new())
}

#[test]
fn date_validity_covers_leap_years() {
    assert!(is_valid_date(2024, 2, 29));
    assert!(!is_valid_date(2023, 2, 29));
    assert!(is_valid_date(2000, 2, 29));
    assert!(!is_valid_date(2023, 4, 31));
    assert!(is_valid_date(2023, 12, 31));
    assert!(!is_valid_date(2023, 13, 1));
    assert!(!is_valid_date(2023, 0, 1));
    assert!(!is_valid_date(2023, 1, 0));
    assert!(!is_valid_date(1999, 12, 31));
    assert!(!is_valid_date(2100, 1, 1));
}

#[test]
fn time_validity_bounds() {
    assert!(is_valid_time(0, 0, 0));
    assert!(is_valid_time(23, 59, 59));
    assert!(!is_valid_time(24, 0, 0));
    assert!(!is_valid_time(0, 60, 0));
    assert!(!is_valid_time(0, 0, 60));
}

#[test]
fn weekday_derivation_matches_calendar() {
    // 2024-01-01 was a Monday, 2024-03-15 a Friday, 2000-01-01 a Saturday.
    assert_eq!(weekday_number_of_date(2024, 1, 1), 1);
    assert_eq!(weekday_number_of_date(2024, 3, 15), 5);
    assert_eq!(weekday_number_of_date(2000, 1, 1), 6);
    assert_eq!(weekday_number_of_date(2024, 3, 10), 0);
}

#[test]
fn datetime_round_trip() {
    let mut rx = fresh();
    let ts = Timestamp { year: 2024, month: 3, day: 15, hour: 13, minute: 45, second: 30 };
    rx.set_datetime(ts).unwrap();
    let back = rx.datetime().unwrap();
    assert_eq!(back, ts);
}

#[test]
fn set_datetime_writes_masked_bcd_and_weekday() {
    let mut rx = fresh();
    let ts = Timestamp { year: 2024, month: 3, day: 15, hour: 13, minute: 45, second: 30 };
    rx.set_datetime(ts).unwrap();
    assert_eq!(rx.bus_mut().peek(RegisterTable::CompatibleYEAR.addr()), 0x24);
    assert_eq!(rx.bus_mut().peek(RegisterTable::CompatibleMONTH.addr()), 0x03);
    assert_eq!(rx.bus_mut().peek(RegisterTable::CompatibleDAY.addr()), 0x15);
    // 2024-03-15 was a Friday: one-hot bit 5.
    assert_eq!(rx.bus_mut().peek(RegisterTable::CompatibleWEEK.addr()), 0x20);
    assert_eq!(rx.bus_mut().peek(RegisterTable::CompatibleHOUR.addr()), 0x13);
    assert_eq!(rx.bus_mut().peek(RegisterTable::CompatibleMIN.addr()), 0x45);
    assert_eq!(rx.bus_mut().peek(RegisterTable::CompatibleSEC.addr()), 0x30);
}

#[test]
fn datetime_substitutes_midnight_for_impossible_time() {
    let mut rx = fresh();
    let ts = Timestamp { year: 2024, month: 3, day: 15, hour: 13, minute: 45, second: 30 };
    rx.set_datetime(ts).unwrap();
    // A garbled seconds byte decodes beyond 59: the read substitutes
    // midnight rather than failing.
    rx.bus_mut().poke(RegisterTable::CompatibleSEC.addr(), 0x75);
    let back = rx.datetime().unwrap();
    assert_eq!(
        back,
        Timestamp { year: 2024, month: 3, day: 15, hour: 0, minute: 0, second: 0 },
    );
}

#[test]
fn datetime_rejects_impossible_date() {
    let mut rx = fresh();
    let ts = Timestamp { year: 2023, month: 2, day: 28, hour: 6, minute: 7, second: 8 };
    rx.set_datetime(ts).unwrap();
    // February 29th of a non-leap year is no date: invalid data.
    rx.bus_mut().poke(RegisterTable::CompatibleDAY.addr(), 0x29);
    assert_eq!(rx.datetime(), Err(Rx8900Error::InvalidData));
}

#[test]
fn datetime_rejects_zero_month() {
    let mut rx = fresh();
    // A fresh register file holds month 0, which is no date.
    assert_eq!(rx.datetime(), Err(Rx8900Error::InvalidData));
}

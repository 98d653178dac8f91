//! Tests of the BCD and one-hot weekday codecs.

use rx8900::Weekday;
use rx8900::from_bcd;
use rx8900::from_week;
use rx8900::to_bcd;
use rx8900::to_week;
use rx8900::Rx8900Error;

#[test]
fn bcd_round_trip_all_two_digit_values() {
    for v in 0u8..=99 {
        assert_eq!(from_bcd(to_bcd(v)), v);
    }
}

#[test]
fn bcd_exact_encodings() {
    assert_eq!(to_bcd(0), 0x00);
    assert_eq!(to_bcd(9), 0x09);
    assert_eq!(to_bcd(10), 0x10);
    assert_eq!(to_bcd(59), 0x59);
    assert_eq!(to_bcd(99), 0x99);
}

#[test]
fn bcd_exact_decodings() {
    assert_eq!(from_bcd(0x00), 0);
    assert_eq!(from_bcd(0x45), 45);
    assert_eq!(from_bcd(0x59), 59);
    assert_eq!(from_bcd(0x99), 99);
}

#[test]
fn week_round_trip_all_weekdays() {
    let days = [
        Weekday::Sun,
        Weekday::Mon,
        Weekday::Tue,
        Weekday::Wed,
        Weekday::Thu,
        Weekday::Fri,
        Weekday::Sat,
    ];
    for d in days {
        assert_eq!(from_week(to_week(d)), Ok(d));
    }
}

#[test]
fn week_exact_encodings() {
    assert_eq!(to_week(Weekday::Sun), 0x01);
    assert_eq!(to_week(Weekday::Mon), 0x02);
    assert_eq!(to_week(Weekday::Tue), 0x04);
    assert_eq!(to_week(Weekday::Wed), 0x08);
    assert_eq!(to_week(Weekday::Thu), 0x10);
    assert_eq!(to_week(Weekday::Fri), 0x20);
    assert_eq!(to_week(Weekday::Sat), 0x40);
}

#[test]
fn week_decode_rejects_zero_bits() {
    assert_eq!(from_week(0x00), Err(Rx8900Error::InvalidData));
}

#[test]
fn week_decode_rejects_multiple_bits() {
    assert_eq!(from_week(0x03), Err(Rx8900Error::InvalidData));
    assert_eq!(from_week(0x41), Err(Rx8900Error::InvalidData));
    assert_eq!(from_week(0x7F), Err(Rx8900Error::InvalidData));
}

#[test]
fn week_decode_rejects_high_bit() {
    assert_eq!(from_week(0x80), Err(Rx8900Error::InvalidData));
    assert_eq!(from_week(0x81), Err(Rx8900Error::InvalidData));
}

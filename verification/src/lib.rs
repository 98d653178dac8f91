//! Driver for the RX8900 real-time-clock chip and the status-indicator state
//! machine built on top of it.
//!
//! The crate is organised bottom-up: packed-BCD and one-hot weekday codecs,
//! an abstract addressed register bus, the register-map driver itself, the
//! timestamp facade, and finally the visual-phase state machine that polls
//! the clock and drives a two-colour light.

mod bcd;
mod bits;
mod bus;
mod control;
mod error;
mod indicator;
mod registers;
mod rx8900;
mod sim;
mod timestamp;
mod weekday;

pub use bcd::from_bcd;
pub use bcd::lemma_bcd_round_trip;
pub use bcd::spec_from_bcd;
pub use bcd::spec_to_bcd;
pub use bcd::to_bcd;
pub use bits::lemma_set_bit;
pub use bits::spec_bit;
pub use bits::spec_set_bit;
pub use bus::I2cBus;
pub use bus::RX8900_ADDR;
pub use control::AlarmType;
pub use control::CompensationIntervalType;
pub use control::FoutFrequency;
pub use control::SourceClock;
pub use control::UpdateInterruptType;
pub use control::spec_alarm_type_of;
pub use control::spec_compensation_interval_of;
pub use control::spec_fout_frequency_of;
pub use control::spec_source_clock_of;
pub use control::spec_update_interrupt_type_of;
pub use error::BusError;
pub use error::Rx8900Error;
pub use rx8900::Rx8900;
pub use rx8900::lemma_datetime_round_trip;
pub use rx8900::lemma_weekdays_of_mask_upto_len;
pub use rx8900::spec_datetime_of;
pub use rx8900::spec_day_of;
pub use rx8900::spec_regs_date_valid;
pub use rx8900::spec_set_datetime_regs;
pub use rx8900::spec_week_mask_of;
pub use rx8900::spec_weekdays_of_mask;
pub use rx8900::spec_weekdays_of_mask_upto;
pub use rx8900::spec_hour_of;
pub use rx8900::spec_min_of;
pub use rx8900::spec_month_of;
pub use rx8900::spec_sec_of;
pub use rx8900::spec_year_of;
pub use indicator::ALERT_TICK;
pub use indicator::BOOT_TICKS;
pub use indicator::poll_once;
pub use indicator::spec_settled_step;
pub use indicator::DelayProvider;
pub use indicator::OutputPattern;
pub use indicator::OutputStep;
pub use indicator::StatusLeds;
pub use indicator::StatusMachine;
pub use indicator::VisualPhase;
pub use indicator::reset_epoch;
pub use indicator::spec_minute_phase;
pub use indicator::spec_phase;
pub use indicator::spec_phase_outputs;
pub use indicator::spec_reset_epoch;
pub use indicator::spec_step;
pub use registers::RegisterTable;
pub use sim::SimBus;
pub use sim::SimDelay;
pub use sim::SimLeds;
pub use timestamp::Timestamp;
pub use timestamp::days_in_month;
pub use timestamp::is_leap_year;
pub use timestamp::is_valid_date;
pub use timestamp::is_valid_time;
pub use timestamp::spec_days_in_month;
pub use timestamp::spec_is_leap_year;
pub use timestamp::spec_is_valid_date;
pub use timestamp::spec_is_valid_time;
pub use timestamp::spec_weekday_number_of_date;
pub use timestamp::weekday_number_of_date;
pub use weekday::Weekday;
pub use weekday::from_week;
pub use weekday::lemma_week_round_trip;
pub use weekday::spec_from_week;
pub use weekday::spec_is_one_hot_week;
pub use weekday::spec_to_week;
pub use weekday::spec_weekday_from_index;
pub use weekday::to_week;
pub use weekday::weekday_from_index;
pub use weekday::weekday_vec_get;
pub use weekday::weekday_vec_len;
pub use weekday::weekday_vec_new;
pub use weekday::weekday_vec_push;
pub use weekday::weekday_vec_view;

//! Scenario tests of the status state machine and the poll loop.

use rx8900::RegisterTable;
use rx8900::Rx8900;
use rx8900::SimBus;
use rx8900::SimDelay;
use rx8900::SimLeds;
use rx8900::StatusMachine;
use rx8900::Timestamp;
use rx8900::VisualPhase;
use rx8900::poll_once;

fn fresh() -> Rx8900<SimBus> {
    Rx8900::new(SimBus::new())
}

#[test]
fn boot_phase_at_tick_zero_outputs_off() {
    let machine = StatusMachine::new();
    assert_eq!(machine.ticks, 0);
    let phase = machine.next_phase(0);
    assert_eq!(phase, VisualPhase::Boot);
    let pattern = phase.outputs();
    assert!(!pattern.first.red);
    assert!(!pattern.first.green);
    assert_eq!(pattern.second, None);
}

#[test]
fn boot_phase_through_poll() {
    let mut machine = StatusMachine::new();
    let mut rx = fresh();
    let mut leds = SimLeds::new();
    let mut delay = SimDelay::new();
    let r = poll_once(&mut machine, &mut rx, &mut leds, &mut delay);
    assert_eq!(r, Ok(Some(VisualPhase::Boot)));
    assert!(!leds.red);
    assert!(!leds.green);
    assert_eq!(machine.ticks, 1);
    assert!(!machine.minute_keyed);
}

#[test]
fn unchanged_second_skips_the_tick() {
    let mut machine = StatusMachine::new();
    let mut rx = fresh();
    let mut leds = SimLeds::new();
    let mut delay = SimDelay::new();
    assert_eq!(poll_once(&mut machine, &mut rx, &mut leds, &mut delay), Ok(Some(VisualPhase::Boot)));
    // The simulated clock has not advanced: the same second is observed
    // again, so the machine sleeps the debounce interval and does not tick.
    assert_eq!(poll_once(&mut machine, &mut rx, &mut leds, &mut delay), Ok(None));
    assert_eq!(machine.ticks, 1);
    assert_eq!(delay.total_ms, 10);
}

#[test]
fn warning_phase_at_tick_25_alternates_colors() {
    let machine = StatusMachine { ticks: 25, minute_keyed: false, last_second: 0 };
    let phase = machine.next_phase(0);
    assert_eq!(phase, VisualPhase::Warning);
    let pattern = phase.outputs();
    assert!(pattern.first.red);
    assert!(!pattern.first.green);
    assert_eq!(pattern.first.hold_ms, 500);
    let second = pattern.second.unwrap();
    assert!(!second.red);
    assert!(second.green);
    assert_eq!(second.hold_ms, 400);
}

#[test]
fn alert_reset_at_tick_30_resets_clock_and_lights_both() {
    let mut machine = StatusMachine { ticks: 30, minute_keyed: false, last_second: 7 };
    let mut rx = fresh();
    // Pretend the device had some arbitrary time on it.
    let ts = Timestamp { year: 2024, month: 3, day: 15, hour: 13, minute: 45, second: 30 };
    rx.set_datetime(ts).unwrap();
    let mut leds = SimLeds::new();
    let mut delay = SimDelay::new();
    let r = poll_once(&mut machine, &mut rx, &mut leds, &mut delay);
    assert_eq!(r, Ok(Some(VisualPhase::AlertReset)));
    assert!(leds.red);
    assert!(leds.green);
    assert!(machine.minute_keyed);
    // The clock was forced back to 2024-01-01 00:00:00, a Monday.
    assert_eq!(rx.bus_mut().peek(RegisterTable::CompatibleYEAR.addr()), 0x24);
    assert_eq!(rx.bus_mut().peek(RegisterTable::CompatibleMONTH.addr()), 0x01);
    assert_eq!(rx.bus_mut().peek(RegisterTable::CompatibleDAY.addr()), 0x01);
    assert_eq!(rx.bus_mut().peek(RegisterTable::CompatibleWEEK.addr()), 0x02);
    assert_eq!(rx.bus_mut().peek(RegisterTable::CompatibleHOUR.addr()), 0x00);
    assert_eq!(rx.bus_mut().peek(RegisterTable::CompatibleMIN.addr()), 0x00);
    assert_eq!(rx.bus_mut().peek(RegisterTable::CompatibleSEC.addr()), 0x00);
    let back = rx.datetime().unwrap();
    assert_eq!(back, Timestamp { year: 2024, month: 1, day: 1, hour: 0, minute: 0, second: 0 });
}

#[test]
fn minute_57_blinks_red_with_asymmetric_durations() {
    let mut machine = StatusMachine { ticks: 30, minute_keyed: true, last_second: 9 };
    let mut rx = fresh();
    rx.bus_mut().poke(RegisterTable::CompatibleMIN.addr(), 0x57);
    rx.bus_mut().poke(RegisterTable::CompatibleSEC.addr(), 0x10);
    let mut leds = SimLeds::new();
    let mut delay = SimDelay::new();
    let r = poll_once(&mut machine, &mut rx, &mut leds, &mut delay);
    assert_eq!(r, Ok(Some(VisualPhase::PreEventRed)));
    let pattern = VisualPhase::PreEventRed.outputs();
    assert!(pattern.first.red);
    assert!(!pattern.first.green);
    assert_eq!(pattern.first.hold_ms, 500);
    let off = pattern.second.unwrap();
    assert!(!off.red);
    assert!(!off.green);
    assert_eq!(off.hold_ms, 400);
    // The blink ran 500 ms on plus 400 ms off, ending dark.
    assert_eq!(delay.total_ms, 900);
    assert!(!leds.red);
    assert!(!leds.green);
}

#[test]
fn minute_2_is_solid_green() {
    let mut machine = StatusMachine { ticks: 30, minute_keyed: true, last_second: 9 };
    let mut rx = fresh();
    rx.bus_mut().poke(RegisterTable::CompatibleMIN.addr(), 0x02);
    rx.bus_mut().poke(RegisterTable::CompatibleSEC.addr(), 0x10);
    let mut leds = SimLeds::new();
    let mut delay = SimDelay::new();
    let r = poll_once(&mut machine, &mut rx, &mut leds, &mut delay);
    assert_eq!(r, Ok(Some(VisualPhase::EventGreen)));
    assert!(!leds.red);
    assert!(leds.green);
    assert_eq!(delay.total_ms, 900);
}

#[test]
fn minute_7_blinks_green() {
    let machine = StatusMachine { ticks: 30, minute_keyed: true, last_second: 9 };
    let phase = machine.next_phase(7);
    assert_eq!(phase, VisualPhase::GraceGreen);
    let pattern = phase.outputs();
    assert!(!pattern.first.red);
    assert!(pattern.first.green);
    assert_eq!(pattern.first.hold_ms, 500);
    let off = pattern.second.unwrap();
    assert!(!off.green);
    assert_eq!(off.hold_ms, 400);
}

#[test]
fn minute_30_is_solid_red() {
    let machine = StatusMachine { ticks: 30, minute_keyed: true, last_second: 9 };
    let phase = machine.next_phase(30);
    assert_eq!(phase, VisualPhase::WaitingRed);
    let pattern = phase.outputs();
    assert!(pattern.first.red);
    assert!(!pattern.first.green);
    assert_eq!(pattern.first.hold_ms, 900);
    assert_eq!(pattern.second, None);
}

#[test]
fn minute_bands_cover_every_minute() {
    let machine = StatusMachine { ticks: 30, minute_keyed: true, last_second: 9 };
    for minute in 0u8..=59 {
        let phase = machine.next_phase(minute);
        let expected = if minute >= 55 {
            VisualPhase::PreEventRed
        } else if minute <= 4 {
            VisualPhase::EventGreen
        } else if minute <= 9 {
            VisualPhase::GraceGreen
        } else {
            VisualPhase::WaitingRed
        };
        assert_eq!(phase, expected);
    }
}

#[test]
fn full_run_from_boot_to_minute_keyed() {
    let mut machine = StatusMachine::new();
    let mut rx = fresh();
    let ts = Timestamp { year: 2024, month: 3, day: 15, hour: 13, minute: 45, second: 0 };
    rx.set_datetime(ts).unwrap();
    let mut leds = SimLeds::new();
    let mut delay = SimDelay::new();
    let mut phases = Vec::new();
    for step in 0u8..32 {
        // Let the simulated clock tick one second forward.
        rx.bus_mut().poke(RegisterTable::CompatibleSEC.addr(), step % 10);
        let r = poll_once(&mut machine, &mut rx, &mut leds, &mut delay).unwrap();
        phases.push(r.unwrap());
    }
    for (i, phase) in phases.iter().enumerate() {
        let expected = if i < 20 {
            VisualPhase::Boot
        } else if i < 30 {
            VisualPhase::Warning
        } else if i == 30 {
            VisualPhase::AlertReset
        } else {
            // After the reset the clock reads minute 0: the event window.
            VisualPhase::EventGreen
        };
        assert_eq!(*phase, expected, "at tick {}", i);
    }
}

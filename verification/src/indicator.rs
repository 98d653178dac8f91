//! The status state machine: from observed clock seconds to a visual phase.
//!
//! Two independent time bases drive the machine. A local tick counter is
//! advanced once per detected second change; it selects the boot, warning
//! and reset phases. At the reset phase the criterion switches permanently
//! to the device's own minute-of-hour, which from then on selects one of
//! four disjoint minute bands. The phase is recomputed on every tick and
//! never persisted.

use vstd::prelude::*;

use crate::bus::I2cBus;
use crate::error::Rx8900Error;
use crate::registers::RegisterTable;
use crate::rx8900::Rx8900;
use crate::rx8900::spec_min_of;
use crate::rx8900::spec_sec_of;
use crate::rx8900::spec_set_datetime_regs;
use crate::timestamp::Timestamp;

verus! {

/// Number of ticks spent in the boot phase.
pub const BOOT_TICKS: u32 = 20;

/// Tick at which the warning phase ends in the alert/reset phase.
pub const ALERT_TICK: u32 = 30;

/// The transient visual phase chosen on one tick.
#[derive(Clone, Copy, Debug, PartialEq, Eq, Structural)]
pub enum VisualPhase {
    /// Early ticks after power-up: both outputs off.
    Boot,
    /// Ticks before the reset: the two colours alternate.
    Warning,
    /// The single reset tick: both outputs on and the clock is forced back
    /// to the epoch.
    AlertReset,
    /// Minutes 55 to 59: blinking red before the event window opens.
    PreEventRed,
    /// Minutes 0 to 4: solid green, the event window is open.
    EventGreen,
    /// Minutes 5 to 9: blinking green, the grace period after the window.
    GraceGreen,
    /// Every other minute: solid red, waiting.
    WaitingRed,
}

/// One level held on the two output lines for a duration.
#[derive(Clone, Copy, Debug, PartialEq, Eq, Structural)]
pub struct OutputStep {
    pub red: bool,
    pub green: bool,
    pub hold_ms: u32,
}

/// What a phase asks of the outputs on one tick: a first level, and for a
/// blinking phase a second one.
#[derive(Clone, Copy, Debug, PartialEq, Eq, Structural)]
pub struct OutputPattern {
    pub first: OutputStep,
    pub second: Option<OutputStep>,
}

/// The minute band a minute-of-hour falls in. A decoded minute beyond 59
/// (a garbled register) falls in the waiting band, as every unlisted
/// minute does.
pub open spec fn spec_minute_phase(minute: u8) -> VisualPhase {
    if 55 <= minute && minute <= 59 {
        VisualPhase::PreEventRed
    } else if minute <= 4 {
        VisualPhase::EventGreen
    } else if 5 <= minute && minute <= 9 {
        VisualPhase::GraceGreen
    } else {
        VisualPhase::WaitingRed
    }
}

/// The status state machine. `ticks` counts detected second changes, up to
/// the alert tick; `minute_keyed` records that the reset phase has passed
/// and the minute-of-hour criterion has taken over for good;
/// `last_second` is the second value most recently observed, starting at
/// an impossible value so that the first observation counts as a change.
#[derive(Clone, Copy, Debug, PartialEq, Eq, Structural)]
pub struct StatusMachine {
    pub ticks: u32,
    pub minute_keyed: bool,
    pub last_second: u8,
}

/// The phase the machine chooses on a detected second change, given the
/// device's minute-of-hour. Before the switch the tick counter decides;
/// after it only the minute does.
pub open spec fn spec_phase(s: StatusMachine, minute: u8) -> VisualPhase {
    if s.minute_keyed {
        spec_minute_phase(minute)
    } else if s.ticks < BOOT_TICKS {
        VisualPhase::Boot
    } else if s.ticks < ALERT_TICK {
        VisualPhase::Warning
    } else {
        VisualPhase::AlertReset
    }
}

/// The machine after a detected second change to `second`: the tick
/// counter advances until the alert tick, at which the criterion switches
/// permanently to the minute.
pub open spec fn spec_step(s: StatusMachine, second: u8) -> StatusMachine {
    StatusMachine {
        ticks: if s.ticks < ALERT_TICK {
            (s.ticks + 1) as u32
        } else {
            s.ticks
        },
        minute_keyed: s.minute_keyed || s.ticks >= ALERT_TICK,
        last_second: second,
    }
}

/// The outputs a phase asks for, with the asymmetric blink durations.
pub open spec fn spec_phase_outputs(p: VisualPhase) -> OutputPattern {
    match p {
        VisualPhase::Boot => OutputPattern {
            first: OutputStep { red: false, green: false, hold_ms: 0 },
            second: None,
        },
        VisualPhase::Warning => OutputPattern {
            first: OutputStep { red: true, green: false, hold_ms: 500 },
            second: Some(OutputStep { red: false, green: true, hold_ms: 400 }),
        },
        VisualPhase::AlertReset => OutputPattern {
            first: OutputStep { red: true, green: true, hold_ms: 0 },
            second: None,
        },
        VisualPhase::PreEventRed => OutputPattern {
            first: OutputStep { red: true, green: false, hold_ms: 500 },
            second: Some(OutputStep { red: false, green: false, hold_ms: 400 }),
        },
        VisualPhase::EventGreen => OutputPattern {
            first: OutputStep { red: false, green: true, hold_ms: 900 },
            second: None,
        },
        VisualPhase::GraceGreen => OutputPattern {
            first: OutputStep { red: false, green: true, hold_ms: 500 },
            second: Some(OutputStep { red: false, green: false, hold_ms: 400 }),
        },
        VisualPhase::WaitingRed => OutputPattern {
            first: OutputStep { red: true, green: false, hold_ms: 900 },
            second: None,
        },
    }
}

/// The epoch the clock is forced back to on the reset tick.
pub open spec fn spec_reset_epoch() -> Timestamp {
    Timestamp { year: 2024, month: 1, day: 1, hour: 0, minute: 0, second: 0 }
}

impl VisualPhase {
    /// Whether this phase forces the clock back to the epoch.
    pub open spec fn spec_resets_clock(self) -> bool {
        self is AlertReset
    }

    /// Whether this phase forces the clock back to the epoch.
    pub fn resets_clock(self) -> (r: bool)
        ensures
            r == self.spec_resets_clock(),
    {
        matches!(self, VisualPhase::AlertReset)
    }

    /// The outputs this phase asks for.
    pub fn outputs(self) -> (r: OutputPattern)
        ensures
            r == spec_phase_outputs(self),
    {
        match self {
            VisualPhase::Boot => OutputPattern {
                first: OutputStep { red: false, green: false, hold_ms: 0 },
                second: None,
            },
            VisualPhase::Warning => OutputPattern {
                first: OutputStep { red: true, green: false, hold_ms: 500 },
                second: Some(OutputStep { red: false, green: true, hold_ms: 400 }),
            },
            VisualPhase::AlertReset => OutputPattern {
                first: OutputStep { red: true, green: true, hold_ms: 0 },
                second: None,
            },
            VisualPhase::PreEventRed => OutputPattern {
                first: OutputStep { red: true, green: false, hold_ms: 500 },
                second: Some(OutputStep { red: false, green: false, hold_ms: 400 }),
            },
            VisualPhase::EventGreen => OutputPattern {
                first: OutputStep { red: false, green: true, hold_ms: 900 },
                second: None,
            },
            VisualPhase::GraceGreen => OutputPattern {
                first: OutputStep { red: false, green: true, hold_ms: 500 },
                second: Some(OutputStep { red: false, green: false, hold_ms: 400 }),
            },
            VisualPhase::WaitingRed => OutputPattern {
                first: OutputStep { red: true, green: false, hold_ms: 900 },
                second: None,
            },
        }
    }
}

/// The epoch the clock is forced back to on the reset tick:
/// 2024-01-01 00:00:00.
pub fn reset_epoch() -> (r: Timestamp)
    ensures
        r == spec_reset_epoch(),
        r.wf(),
{
    Timestamp { year: 2024, month: 1, day: 1, hour: 0, minute: 0, second: 0 }
}

impl StatusMachine {
    /// A machine at power-up: no ticks seen, tick-counter criterion, and a
    /// last-observed second no real second equals.
    pub fn new() -> (r: StatusMachine)
        ensures
            r.ticks == 0,
            !r.minute_keyed,
            r.last_second == u8::MAX,
    {
        StatusMachine { ticks: 0, minute_keyed: false, last_second: u8::MAX }
    }

    /// The phase this machine chooses on a detected second change, given
    /// the device's minute-of-hour.
    pub fn next_phase(&self, minute: u8) -> (p: VisualPhase)
        ensures
            p == spec_phase(*self, minute),
    {
        if self.minute_keyed {
            if 55 <= minute && minute <= 59 {
                VisualPhase::PreEventRed
            } else if minute <= 4 {
                VisualPhase::EventGreen
            } else if minute <= 9 {
                VisualPhase::GraceGreen
            } else {
                VisualPhase::WaitingRed
            }
        } else if self.ticks < BOOT_TICKS {
            VisualPhase::Boot
        } else if self.ticks < ALERT_TICK {
            VisualPhase::Warning
        } else {
            VisualPhase::AlertReset
        }
    }

    /// Advances the machine on a detected second change to `second`.
    pub fn advance(&mut self, second: u8)
        ensures
            *final(self) == spec_step(*old(self), second),
    {
        if self.ticks < ALERT_TICK {
            self.ticks = self.ticks + 1;
        } else {
            self.minute_keyed = true;
        }
        self.last_second = second;
    }
}

/// The two digital output lines that show the phase.
///
/// The lines are capabilities the core consumes: an implementation drives
/// real pins, the simulated one remembers the levels.
pub trait StatusLeds: Sized {
    /// Whether the red line is currently driven high.
    spec fn red_on(&self) -> bool;

    /// Whether the green line is currently driven high.
    spec fn green_on(&self) -> bool;

    /// Drives the red line, leaving the green line as it is.
    fn set_red(&mut self, on: bool)
        ensures
            final(self).red_on() == on,
            final(self).green_on() == old(self).green_on(),
    ;

    /// Drives the green line, leaving the red line as it is.
    fn set_green(&mut self, on: bool)
        ensures
            final(self).green_on() == on,
            final(self).red_on() == old(self).red_on(),
    ;
}

/// A blocking delay: the only suspension point of the whole system.
///
/// Nothing is promised of it; an implementation may busy-wait, sleep, or
/// return at once under simulated time.
pub trait DelayProvider: Sized {
    /// Blocks for about `ms` milliseconds.
    fn delay_ms(&mut self, ms: u32);
}

/// The level a pattern leaves the lines at once its tick is over: the
/// second step of a blinking pattern, else the only step.
pub open spec fn spec_settled_step(pat: OutputPattern) -> OutputStep {
    match pat.second {
        Some(step) => step,
        None => pat.first,
    }
}

/// One iteration of the poll loop.
///
/// Reads the current second; if it has not changed since the last
/// observation, sleeps a short debounce interval and reports no tick.
/// On a detected second change it chooses the phase (reading the
/// minute-of-hour once the criterion has switched to it), forces the
/// clock back to the epoch on the reset phase, advances the machine, and
/// drives the two output lines through the phase's pattern with its blink
/// delays. A bus fault propagates before the machine or the lines are
/// touched; only the seven calendar registers can have changed then, by a
/// partial epoch write.
pub fn poll_once<B: I2cBus, L: StatusLeds, D: DelayProvider>(
    machine: &mut StatusMachine,
    rx: &mut Rx8900<B>,
    leds: &mut L,
    delay: &mut D,
) -> (r: Result<Option<VisualPhase>, Rx8900Error>)
    ensures
        r matches Err(e) ==> e == Rx8900Error::Bus
            && *final(machine) == *old(machine)
            && final(leds).red_on() == old(leds).red_on()
            && final(leds).green_on() == old(leds).green_on()
            && (forall|a: u8|
                a != RegisterTable::CompatibleYEAR.spec_addr()
                && a != RegisterTable::CompatibleMONTH.spec_addr()
                && a != RegisterTable::CompatibleDAY.spec_addr()
                && a != RegisterTable::CompatibleWEEK.spec_addr()
                && a != RegisterTable::CompatibleHOUR.spec_addr()
                && a != RegisterTable::CompatibleMIN.spec_addr()
                && a != RegisterTable::CompatibleSEC.spec_addr()
                ==> final(rx).regs()[a] == old(rx).regs()[a]),
        r matches Ok(None) ==> spec_sec_of(old(rx).regs()) == old(machine).last_second
            && *final(machine) == *old(machine)
            && final(rx).regs() == old(rx).regs()
            && final(leds).red_on() == old(leds).red_on()
            && final(leds).green_on() == old(leds).green_on(),
        r matches Ok(Some(p)) ==> spec_sec_of(old(rx).regs()) != old(machine).last_second
            && p == spec_phase(*old(machine), spec_min_of(old(rx).regs()))
            && *final(machine) == spec_step(*old(machine), spec_sec_of(old(rx).regs()))
            && final(leds).red_on() == spec_settled_step(spec_phase_outputs(p)).red
            && final(leds).green_on() == spec_settled_step(spec_phase_outputs(p)).green
            && (p is AlertReset
                ==> final(rx).regs() == spec_set_datetime_regs(old(rx).regs(), spec_reset_epoch()))
            && (!(p is AlertReset) ==> final(rx).regs() == old(rx).regs()),
{
    let second = match rx.sec() {
        Ok(v) => v,
        Err(_) => {
            return Err(Rx8900Error::Bus);
        },
    };
    if second == machine.last_second {
        delay.delay_ms(10);
        return Ok(None);
    }
    let minute = if machine.minute_keyed {
        match rx.min() {
            Ok(v) => v,
            Err(_) => {
                return Err(Rx8900Error::Bus);
            },
        }
    } else {
        0
    };
    let phase = machine.next_phase(minute);
    if phase.resets_clock() {
        match rx.set_datetime(reset_epoch()) {
            Ok(()) => (),
            Err(_) => {
                return Err(Rx8900Error::Bus);
            },
        }
    }
    machine.advance(second);
    let pattern = phase.outputs();
    leds.set_red(pattern.first.red);
    leds.set_green(pattern.first.green);
    if pattern.first.hold_ms > 0 {
        delay.delay_ms(pattern.first.hold_ms);
    }
    match pattern.second {
        Some(step) => {
            leds.set_red(step.red);
            leds.set_green(step.green);
            delay.delay_ms(step.hold_ms);
        },
        None => (),
    }
    Ok(Some(phase))
}

} // verus!

//! The command table: the opcode of each command of the sensor and the time
//! that the sensor takes to execute it.

use crate::types::{HeatingDuration, HeatingPower, Precision};
use vstd::prelude::*;
use vstd::std_specs::convert::FromSpecImpl;

verus! {

/// The commands that the sensor understands.
#[derive(Clone, Copy, Debug, PartialEq, Eq, Structural)]
pub enum Command {
    MeasureHighPrecision,
    MeasureMediumPrecision,
    MeasureLowPrecision,
    SoftReset,
    SerialNumber,
    MeasureHeated200mw1s,
    MeasureHeated200mw0p1s,
    MeasureHeated110mw1s,
    MeasureHeated110mw0p1s,
    MeasureHeated20mw1s,
    MeasureHeated20mw0p1s,
}

impl Command {
    /// The table of commands: for each its opcode, and the longest time that
    /// the sensor takes to execute it, in milliseconds.
    ///
    /// The times are the maximum durations that the datasheet gives, rounded
    /// up. A heated measurement takes as long as the heater runs and a tenth
    /// more. The datasheet gives no time for reading the serial number, but
    /// the sensor does not answer at once.
    pub open spec fn table(&self) -> (u8, u32) {
        match self {
            Command::MeasureLowPrecision => (0xe0, 2),
            Command::MeasureMediumPrecision => (0xf6, 5),
            Command::MeasureHighPrecision => (0xfd, 9),
            Command::MeasureHeated20mw0p1s => (0x15, 110),
            Command::MeasureHeated20mw1s => (0x1e, 1100),
            Command::MeasureHeated110mw0p1s => (0x24, 110),
            Command::MeasureHeated110mw1s => (0x2f, 1100),
            Command::MeasureHeated200mw0p1s => (0x32, 110),
            Command::MeasureHeated200mw1s => (0x39, 1100),
            Command::SerialNumber => (0x89, 1),
            Command::SoftReset => (0x94, 1),
        }
    }

    /// The opcode of the command.
    pub open spec fn spec_code(&self) -> u8 {
        self.table().0
    }

    /// The time that the command takes, in milliseconds.
    pub open spec fn spec_duration_ms(&self) -> u32 {
        self.table().1
    }

    /// The byte that selects the command on the bus.
    #[verifier::when_used_as_spec(spec_code)]
    pub fn code(&self) -> (opcode: u8)
        ensures
            opcode == self.spec_code(),
    {
        match self {
            Self::MeasureHighPrecision => 0xfd,
            Self::MeasureMediumPrecision => 0xf6,
            Self::MeasureLowPrecision => 0xe0,
            Self::SerialNumber => 0x89,
            Self::SoftReset => 0x94,
            Self::MeasureHeated200mw1s => 0x39,
            Self::MeasureHeated200mw0p1s => 0x32,
            Self::MeasureHeated110mw1s => 0x2f,
            Self::MeasureHeated110mw0p1s => 0x24,
            Self::MeasureHeated20mw1s => 0x1e,
            Self::MeasureHeated20mw0p1s => 0x15,
        }
    }

    /// The time to wait after the command was written, before the sensor is
    /// done with it.
    #[verifier::when_used_as_spec(spec_duration_ms)]
    pub fn duration_ms(&self) -> (ms: u32)
        ensures
            ms == self.spec_duration_ms(),
    {
        // Values rounded up from the maximum durations given in the datasheet
        // table 4, 'System timing specifications'.
        match self {
            Self::MeasureHighPrecision => 9,
            Self::MeasureMediumPrecision => 5,
            Self::MeasureLowPrecision => 2,
            // There is no explicit time given for the serial number, but reading it immediately
            // results in a NACK. So be a bit more patient here.
            Self::SerialNumber => 1,
            Self::SoftReset => 1,
            Self::MeasureHeated200mw1s => 1100,
            Self::MeasureHeated200mw0p1s => 110,
            Self::MeasureHeated110mw1s => 1100,
            Self::MeasureHeated110mw0p1s => 110,
            Self::MeasureHeated20mw1s => 1100,
            Self::MeasureHeated20mw0p1s => 110,
        }
    }

    /// The command for a measurement at a precision.
    pub open spec fn measure(precision: Precision) -> Command {
        match precision {
            Precision::Low => Command::MeasureLowPrecision,
            Precision::Medium => Command::MeasureMediumPrecision,
            Precision::High => Command::MeasureHighPrecision,
        }
    }

    /// The command for a measurement with the heater at a power, for a
    /// duration.
    pub open spec fn heat_and_measure(power: HeatingPower, duration: HeatingDuration) -> Command {
        match (power, duration) {
            (HeatingPower::Low, HeatingDuration::Short) => Command::MeasureHeated20mw0p1s,
            (HeatingPower::Low, HeatingDuration::Long) => Command::MeasureHeated20mw1s,
            (HeatingPower::Medium, HeatingDuration::Short) => Command::MeasureHeated110mw0p1s,
            (HeatingPower::Medium, HeatingDuration::Long) => Command::MeasureHeated110mw1s,
            (HeatingPower::High, HeatingDuration::Short) => Command::MeasureHeated200mw0p1s,
            (HeatingPower::High, HeatingDuration::Long) => Command::MeasureHeated200mw1s,
        }
    }

    /// No two commands share an opcode: the opcode tells which command it is.
    pub proof fn lemma_code_identifies(self, other: Command)
        requires
            self.code() == other.code(),
        ensures
            self == other,
    {
    }

    /// Every command has a waiting time, of at least one millisecond and of
    /// little more than a second.
    pub proof fn lemma_duration_bounds(self)
        ensures
            1 <= self.duration_ms() <= 1100,
    {
    }

    /// A more precise measurement takes longer.
    pub proof fn lemma_precision_costs_time(lower: Precision, higher: Precision)
        requires
            lower == Precision::Low && higher != Precision::Low || lower == Precision::Medium
                && higher == Precision::High,
        ensures
            Command::measure(lower).duration_ms() < Command::measure(higher).duration_ms(),
    {
    }

    /// A heated measurement takes the time that the heater runs and a tenth
    /// more, whatever the power: 110 ms or 1100 ms.
    pub proof fn lemma_heated_duration(power: HeatingPower, duration: HeatingDuration)
        ensures
            Command::heat_and_measure(power, duration).duration_ms() == match duration {
                HeatingDuration::Short => 110u32,
                HeatingDuration::Long => 1100u32,
            },
    {
    }

    /// Different settings of the heater give different commands, and none is
    /// that of a plain measurement.
    pub proof fn lemma_heated_commands_differ(
        power: HeatingPower,
        duration: HeatingDuration,
        other_power: HeatingPower,
        other_duration: HeatingDuration,
        precision: Precision,
    )
        ensures
            Command::heat_and_measure(power, duration) != Command::measure(precision),
            Command::heat_and_measure(power, duration) == Command::heat_and_measure(
                other_power,
                other_duration,
            ) ==> power == other_power && duration == other_duration,
    {
    }
}

impl From<(HeatingPower, HeatingDuration)> for Command {
    fn from(setting: (HeatingPower, HeatingDuration)) -> (command: Command)
        ensures
            command == Command::heat_and_measure(setting.0, setting.1),
    {
        match setting {
            (HeatingPower::Low, HeatingDuration::Short) => Command::MeasureHeated20mw0p1s,
            (HeatingPower::Low, HeatingDuration::Long) => Command::MeasureHeated20mw1s,
            (HeatingPower::Medium, HeatingDuration::Short) => Command::MeasureHeated110mw0p1s,
            (HeatingPower::Medium, HeatingDuration::Long) => Command::MeasureHeated110mw1s,
            (HeatingPower::High, HeatingDuration::Short) => Command::MeasureHeated200mw0p1s,
            (HeatingPower::High, HeatingDuration::Long) => Command::MeasureHeated200mw1s,
        }
    }
}

impl FromSpecImpl<(HeatingPower, HeatingDuration)> for Command {
    open spec fn obeys_from_spec() -> bool {
        true
    }

    open spec fn from_spec(setting: (HeatingPower, HeatingDuration)) -> Command {
        Command::heat_and_measure(setting.0, setting.1)
    }
}

impl From<Precision> for Command {
    fn from(precision: Precision) -> (command: Command)
        ensures
            command == Command::measure(precision),
    {
        match precision {
            Precision::Low => Command::MeasureLowPrecision,
            Precision::Medium => Command::MeasureMediumPrecision,
            Precision::High => Command::MeasureHighPrecision,
        }
    }
}

impl FromSpecImpl<Precision> for Command {
    open spec fn obeys_from_spec() -> bool {
        true
    }

    open spec fn from_spec(precision: Precision) -> Command {
        Command::measure(precision)
    }
}

} // verus!

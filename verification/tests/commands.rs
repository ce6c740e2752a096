use sht4x::{Address, Command, HeatingDuration, HeatingPower, Precision};

const ALL: [Command; 11] = [
    Command::MeasureHighPrecision,
    Command::MeasureMediumPrecision,
    Command::MeasureLowPrecision,
    Command::SoftReset,
    Command::SerialNumber,
    Command::MeasureHeated200mw1s,
    Command::MeasureHeated200mw0p1s,
    Command::MeasureHeated110mw1s,
    Command::MeasureHeated110mw0p1s,
    Command::MeasureHeated20mw1s,
    Command::MeasureHeated20mw0p1s,
];

#[test]
fn opcodes_follow_the_table() {
    assert_eq!(Command::MeasureLowPrecision.code(), 0xE0);
    assert_eq!(Command::MeasureMediumPrecision.code(), 0xF6);
    assert_eq!(Command::MeasureHighPrecision.code(), 0xFD);
    assert_eq!(Command::MeasureHeated20mw0p1s.code(), 0x15);
    assert_eq!(Command::MeasureHeated20mw1s.code(), 0x1E);
    assert_eq!(Command::MeasureHeated110mw0p1s.code(), 0x24);
    assert_eq!(Command::MeasureHeated110mw1s.code(), 0x2F);
    assert_eq!(Command::MeasureHeated200mw0p1s.code(), 0x32);
    assert_eq!(Command::MeasureHeated200mw1s.code(), 0x39);
    assert_eq!(Command::SerialNumber.code(), 0x89);
    assert_eq!(Command::SoftReset.code(), 0x94);
}

#[test]
fn durations_follow_the_table() {
    assert_eq!(Command::MeasureLowPrecision.duration_ms(), 2);
    assert_eq!(Command::MeasureMediumPrecision.duration_ms(), 5);
    assert_eq!(Command::MeasureHighPrecision.duration_ms(), 9);
    assert_eq!(Command::MeasureHeated20mw0p1s.duration_ms(), 110);
    assert_eq!(Command::MeasureHeated20mw1s.duration_ms(), 1100);
    assert_eq!(Command::MeasureHeated110mw0p1s.duration_ms(), 110);
    assert_eq!(Command::MeasureHeated110mw1s.duration_ms(), 1100);
    assert_eq!(Command::MeasureHeated200mw0p1s.duration_ms(), 110);
    assert_eq!(Command::MeasureHeated200mw1s.duration_ms(), 1100);
    assert_eq!(Command::SerialNumber.duration_ms(), 1);
    assert_eq!(Command::SoftReset.duration_ms(), 1);
}

#[test]
fn lookups_are_stable() {
    for command in ALL {
        assert_eq!(command.code(), command.code());
        assert_eq!(command.duration_ms(), command.duration_ms());
        assert!(command.duration_ms() >= 1);
        assert!(command.duration_ms() <= 1100);
    }
}

#[test]
fn opcodes_are_distinct() {
    for (i, one) in ALL.iter().enumerate() {
        for (j, other) in ALL.iter().enumerate() {
            assert_eq!(one.code() == other.code(), i == j);
            assert_eq!(one == other, i == j);
        }
    }
}

#[test]
fn precision_selects_the_measurement() {
    assert_eq!(Command::from(Precision::Low), Command::MeasureLowPrecision);
    assert_eq!(Command::from(Precision::Medium), Command::MeasureMediumPrecision);
    assert_eq!(Command::from(Precision::High), Command::MeasureHighPrecision);
    let command: Command = Precision::High.into();
    assert_eq!(command.code(), 0xFD);
}

#[test]
fn heater_setting_selects_the_measurement() {
    let table = [
        (HeatingPower::Low, HeatingDuration::Short, Command::MeasureHeated20mw0p1s),
        (HeatingPower::Low, HeatingDuration::Long, Command::MeasureHeated20mw1s),
        (HeatingPower::Medium, HeatingDuration::Short, Command::MeasureHeated110mw0p1s),
        (HeatingPower::Medium, HeatingDuration::Long, Command::MeasureHeated110mw1s),
        (HeatingPower::High, HeatingDuration::Short, Command::MeasureHeated200mw0p1s),
        (HeatingPower::High, HeatingDuration::Long, Command::MeasureHeated200mw1s),
    ];
    for (power, duration, command) in table {
        assert_eq!(Command::from((power, duration)), command);
        let expected = if duration == HeatingDuration::Long { 1100 } else { 110 };
        assert_eq!(command.duration_ms(), expected);
    }
}

#[test]
fn addresses_are_the_two_of_the_family() {
    assert_eq!(u8::from(Address::Address0x44), 0x44);
    assert_eq!(u8::from(Address::Address0x45), 0x45);
    let byte: u8 = Address::Address0x45.into();
    assert_eq!(byte, 0x45);
    assert!(u8::from(Address::Address0x44) < 128);
    assert!(Address::Address0x44 < Address::Address0x45);
}

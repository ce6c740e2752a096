use fixed::types::{I16F16, I18F14, U16F16};
use sht4x::fixed_point::Fixed;
use sht4x::{Measurement, SensorData};

const DATA_ZERO_ZERO: SensorData = SensorData {
    temperature: 0,
    humidity: 0,
};

const DATA_MAX_MAX: SensorData = SensorData {
    temperature: u16::MAX,
    humidity: u16::MAX,
};

/// Rounds a quotient down, as fixed-point conversions do.
fn floor_div(dividend: i64, divisor: i64) -> i64 {
    dividend.div_euclid(divisor)
}

#[test]
fn from_min_data() {
    let min: Measurement = DATA_ZERO_ZERO.into();
    assert_eq!(min.temperature_celsius(), -45);
    assert_eq!(min.humidity_percent(), -6);
}

#[test]
fn from_max_data() {
    let max = Measurement::from(DATA_MAX_MAX);
    assert_eq!(max.temperature_celsius(), -45 + 175);
    assert_eq!(max.humidity_percent(), -6 + 125);
}

#[test]
fn min_data_millis() {
    let min_data: Measurement = DATA_ZERO_ZERO.into();

    assert_eq!(min_data.temperature_milli_celsius(), -45000);
    assert_eq!(min_data.humidity_milli_percent(), -6000);
}

#[test]
fn max_data_millis() {
    let max_data = Measurement::from(DATA_MAX_MAX);

    assert_eq!(max_data.temperature_milli_celsius(), -45000 + 175000);
    assert_eq!(max_data.humidity_milli_percent(), -6000 + 125000);
}

#[test]
fn extreme_data_has_exact_bits() {
    let min = Measurement::from(DATA_ZERO_ZERO);
    assert_eq!(min.temperature_celsius().to_bits(), -45 * 65536);
    assert_eq!(min.humidity_percent().to_bits(), -6 * 65536);
    let max = Measurement::from(DATA_MAX_MAX);
    assert_eq!(max.temperature_celsius().to_bits(), 130 * 65536);
    assert_eq!(max.humidity_percent().to_bits(), 119 * 65536);
}

#[test]
fn mid_scale_data_converts_by_formula() {
    // 0x8000 / 65535 is 0.5000076..., which 16 fractional bits cut to 32768 / 65536.
    let mid = Measurement::from(SensorData {
        temperature: 0x8000,
        humidity: 0x8000,
    });
    assert_eq!(mid.temperature_celsius().to_bits(), -45 * 65536 + 175 * 32768);
    assert_eq!(mid.humidity_percent().to_bits(), -6 * 65536 + 125 * 32768);
    assert_eq!(mid.temperature_celsius().to_bits(), 2785280);
    assert_eq!(mid.temperature_milli_celsius(), 42500);
    assert_eq!(mid.humidity_milli_percent(), 56500);
}

#[test]
fn room_conditions_convert_by_formula() {
    // 25 °C is near count 26214, 50 % RH near count 29360.
    let room = Measurement::from(SensorData {
        temperature: 26214,
        humidity: 29360,
    });
    // 26214 * 65536 / 65535 = 26214.4..., cut to 26214; 29360 likewise.
    assert_eq!(room.temperature_celsius().to_bits(), -45 * 65536 + 175 * 26214);
    assert_eq!(room.humidity_percent().to_bits(), -6 * 65536 + 125 * 29360);
    assert_eq!(room.temperature_milli_celsius(), 24998);
    assert_eq!(room.humidity_milli_percent(), 49999);
}

#[test]
fn temperature_and_humidity_are_independent() {
    let mixed = Measurement::from(SensorData {
        temperature: u16::MAX,
        humidity: 0,
    });
    assert_eq!(mixed.temperature_celsius(), 130);
    assert_eq!(mixed.humidity_percent(), -6);
    let mixed = Measurement::from(SensorData {
        temperature: 0,
        humidity: u16::MAX,
    });
    assert_eq!(mixed.temperature_celsius(), -45);
    assert_eq!(mixed.humidity_percent(), 119);
}

#[test]
fn humidity_is_not_clamped() {
    let dry = Measurement::from(SensorData {
        temperature: 0,
        humidity: 0,
    });
    assert!(dry.humidity_milli_percent() < 0);
    let wet = Measurement::from(SensorData {
        temperature: 0,
        humidity: 60000,
    });
    assert!(wet.humidity_milli_percent() > 100_000);
    assert_eq!(wet.humidity_percent().to_bits(), -6 * 65536 + 125 * 60000);
}

#[test]
fn conversion_is_deterministic() {
    let raw = SensorData {
        temperature: 12345,
        humidity: 54321,
    };
    assert_eq!(Measurement::from(raw), Measurement::from(raw));
    assert_eq!(
        Measurement::from(raw).temperature_celsius().to_bits(),
        Measurement::from(raw).temperature_celsius().to_bits()
    );
}

#[test]
fn every_count_converts_by_formula() {
    for count in 0..=u16::MAX {
        let measurement = Measurement::from(SensorData {
            temperature: count,
            humidity: count,
        });
        let quotient = floor_div(i64::from(count) * 65536, 65535);
        assert_eq!(
            i64::from(measurement.temperature_celsius().to_bits()),
            -45 * 65536 + 175 * quotient
        );
        assert_eq!(
            i64::from(measurement.humidity_percent().to_bits()),
            -6 * 65536 + 125 * quotient
        );
    }
}

#[test]
fn every_count_converts_as_fixed_point_arithmetic_does() {
    for count in 0..=u16::MAX {
        let measurement = Measurement::from(SensorData {
            temperature: count,
            humidity: count,
        });
        let quotient = U16F16::from_num(count) / 65535u32;
        let temperature = I16F16::const_from_int(-45) + 175 * quotient.to_num::<I16F16>();
        let humidity = I16F16::const_from_int(-6) + 125 * quotient.to_num::<I16F16>();
        assert_eq!(measurement.temperature_celsius().to_bits(), temperature.to_bits());
        assert_eq!(measurement.humidity_percent().to_bits(), humidity.to_bits());
        let milli = (temperature.to_num::<I18F14>() * 1000).to_num::<i32>();
        assert_eq!(measurement.temperature_milli_celsius(), milli);
        let milli = (humidity.to_num::<I18F14>() * 1000).to_num::<i32>();
        assert_eq!(measurement.humidity_milli_percent(), milli);
    }
}

#[test]
fn every_count_has_milli_units_in_range() {
    for count in 0..=u16::MAX {
        let measurement = Measurement::from(SensorData {
            temperature: count,
            humidity: count,
        });
        let celsius = measurement.temperature_milli_celsius();
        assert!((-45000..=130000).contains(&celsius));
        let bits = i64::from(measurement.temperature_celsius().to_bits());
        assert_eq!(i64::from(celsius), floor_div(floor_div(bits, 4) * 1000, 16384));
        let percent = measurement.humidity_milli_percent();
        assert!((-6000..=119000).contains(&percent));
        let bits = i64::from(measurement.humidity_percent().to_bits());
        assert_eq!(i64::from(percent), floor_div(floor_div(bits, 4) * 1000, 16384));
    }
}

#[test]
fn conversion_is_monotonic() {
    let mut last = Measurement::from(DATA_ZERO_ZERO);
    for count in 1..=u16::MAX {
        let next = Measurement::from(SensorData {
            temperature: count,
            humidity: count,
        });
        assert!(last.temperature_celsius().to_bits() <= next.temperature_celsius().to_bits());
        assert!(last.humidity_percent().to_bits() <= next.humidity_percent().to_bits());
        last = next;
    }
}

#[test]
fn fixed_keeps_its_bits() {
    for bits in [i32::MIN, -65536, -1, 0, 1, 65536, 8519680, i32::MAX] {
        assert_eq!(Fixed::from_bits(bits).to_bits(), bits);
        assert_eq!(Fixed::from_bits(bits).bits, bits);
    }
    assert_eq!(Fixed::from_bits(7), Fixed::from_bits(7));
    assert_ne!(Fixed::from_bits(7), Fixed::from_bits(8));
}

#[test]
fn fixed_equals_whole_numbers_of_its_value() {
    assert_eq!(Fixed::from_bits(0), 0);
    assert_eq!(Fixed::from_bits(65536), 1);
    assert_eq!(Fixed::from_bits(-65536), -1);
    assert_eq!(Fixed::from_bits(130 * 65536), 130);
    assert_eq!(Fixed::from_bits(i32::MIN), -32768);
    assert_eq!(Fixed::from_bits(32767 * 65536), 32767);
    assert_ne!(Fixed::from_bits(65537), 1);
    assert_ne!(Fixed::from_bits(65535), 1);
    assert_ne!(Fixed::from_bits(1), 65536);
    assert_ne!(Fixed::from_bits(0), 65536);
    assert_ne!(Fixed::from_bits(0), 32768);
    assert_ne!(Fixed::from_bits(i32::MIN), 32768);
    assert_ne!(Fixed::from_bits(i32::MAX), i32::MAX);
}

#[test]
fn milli_rounds_down() {
    // 1.5 is 1500 thousandths.
    assert_eq!(Fixed::from_bits(65536 + 32768).milli(), 1500);
    // 1/65536 is dropped before the multiplication.
    assert_eq!(Fixed::from_bits(1).milli(), 0);
    assert_eq!(Fixed::from_bits(3).milli(), 0);
    // 4/65536 is 0.061 thousandths.
    assert_eq!(Fixed::from_bits(4).milli(), 0);
    // 66/65536 is 1.007 thousandths, 65/65536 is 0.99.
    assert_eq!(Fixed::from_bits(68).milli(), 1);
    assert_eq!(Fixed::from_bits(64).milli(), 0);
    // Negative numbers round towards minus infinity.
    assert_eq!(Fixed::from_bits(-1).milli(), -1);
    assert_eq!(Fixed::from_bits(-65536).milli(), -1000);
    assert_eq!(Fixed::from_bits(-65536 - 1).milli(), -1001);
    assert_eq!(Fixed::from_bits(-45 * 65536).milli(), -45000);
    assert_eq!(Fixed::from_bits(130 * 65536).milli(), 130000);
}

#[test]
fn checked_milli_agrees_with_milli_where_it_fits() {
    for bits in [-8589932, -65537, -65536, -4, -1, 0, 1, 4, 68, 98304, 8519680, 8589935] {
        let number = Fixed::from_bits(bits);
        assert_eq!(number.checked_milli(), Some(number.milli()));
        let expected = floor_div(floor_div(i64::from(bits), 4) * 1000, 16384);
        assert_eq!(i64::from(number.milli()), expected);
    }
}

#[test]
fn checked_milli_reports_overflow_at_the_sentinels() {
    assert_eq!(Fixed::from_bits(i32::MAX).checked_milli(), None);
    assert_eq!(Fixed::from_bits(i32::MIN).checked_milli(), None);
    assert_eq!(Fixed::from_bits(I16F16::MAX.to_bits()).checked_milli(), None);
    assert_eq!(Fixed::from_bits(I16F16::MIN.to_bits()).checked_milli(), None);
}

#[test]
fn checked_milli_overflows_just_outside_the_range() {
    // The pre-scaled number times 1000 must fit 32 bits: it may be 2147483 at most.
    assert_eq!(Fixed::from_bits(2147483 * 4 + 3).checked_milli(), Some(131071));
    assert_eq!(Fixed::from_bits(2147484 * 4).checked_milli(), None);
    assert_eq!(Fixed::from_bits(-2147483 * 4).checked_milli(), Some(-131072));
    assert_eq!(Fixed::from_bits(-2147483 * 4 - 1).checked_milli(), None);
}

#[test]
fn no_measurement_overflows_in_milli_units() {
    for count in [0, 1, 32767, 32768, 65534, 65535] {
        let measurement = Measurement::from(SensorData {
            temperature: count,
            humidity: count,
        });
        assert!(measurement.temperature_celsius().checked_milli().is_some());
        assert!(measurement.humidity_percent().checked_milli().is_some());
        assert_eq!(
            measurement.temperature_celsius().checked_milli(),
            Some(measurement.temperature_milli_celsius())
        );
    }
}

#[test]
fn checked_milli_follows_the_formula_over_all_numbers() {
    let mut bits = i64::from(i32::MIN);
    while bits <= i64::from(i32::MAX) {
        let number = Fixed::from_bits(bits as i32);
        let scaled = floor_div(bits, 4) * 1000;
        let expected = if i64::from(i32::MIN) <= scaled && scaled <= i64::from(i32::MAX) {
            Some(floor_div(scaled, 16384) as i32)
        } else {
            None
        };
        assert_eq!(number.checked_milli(), expected);
        assert_eq!(expected.is_some(), (-8589932..=8589935).contains(&bits));
        bits += 4099;
    }
}

#[test]
fn milli_follows_the_formula_over_all_numbers_that_fit() {
    for bits in -8589932..=8589935 {
        let expected = floor_div(floor_div(i64::from(bits), 4) * 1000, 16384);
        assert_eq!(i64::from(Fixed::from_bits(bits).milli()), expected);
    }
}

//! The settings of the sensor, its raw data and its measurements in SI
//! units.

use crate::fixed_point::{
    i16f16_add, i16f16_from_int, int_mul_i16f16, milli_units, milli_units_fit, u16f16_div,
    u16f16_from_count, u16f16_to_i16f16, Fixed,
};
use vstd::prelude::*;
use vstd::std_specs::convert::FromSpecImpl;

verus! {

/// I2C addresses used by SHT4x sensors.
#[derive(Clone, Copy, Debug, PartialEq, Eq, PartialOrd, Ord, Structural)]
pub enum Address {
    /// The address of most family members.
    Address0x44,
    /// The address of the SHT40-BD1B.
    Address0x45,
}

impl Address {
    /// The address as it goes onto the bus.
    pub open spec fn byte(self) -> u8 {
        match self {
            Address::Address0x44 => 0x44,
            Address::Address0x45 => 0x45,
        }
    }

    /// Every address is a 7-bit bus address.
    pub proof fn lemma_seven_bits(self)
        ensures
            self.byte() < 128,
    {
    }
}

impl From<Address> for u8 {
    fn from(address: Address) -> (byte: u8)
        ensures
            byte == address.byte(),
    {
        match address {
            Address::Address0x44 => 0x44,
            Address::Address0x45 => 0x45,
        }
    }
}

impl FromSpecImpl<Address> for u8 {
    open spec fn obeys_from_spec() -> bool {
        true
    }

    open spec fn from_spec(address: Address) -> u8 {
        address.byte()
    }
}

/// Heating power to apply when activating the internal heater.
#[derive(Clone, Copy, Debug, PartialEq, Eq, PartialOrd, Ord, Structural)]
pub enum HeatingPower {
    /// Operate the heater at 20 mW.
    Low,
    /// Operate the heater at 110 mW.
    Medium,
    /// Operate the heater at 200 mW.
    High,
}

/// Duration of heating when activating the internal heater.
#[derive(Clone, Copy, Debug, PartialEq, Eq, PartialOrd, Ord, Structural)]
pub enum HeatingDuration {
    /// Operate the heater for 100 ms.
    Short,
    /// Operate the heater for 1 s.
    Long,
}

/// The precision to request for a measurement.
///
/// Higher-precision measurements take longer.
#[derive(Clone, Copy, Debug, PartialEq, Eq, PartialOrd, Ord, Structural)]
pub enum Precision {
    Low,
    Medium,
    High,
}

/// A measurement from the sensor in raw sensor data.
#[derive(Clone, Copy, Debug, PartialEq, Eq, Structural)]
pub struct SensorData {
    /// The measured temperature as raw sensor value.
    pub temperature: u16,
    /// The measured relative humidity as raw sensor value.
    pub humidity: u16,
}

/// The temperature at a raw count of zero, in degrees Celsius.
pub const TEMPERATURE_OFFSET: i32 = -45;

/// The degrees Celsius between the raw counts of zero and of 65535.
pub const TEMPERATURE_SPAN: i32 = 175;

/// The relative humidity at a raw count of zero, in percent.
pub const HUMIDITY_OFFSET: i32 = -6;

/// The percent of relative humidity between the raw counts of zero and of
/// 65535.
pub const HUMIDITY_SPAN: i32 = 125;

/// The raw count at the upper end of both ranges.
pub const FULL_SCALE: u32 = 65535;

/// The fixed-point number for `offset + span * count / 65535`, in units of
/// 1/65536. The quotient `count / 65535` is formed first and rounded down to
/// 16 fractional bits, then multiplied and added.
pub open spec fn converted(offset: int, span: int, count: int) -> int {
    offset * 65536 + span * (count * 65536 / 65535)
}

/// The temperature for a raw count, in units of 1/65536 °C.
pub open spec fn celsius_bits(count: u16) -> int {
    converted(TEMPERATURE_OFFSET as int, TEMPERATURE_SPAN as int, count as int)
}

/// The relative humidity for a raw count, in units of 1/65536 %.
pub open spec fn percent_bits(count: u16) -> int {
    converted(HUMIDITY_OFFSET as int, HUMIDITY_SPAN as int, count as int)
}

/// A measurement from the sensor in SI units.
#[derive(Clone, Copy, Debug, PartialEq, Eq)]
pub struct Measurement {
    /// The measured temperature in degree Celsius (°C).
    temperature: Fixed,
    /// The measured relative humidity in percent (%).
    humidity: Fixed,
}

impl Measurement {
    /// Both values lie in the range that raw counts convert to.
    #[verifier::type_invariant]
    spec fn in_range(self) -> bool {
        &&& celsius_bits(0) <= self.temperature.bits <= celsius_bits(u16::MAX)
        &&& percent_bits(0) <= self.humidity.bits <= percent_bits(u16::MAX)
    }

    /// The temperature of the measurement.
    pub closed spec fn spec_temperature_celsius(&self) -> Fixed {
        self.temperature
    }

    /// The relative humidity of the measurement.
    pub closed spec fn spec_humidity_percent(&self) -> Fixed {
        self.humidity
    }

    /// The measurement that a pair of raw counts stands for.
    pub closed spec fn of(raw: SensorData) -> Measurement {
        Measurement {
            temperature: Fixed { bits: celsius_bits(raw.temperature) as i32 },
            humidity: Fixed { bits: percent_bits(raw.humidity) as i32 },
        }
    }

    /// The measurement of a pair of raw counts holds the temperature and the
    /// humidity that the counts convert to.
    pub proof fn lemma_of(raw: SensorData)
        ensures
            Measurement::of(raw).temperature_celsius().bits == celsius_bits(raw.temperature),
            Measurement::of(raw).humidity_percent().bits == percent_bits(raw.humidity),
    {
        lemma_converted_bounds(TEMPERATURE_OFFSET as int, TEMPERATURE_SPAN as int, raw.temperature);
        lemma_converted_bounds(HUMIDITY_OFFSET as int, HUMIDITY_SPAN as int, raw.humidity);
    }

    /// A measurement is its temperature and its humidity: two measurements
    /// that agree in both are the same.
    pub proof fn lemma_values_identify(self, other: Measurement)
        requires
            self.temperature_celsius() == other.temperature_celsius(),
            self.humidity_percent() == other.humidity_percent(),
        ensures
            self == other,
    {
    }

    /// Returns the measured temperature in degree Celsius (°C).
    #[verifier::when_used_as_spec(spec_temperature_celsius)]
    pub fn temperature_celsius(&self) -> (celsius: Fixed)
        ensures
            celsius == self.spec_temperature_celsius(),
    {
        self.temperature
    }

    /// Returns the measured temperature in milli degree Celsius (m°C, a thousand of a degree
    /// Celsius).
    pub fn temperature_milli_celsius(&self) -> (milli_celsius: i32)
        ensures
            milli_celsius == milli_units(self.temperature_celsius().bits as int),
            -45000 <= milli_celsius <= 130000,
    {
        proof {
            use_type_invariant(self);
        }
        self.temperature.milli()
    }

    /// Returns the measured relative humidity in milli percent (m% RH, a thousand of a percent).
    pub fn humidity_milli_percent(&self) -> (milli_percent: i32)
        ensures
            milli_percent == milli_units(self.humidity_percent().bits as int),
            -6000 <= milli_percent <= 119000,
    {
        proof {
            use_type_invariant(self);
        }
        self.humidity.milli()
    }

    /// Returns the measured relative humidity in percent (%).
    #[verifier::when_used_as_spec(spec_humidity_percent)]
    pub fn humidity_percent(&self) -> (percent: Fixed)
        ensures
            percent == self.spec_humidity_percent(),
    {
        self.humidity
    }
}

impl From<SensorData> for Measurement {
    /// Converts raw sensor data into SI units.
    fn from(raw: SensorData) -> (measurement: Measurement)
        ensures
            measurement == Measurement::of(raw),
            measurement.temperature_celsius().bits == celsius_bits(raw.temperature),
            measurement.humidity_percent().bits == percent_bits(raw.humidity),
    {
        let minus_45 = i16f16_from_int(TEMPERATURE_OFFSET);
        let minus_6 = i16f16_from_int(HUMIDITY_OFFSET);

        let temperature_quotient = u16f16_div(u16f16_from_count(raw.temperature), FULL_SCALE);
        let humidity_quotient = u16f16_div(u16f16_from_count(raw.humidity), FULL_SCALE);

        proof {
            lemma_converted_bounds(
                TEMPERATURE_OFFSET as int,
                TEMPERATURE_SPAN as int,
                raw.temperature,
            );
            lemma_converted_bounds(HUMIDITY_OFFSET as int, HUMIDITY_SPAN as int, raw.humidity);
        }
        Measurement {
            temperature: Fixed::from_bits(
                i16f16_add(
                    minus_45,
                    int_mul_i16f16(TEMPERATURE_SPAN, u16f16_to_i16f16(temperature_quotient)),
                ),
            ),
            humidity: Fixed::from_bits(
                i16f16_add(
                    minus_6,
                    int_mul_i16f16(HUMIDITY_SPAN, u16f16_to_i16f16(humidity_quotient)),
                ),
            ),
        }
    }
}

impl FromSpecImpl<SensorData> for Measurement {
    open spec fn obeys_from_spec() -> bool {
        true
    }

    open spec fn from_spec(raw: SensorData) -> Measurement {
        Measurement::of(raw)
    }
}

/// A raw count of zero converts to the offset and the highest raw count to
/// the offset plus the span, both exactly; every other raw count converts to
/// a number between the two, where the span is not negative.
pub proof fn lemma_converted_bounds(offset: int, span: int, count: u16)
    requires
        0 <= span,
    ensures
        converted(offset, span, 0) == offset * 65536,
        converted(offset, span, 65535) == (offset + span) * 65536,
        converted(offset, span, 0) <= converted(offset, span, count as int) <= converted(
            offset,
            span,
            65535,
        ),
{
    lemma_converted_monotonic(offset, span, 0, count);
    lemma_converted_monotonic(offset, span, count, 65535);
    assert((offset + span) * 65536 == offset * 65536 + span * 65536) by (nonlinear_arith);
}

/// A higher raw count never converts to a lower number, where the span is
/// not negative.
pub proof fn lemma_converted_monotonic(offset: int, span: int, lower: u16, higher: u16)
    requires
        0 <= span,
        lower <= higher,
    ensures
        converted(offset, span, lower as int) <= converted(offset, span, higher as int),
{
    let below = lower as int * 65536 / 65535;
    let above = higher as int * 65536 / 65535;
    assert(span * below <= span * above) by (nonlinear_arith)
        requires
            0 <= span,
            below <= above,
    ;
}

/// What the conversion loses: the number that a raw count converts to is at
/// most the exact `offset + span * count / 65535`, and less than
/// `span / 65536` below it. Both sides are stated in units of 1/65536 and
/// multiplied by 65535, to stay with whole numbers.
pub proof fn lemma_converted_accuracy(offset: int, span: int, count: u16)
    requires
        0 < span,
    ensures
        converted(offset, span, count as int) * 65535 <= (offset * 65535 + span * count) * 65536,
        (offset * 65535 + span * count) * 65536 < (converted(offset, span, count as int) + span)
            * 65535,
{
    let quotient = count as int * 65536 / 65535;
    assert(quotient * 65535 <= count * 65536 < (quotient + 1) * 65535);
    assert(span * (quotient * 65535) <= span * (count * 65536) < span * ((quotient + 1) * 65535))
        by (nonlinear_arith)
        requires
            0 < span,
            quotient * 65535 <= count * 65536 < (quotient + 1) * 65535,
    ;
    assert(converted(offset, span, count as int) * 65535 == offset * 65536 * 65535 + span * (
    quotient * 65535)) by (nonlinear_arith)
        requires
            converted(offset, span, count as int) == offset * 65536 + span * quotient,
    ;
    assert((converted(offset, span, count as int) + span) * 65535 == offset * 65536 * 65535 + span
        * ((quotient + 1) * 65535)) by (nonlinear_arith)
        requires
            converted(offset, span, count as int) == offset * 65536 + span * quotient,
    ;
    assert((offset * 65535 + span * count) * 65536 == offset * 65536 * 65535 + span * (count
        * 65536)) by (nonlinear_arith);
}

/// No raw count converts to a number whose thousandths overflow: those of a
/// temperature lie between −45000 and 130000, those of a humidity between
/// −6000 and 119000.
pub proof fn lemma_counts_fit_milli_units(count: u16)
    ensures
        milli_units_fit(celsius_bits(count)),
        -45000 <= milli_units(celsius_bits(count)) <= 130000,
        milli_units_fit(percent_bits(count)),
        -6000 <= milli_units(percent_bits(count)) <= 119000,
{
    lemma_converted_bounds(TEMPERATURE_OFFSET as int, TEMPERATURE_SPAN as int, count);
    lemma_converted_bounds(HUMIDITY_OFFSET as int, HUMIDITY_SPAN as int, count);
}

} // verus!

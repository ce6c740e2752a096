//! The driver for a bus whose transfers block.

use crate::commands::Command;
use crate::transaction::{
    measurement_step, next_exchange_step, next_send_step, raw_data_step, serial_number_step,
    soft_reset_step, Progress, Step,
};
use crate::types::{Address, HeatingDuration, HeatingPower, Measurement, Precision, SensorData};
use core::marker::PhantomData;
use vstd::prelude::*;

verus! {

/// Driver for SHT4x sensors on a bus whose transfers block.
///
/// The driver owns the bus and knows the address of the sensor. Each of its
/// operations is one transaction, which the caller carries out step by step:
/// the operation is asked with the [`Progress`] made so far, first with
/// [`Progress::Started`], and answers with the [`Step`] to perform next on
/// the bus that [`Sht4x::bus_mut`] lends, until it answers [`Step::Done`].
#[derive(Debug, PartialEq, Eq)]
pub struct Sht4x<I, D> {
    i2c: I,
    address: Address,
    // If we want to globally define the delay type for this struct, we have to consume the type
    // parameter.
    _delay: PhantomData<D>,
}

impl<I, D> Sht4x<I, D> {
    /// The bus that the driver owns.
    pub closed spec fn bus(&self) -> I {
        self.i2c
    }

    /// The address of the sensor that the driver talks to.
    pub closed spec fn spec_address(&self) -> Address {
        self.address
    }

    /// Creates a new driver instance using the given I2C bus. It configures the default I2C
    /// address 0x44 used by most family members.
    pub fn new(i2c: I) -> (driver: Self)
        ensures
            driver.bus() == i2c,
            driver.address() == Address::Address0x44,
    {
        Self::new_with_address(i2c, Address::Address0x44)
    }

    /// Creates a new driver instance using the given I2C bus and address. This constructor allows
    /// to instantiate the driver for the SHT40-BD1B which uses the non-default I2C address 0x45.
    pub fn new_with_address(i2c: I, address: Address) -> (driver: Self)
        ensures
            driver.bus() == i2c,
            driver.address() == address,
    {
        Sht4x { i2c, address, _delay: PhantomData }
    }

    /// Destroys the driver and returns the used I2C bus.
    pub fn destroy(self) -> (i2c: I)
        ensures
            i2c == self.bus(),
    {
        self.i2c
    }

    /// The address of the sensor that the driver talks to.
    #[verifier::when_used_as_spec(spec_address)]
    pub fn address(&self) -> (address: Address)
        ensures
            address == self.spec_address(),
    {
        self.address
    }

    /// Lends the bus, to perform a step on it. The driver keeps its address,
    /// and has the bus as the borrower leaves it.
    pub fn bus_mut(&mut self) -> (i2c: &mut I)
        ensures
            *i2c == old(self).bus(),
            final(self).bus() == *final(i2c),
            final(self).address() == old(self).address(),
    {
        &mut self.i2c
    }

    /// Activates the heater and performs a measurement returning measurands in SI units:
    /// says the step that follows `progress` in this transaction.
    ///
    /// **Note:** The heater is designed to be used up to 10 % of the sensor's lifetime. Please
    /// check the
    /// [datasheet](https://sensirion.com/media/documents/33FD6951/624C4357/Datasheet_SHT4x.pdf),
    /// section 4.9 _Heater Operation_ for details.
    pub fn heat_and_measure<E>(
        &self,
        power: HeatingPower,
        duration: HeatingDuration,
        progress: Progress<E>,
    ) -> (step: Step<Measurement, E>)
        ensures
            step == measurement_step(
                self.address(),
                Command::heat_and_measure(power, duration),
                progress,
            ),
    {
        let raw = self.heat_and_measure_raw(power, duration, progress);

        raw.into_measurement()
    }

    /// Activates the heater and performs a measurement returning raw sensor data: says the
    /// step that follows `progress` in this transaction.
    ///
    /// **Note:** The heater is designed to be used up to 10 % of the sensor's lifetime. Please
    /// check the
    /// [datasheet](https://sensirion.com/media/documents/33FD6951/624C4357/Datasheet_SHT4x.pdf),
    /// section 4.9 _Heater Operation_ for details.
    pub fn heat_and_measure_raw<E>(
        &self,
        power: HeatingPower,
        duration: HeatingDuration,
        progress: Progress<E>,
    ) -> (step: Step<SensorData, E>)
        ensures
            step == raw_data_step(
                self.address(),
                Command::heat_and_measure(power, duration),
                progress,
            ),
    {
        let command = Command::from((power, duration));

        let response = next_exchange_step(self.address, command, progress);

        response.into_sensor_data()
    }

    /// Performs a measurement returning measurands in SI units: says the step that follows
    /// `progress` in this transaction.
    pub fn measure<E>(
        &self,
        precision: Precision,
        progress: Progress<E>,
    ) -> (step: Step<Measurement, E>)
        ensures
            step == measurement_step(self.address(), Command::measure(precision), progress),
    {
        let raw = self.measure_raw(precision, progress);
        raw.into_measurement()
    }

    /// Performs a measurement returning raw sensor data: says the step that follows
    /// `progress` in this transaction.
    pub fn measure_raw<E>(
        &self,
        precision: Precision,
        progress: Progress<E>,
    ) -> (step: Step<SensorData, E>)
        ensures
            step == raw_data_step(self.address(), Command::measure(precision), progress),
    {
        let command = Command::from(precision);

        let response = next_exchange_step(self.address, command, progress);

        response.into_sensor_data()
    }

    /// Reads the sensor's serial number: says the step that follows `progress` in this
    /// transaction.
    pub fn serial_number<E>(&self, progress: Progress<E>) -> (step: Step<u32, E>)
        ensures
            step == serial_number_step(self.address(), progress),
    {
        let response = next_exchange_step(self.address, Command::SerialNumber, progress);
        response.into_serial_number()
    }

    /// Performs a soft reset of the sensor: says the step that follows `progress` in this
    /// transaction, which reads no response.
    pub fn soft_reset<E>(&self, progress: Progress<E>) -> (step: Step<(), E>)
        ensures
            step == soft_reset_step(self.address(), progress),
    {
        next_send_step(self.address, Command::SoftReset, progress)
    }
}

} // verus!

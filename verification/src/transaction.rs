//! The transactions with the sensor, step by step.
//!
//! A transaction writes an opcode to the sensor, waits while the sensor
//! executes the command, and reads the response, where the command has one.
//! The functions of this module do not touch the bus. They are asked with
//! the [`Progress`] that a transaction has made and answer with the
//! [`Step`] that comes next; whoever holds the bus performs it and asks
//! again. Bus transfers that block and transfers that suspend the caller are
//! served alike.

use crate::commands::Command;
use crate::error::Error;
use crate::responses::{
    checksums_match, sensor_data, sensor_data_from_response, serial_number,
    serial_number_from_response, word_intact, words_intact, RESPONSE_LEN,
};
use crate::types::{Address, Measurement, SensorData};
use vstd::prelude::*;

verus! {

/// How far a transaction has got: the step that was performed last, and how
/// it went.
#[derive(Debug, PartialEq, Eq)]
pub enum Progress<E> {
    /// Nothing was done yet.
    Started,
    /// The opcode was written to the sensor, or the bus failed to.
    Written(Result<(), E>),
    /// The time that the sensor takes for the command is over.
    Waited,
    /// The response was read from the sensor, or the bus failed to.
    Received(Result<[u8; RESPONSE_LEN], E>),
}

/// What a transaction asks for next.
#[derive(Debug, PartialEq, Eq)]
pub enum Step<T, E> {
    /// Write the one byte `opcode` to the device at `address`, then report
    /// [`Progress::Written`].
    Write { address: u8, opcode: u8 },
    /// Wait for `ms` milliseconds, then report [`Progress::Waited`].
    Wait { ms: u32 },
    /// Read six bytes from the device at `address`, then report
    /// [`Progress::Received`].
    Read { address: u8 },
    /// Nothing: the transaction is over, and this is its result.
    Done(Result<T, Error<E>>),
}

impl<E> Progress<E> {
    /// The number of steps that were performed.
    pub open spec fn steps_taken(self) -> nat {
        match self {
            Progress::Started => 0,
            Progress::Written(_) => 1,
            Progress::Waited => 2,
            Progress::Received(_) => 3,
        }
    }

    /// Whether this is what performing `step` can give.
    pub open spec fn answers<T>(self, step: Step<T, E>) -> bool {
        match step {
            Step::Write { .. } => self is Written,
            Step::Wait { .. } => self is Waited,
            Step::Read { .. } => self is Received,
            Step::Done(_) => false,
        }
    }
}

impl<T, E> Step<T, E> {
    /// The same step, with `decode` applied to what a transaction ended
    /// with, where it succeeded.
    pub open spec fn decoded<U>(self, decode: spec_fn(T) -> U) -> Step<U, E> {
        match self {
            Step::Write { address, opcode } => Step::Write { address, opcode },
            Step::Wait { ms } => Step::Wait { ms },
            Step::Read { address } => Step::Read { address },
            Step::Done(Ok(value)) => Step::Done(Ok(decode(value))),
            Step::Done(Err(error)) => Step::Done(Err(error)),
        }
    }
}

impl<E> Step<[u8; RESPONSE_LEN], E> {
    /// Decodes the response that a transaction ended with as raw counts.
    pub fn into_sensor_data(self) -> (step: Step<SensorData, E>)
        ensures
            step == self.decoded(|response: [u8; RESPONSE_LEN]| sensor_data(response@)),
    {
        match self {
            Step::Write { address, opcode } => Step::Write { address, opcode },
            Step::Wait { ms } => Step::Wait { ms },
            Step::Read { address } => Step::Read { address },
            Step::Done(Ok(response)) => Step::Done(Ok(sensor_data_from_response(&response))),
            Step::Done(Err(error)) => Step::Done(Err(error)),
        }
    }

    /// Decodes the response that a transaction ended with as a serial
    /// number.
    pub fn into_serial_number(self) -> (step: Step<u32, E>)
        ensures
            step == self.decoded(|response: [u8; RESPONSE_LEN]| serial_number(response@)),
    {
        match self {
            Step::Write { address, opcode } => Step::Write { address, opcode },
            Step::Wait { ms } => Step::Wait { ms },
            Step::Read { address } => Step::Read { address },
            Step::Done(Ok(response)) => Step::Done(Ok(serial_number_from_response(&response))),
            Step::Done(Err(error)) => Step::Done(Err(error)),
        }
    }
}

impl<E> Step<SensorData, E> {
    /// Converts the raw counts that a transaction ended with into SI units.
    pub fn into_measurement(self) -> (step: Step<Measurement, E>)
        ensures
            step == self.decoded(|raw: SensorData| Measurement::of(raw)),
    {
        match self {
            Step::Write { address, opcode } => Step::Write { address, opcode },
            Step::Wait { ms } => Step::Wait { ms },
            Step::Read { address } => Step::Read { address },
            Step::Done(Ok(raw)) => Step::Done(Ok(Measurement::from(raw))),
            Step::Done(Err(error)) => Step::Done(Err(error)),
        }
    }
}

/// The step that follows `progress` where a command is sent that the sensor
/// does not answer: the opcode is written, and the time of the command is
/// waited for. A failed write ends the transaction at once. Once the wait is
/// over the transaction has succeeded, and a response that was read all the
/// same changes nothing.
pub open spec fn send_step<E>(
    address: Address,
    command: Command,
    progress: Progress<E>,
) -> Step<(), E> {
    match progress {
        Progress::Started => Step::Write { address: address.byte(), opcode: command.code() },
        Progress::Written(Err(e)) => Step::Done(Err(Error::I2c(e))),
        Progress::Written(Ok(_)) => Step::Wait { ms: command.duration_ms() },
        Progress::Waited => Step::Done(Ok(())),
        Progress::Received(_) => Step::Done(Ok(())),
    }
}

/// The step that follows `progress` where a command is sent and its response
/// read: the opcode is written, the time of the command is waited for, the
/// six bytes of the response are read, and `decode` is applied to them if
/// both words are intact. A failure of the bus ends the transaction at once,
/// and so does a wrong checksum.
pub open spec fn exchange_step<T, E>(
    address: Address,
    command: Command,
    progress: Progress<E>,
    decode: spec_fn([u8; RESPONSE_LEN]) -> T,
) -> Step<T, E> {
    match progress {
        Progress::Started => Step::Write { address: address.byte(), opcode: command.code() },
        Progress::Written(Err(e)) => Step::Done(Err(Error::I2c(e))),
        Progress::Written(Ok(_)) => Step::Wait { ms: command.duration_ms() },
        Progress::Waited => Step::Read { address: address.byte() },
        Progress::Received(Err(e)) => Step::Done(Err(Error::I2c(e))),
        Progress::Received(Ok(response)) => if words_intact(response@) {
            Step::Done(Ok(decode(response)))
        } else {
            Step::Done(Err(Error::Crc))
        },
    }
}

/// The step that follows `progress` in a transaction that reads raw counts:
/// `command` is that of a measurement, plain or heated.
pub open spec fn raw_data_step<E>(
    address: Address,
    command: Command,
    progress: Progress<E>,
) -> Step<SensorData, E> {
    exchange_step(
        address,
        command,
        progress,
        |response: [u8; RESPONSE_LEN]| sensor_data(response@),
    )
}

/// The step that follows `progress` in a transaction that reads a
/// measurement in SI units: `command` is that of a measurement, plain or
/// heated.
pub open spec fn measurement_step<E>(
    address: Address,
    command: Command,
    progress: Progress<E>,
) -> Step<Measurement, E> {
    exchange_step(
        address,
        command,
        progress,
        |response: [u8; RESPONSE_LEN]| Measurement::of(sensor_data(response@)),
    )
}

/// The step that follows `progress` in a transaction that reads the serial
/// number.
pub open spec fn serial_number_step<E>(address: Address, progress: Progress<E>) -> Step<u32, E> {
    exchange_step(
        address,
        Command::SerialNumber,
        progress,
        |response: [u8; RESPONSE_LEN]| serial_number(response@),
    )
}

/// The step that follows `progress` in a soft reset.
pub open spec fn soft_reset_step<E>(address: Address, progress: Progress<E>) -> Step<(), E> {
    send_step(address, Command::SoftReset, progress)
}

/// What a transaction ends with once its response was read and its
/// checksums were tested: the response where they are right, and
/// [`Error::Crc`] where one is wrong.
pub fn accept_response<E>(
    response: [u8; RESPONSE_LEN],
    intact: bool,
) -> (result: Result<[u8; RESPONSE_LEN], Error<E>>)
    ensures
        intact ==> result == Ok::<[u8; RESPONSE_LEN], Error<E>>(response),
        !intact ==> result == Err::<[u8; RESPONSE_LEN], Error<E>>(Error::Crc),
{
    if intact {
        Ok(response)
    } else {
        Err(Error::Crc)
    }
}

/// Says what to do next where `command` is sent without reading a response.
pub fn next_send_step<E>(
    address: Address,
    command: Command,
    progress: Progress<E>,
) -> (step: Step<(), E>)
    ensures
        step == send_step(address, command, progress),
{
    match progress {
        Progress::Started => Step::Write { address: u8::from(address), opcode: command.code() },
        Progress::Written(Err(e)) => Step::Done(Err(Error::I2c(e))),
        Progress::Written(Ok(())) => Step::Wait { ms: command.duration_ms() },
        Progress::Waited => Step::Done(Ok(())),
        Progress::Received(_) => Step::Done(Ok(())),
    }
}

/// Says what to do next where `command` is sent and its response read. The
/// transaction ends with the response as it was read, once both of its
/// checksums were found right.
pub fn next_exchange_step<E>(
    address: Address,
    command: Command,
    progress: Progress<E>,
) -> (step: Step<[u8; RESPONSE_LEN], E>)
    ensures
        step == exchange_step(
            address,
            command,
            progress,
            |response: [u8; RESPONSE_LEN]| response,
        ),
{
    match progress {
        Progress::Started => Step::Write { address: u8::from(address), opcode: command.code() },
        Progress::Written(Err(e)) => Step::Done(Err(Error::I2c(e))),
        Progress::Written(Ok(())) => Step::Wait { ms: command.duration_ms() },
        Progress::Waited => Step::Read { address: u8::from(address) },
        Progress::Received(Err(e)) => Step::Done(Err(Error::I2c(e))),
        Progress::Received(Ok(response)) => {
            let intact = checksums_match(&response);
            Step::Done(accept_response(response, intact))
        },
    }
}

/// A response with a wrong checksum, in either word, ends the transaction
/// with [`Error::Crc`]: nothing of it is decoded, whatever the other word
/// holds.
pub proof fn lemma_damaged_response_fails<T, E>(
    address: Address,
    command: Command,
    response: [u8; RESPONSE_LEN],
    decode: spec_fn([u8; RESPONSE_LEN]) -> T,
)
    requires
        !word_intact(response@, 0) || !word_intact(response@, 1),
    ensures
        exchange_step::<T, E>(address, command, Progress::Received(Ok(response)), decode)
            == Step::<T, E>::Done(Err(Error::Crc)),
        raw_data_step::<E>(address, command, Progress::Received(Ok(response)))
            == Step::<SensorData, E>::Done(Err(Error::Crc)),
        measurement_step::<E>(address, command, Progress::Received(Ok(response)))
            == Step::<Measurement, E>::Done(Err(Error::Crc)),
        serial_number_step::<E>(address, Progress::Received(Ok(response)))
            == Step::<u32, E>::Done(Err(Error::Crc)),
{
}

/// A response with both checksums right ends the transaction with what it
/// decodes to.
pub proof fn lemma_intact_response_succeeds<T, E>(
    address: Address,
    command: Command,
    response: [u8; RESPONSE_LEN],
    decode: spec_fn([u8; RESPONSE_LEN]) -> T,
)
    requires
        word_intact(response@, 0),
        word_intact(response@, 1),
    ensures
        exchange_step::<T, E>(address, command, Progress::Received(Ok(response)), decode)
            == Step::<T, E>::Done(Ok(decode(response))),
{
}

/// A transaction succeeds only on a response that was read with both
/// checksums right, and with what the whole response decodes to: there is no
/// result from a part of a response, nor from one that was not read.
pub proof fn lemma_success_needs_intact_response<T, E>(
    address: Address,
    command: Command,
    progress: Progress<E>,
    decode: spec_fn([u8; RESPONSE_LEN]) -> T,
)
    requires
        exchange_step(address, command, progress, decode) is Done,
        exchange_step(address, command, progress, decode)->Done_0 is Ok,
    ensures
        progress is Received,
        progress->Received_0 is Ok,
        words_intact(progress->Received_0->Ok_0@),
        exchange_step(address, command, progress, decode)->Done_0->Ok_0 == decode(
            progress->Received_0->Ok_0,
        ),
{
}

/// A failure of the bus ends the transaction with that failure, at the
/// write as at the read; after a failed write nothing more is asked for.
pub proof fn lemma_bus_failure_ends<T, E>(
    address: Address,
    command: Command,
    failure: E,
    decode: spec_fn([u8; RESPONSE_LEN]) -> T,
)
    ensures
        exchange_step::<T, E>(address, command, Progress::Written(Err(failure)), decode)
            == Step::<T, E>::Done(Err(Error::I2c(failure))),
        exchange_step::<T, E>(address, command, Progress::Received(Err(failure)), decode)
            == Step::<T, E>::Done(Err(Error::I2c(failure))),
        send_step::<E>(address, command, Progress::Written(Err(failure)))
            == Step::<(), E>::Done(Err(Error::I2c(failure))),
{
}

/// A transaction is one cycle: each step that it asks for is answered by
/// progress that counts one step more, and after the third step it is over.
/// So it ends after at most four questions.
pub proof fn lemma_one_cycle<T, E>(
    address: Address,
    command: Command,
    progress: Progress<E>,
    next: Progress<E>,
    decode: spec_fn([u8; RESPONSE_LEN]) -> T,
)
    ensures
        next.answers(exchange_step(address, command, progress, decode)) ==> next.steps_taken()
            == progress.steps_taken() + 1,
        next.answers(send_step(address, command, progress)) ==> next.steps_taken()
            == progress.steps_taken() + 1,
        progress.steps_taken() == 3 ==> exchange_step(address, command, progress, decode) is Done,
        progress.steps_taken() >= 2 ==> send_step(address, command, progress) is Done,
{
}

/// The three steps of a transaction come in one order: the opcode is
/// written to the address of the device, then the time of the command is
/// waited for, then the response is read from the same address.
pub proof fn lemma_step_order<T, E>(
    address: Address,
    command: Command,
    decode: spec_fn([u8; RESPONSE_LEN]) -> T,
)
    ensures
        exchange_step::<T, E>(address, command, Progress::Started, decode)
            == (Step::<T, E>::Write { address: address.byte(), opcode: command.code() }),
        exchange_step::<T, E>(address, command, Progress::Written(Ok(())), decode)
            == (Step::<T, E>::Wait { ms: command.duration_ms() }),
        exchange_step::<T, E>(address, command, Progress::Waited, decode)
            == (Step::<T, E>::Read { address: address.byte() }),
{
}

/// Reading a measurement in SI units is reading the raw counts and
/// converting them: the steps are the same, and so is the result but for the
/// conversion.
pub proof fn lemma_measurement_converts_raw_data<E>(
    address: Address,
    command: Command,
    progress: Progress<E>,
)
    ensures
        measurement_step(address, command, progress) == raw_data_step(
            address,
            command,
            progress,
        ).decoded(|raw: SensorData| Measurement::of(raw)),
{
}

} // verus!

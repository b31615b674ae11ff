//! What one sampling of the sensor yields.

use vstd::prelude::*;

verus! {

/// One measurement. Both quantities are IEEE-754 single-precision numbers,
/// held as their bit patterns.
#[derive(Clone, Copy, Debug, PartialEq, Eq, Structural)]
pub struct SensorReading {
    /// Temperature in degrees Celsius.
    pub temperature_bits: u32,
    /// Relative humidity in percent.
    pub humidity_bits: u32,
}

/// Why a sampling produced no measurement.
#[derive(Clone, Copy, Debug, PartialEq, Eq, Structural)]
pub enum SensorErrorKind {
    /// The sensor did not answer within the time the bus allows.
    BusTimeout,
    /// The bus transaction failed or its data was malformed.
    ChecksumOrProtocolError,
    /// The sensor was sampled before it had been set up.
    NotInitialized,
}

/// The classified result of one sampling.
#[derive(Clone, Copy, Debug, PartialEq, Eq, Structural)]
pub enum ReadOutcome {
    /// The sensor delivered a measurement.
    Success(SensorReading),
    /// The sampling failed; no measurement exists for this cycle.
    Failure(SensorErrorKind),
}

impl SensorReading {
    pub fn new(temperature_bits: u32, humidity_bits: u32) -> (reading: SensorReading)
        ensures
            reading.temperature_bits == temperature_bits,
            reading.humidity_bits == humidity_bits,
    {
        SensorReading { temperature_bits, humidity_bits }
    }
}

impl ReadOutcome {
    /// The outcome of a sampling that either delivered a measurement or was
    /// classified as one kind of failure.
    pub fn from_result(result: Result<SensorReading, SensorErrorKind>) -> (outcome: ReadOutcome)
        ensures
            outcome == match result {
                Ok(reading) => ReadOutcome::Success(reading),
                Err(kind) => ReadOutcome::Failure(kind),
            },
    {
        match result {
            Ok(reading) => ReadOutcome::Success(reading),
            Err(kind) => ReadOutcome::Failure(kind),
        }
    }

    pub open spec fn succeeded(self) -> bool {
        self is Success
    }

    /// Whether the sampling produced a measurement.
    pub fn is_ok(&self) -> (ok: bool)
        ensures
            ok == self.succeeded(),
    {
        match self {
            ReadOutcome::Success(_) => true,
            ReadOutcome::Failure(_) => false,
        }
    }

    /// The measurement, if there is one.
    pub fn reading(&self) -> (reading: Option<SensorReading>)
        ensures
            reading == match *self {
                ReadOutcome::Success(r) => Some(r),
                ReadOutcome::Failure(_) => None,
            },
    {
        match self {
            ReadOutcome::Success(r) => Some(*r),
            ReadOutcome::Failure(_) => None,
        }
    }
}

} // verus!

//! Driver logic for the S2-LP sub-GHz radio transceiver from ST.
//!
//! The library holds the radio's state machine, the arithmetic that turns
//! physical RF settings into register encodings, the packet formats and the
//! decisions of the interrupt-driven transmit and receive protocols. Bus,
//! pin and timer access is done by the caller, which hands the library the
//! values it read and performs the register operations the library returns.
use vstd::prelude::*;

pub mod ll;
pub mod packet_format;
pub mod states;

verus! {

/// Gives the error type that belongs to a driver configuration.
pub trait ErrorType {
    type ErrorType;
}

/// The main error type of the crate
#[derive(Debug, Clone, Copy, PartialEq, Eq)]
pub enum Error<SpiError, SdnError, GpioError> {
    /// The register transport failed
    Device(ll::DeviceError<SpiError>),
    /// The shutdown pin failed
    Sdn(SdnError),
    /// The interrupt pin failed
    Gpio(GpioError),
    /// The chip could not be initialized
    Init,
    /// A configuration value is out of range or does not match the chip's configuration
    BadConfig { reason: &'static str },
    /// The payload does not fit the packet format's length field
    BufferTooLarge,
    /// A buffer is too small for the requested operation
    BufferTooSmall,
    /// A register held a value that has no meaning
    ConversionError { name: &'static str },
    /// The radio reached a state it should not be in
    BadState,
    /// The RC oscillator calibration reported a lock error
    RcoLockError,
}

/// The number of a gpio pin of the chip
#[derive(Clone, Copy, Debug, PartialEq, Eq)]
pub enum GpioNumber {
    Gpio0,
    Gpio1,
    Gpio2,
    Gpio3,
}

impl GpioNumber {
    /// The index of the pin, 0 to 3
    pub open spec fn spec_index(self) -> u8 {
        match self {
            GpioNumber::Gpio0 => 0,
            GpioNumber::Gpio1 => 1,
            GpioNumber::Gpio2 => 2,
            GpioNumber::Gpio3 => 3,
        }
    }

    /// The index of the pin, 0 to 3
    pub fn index(&self) -> (r: u8)
        ensures
            r == self.spec_index(),
            r < 4,
    {
        match self {
            GpioNumber::Gpio0 => 0,
            GpioNumber::Gpio1 => 1,
            GpioNumber::Gpio2 => 2,
            GpioNumber::Gpio3 => 3,
        }
    }
}

impl<SpiError, SdnError, GpioError> From<ll::DeviceError<SpiError>> for Error<SpiError, SdnError, GpioError> {
    fn from(v: ll::DeviceError<SpiError>) -> (r: Self)
        ensures
            r == Error::<SpiError, SdnError, GpioError>::Device(v),
    {
        Error::Device(v)
    }
}

impl<SpiError, SdnError, GpioError> vstd::std_specs::convert::FromSpecImpl<ll::DeviceError<SpiError>> for Error<SpiError, SdnError, GpioError> {
    open spec fn obeys_from_spec() -> bool {
        true
    }

    open spec fn from_spec(v: ll::DeviceError<SpiError>) -> Self {
        Error::Device(v)
    }
}

} // verus!

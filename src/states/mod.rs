//! The radio's states and the transitions between them.
//!
//! Each state is a type, so an operation that a state does not allow cannot be called on
//! it. A transition consumes the state and returns the next one, together with the
//! register operations the caller performs on the chip to make it.
use core::marker::PhantomData;
use vstd::prelude::*;

pub mod addressable;
pub mod ready;
pub mod rx;
pub mod shutdown;
pub mod standby;
pub mod tx;

verus! {

/// Implemented by the states in which the chip is powered and its registers can be accessed
pub trait Addressable {}

impl<PF> Addressable for Standby<PF> {}

impl<PF> Addressable for Ready<PF> {}

impl<'buffer, PF> Addressable for Tx<'buffer, PF> {}

impl<PF> Addressable for Rx<PF> {}

/// The radio is in shutdown mode. This is the lowest power state and the radio is effectively turned off.
pub struct Shutdown;

/// The radio is in standby mode. This is the lowest power state where the radio is still active.
pub struct Standby<PF> {
    /// The internal `fdig` of the radio
    digital_frequency: u32,
    _p: PhantomData<PF>,
}

/// The radio is in ready mode. From here the radio can start sending and receiving packets.
pub struct Ready<PF> {
    /// The internal `fdig` of the radio
    digital_frequency: u32,
    _p: PhantomData<PF>,
}

impl<PF> Ready<PF> {
    /// The internal `fdig` of the radio
    pub closed spec fn spec_digital_frequency(&self) -> u32 {
        self.digital_frequency
    }

    /// Enter the ready state with the given digital clock
    pub fn new(digital_frequency: u32) -> (r: Self)
        ensures
            r.spec_digital_frequency() == digital_frequency,
    {
        Ready { digital_frequency, _p: PhantomData }
    }

    /// The internal `fdig` of the radio
    pub fn digital_frequency(&self) -> (r: u32)
        ensures
            r == self.spec_digital_frequency(),
    {
        self.digital_frequency
    }
}

impl<PF> Standby<PF> {
    /// The internal `fdig` of the radio
    pub closed spec fn spec_digital_frequency(&self) -> u32 {
        self.digital_frequency
    }
}

/// The radio is in send mode. A packet is being sent or has just been sent
pub struct Tx<'buffer, PF> {
    /// The internal `fdig` of the radio
    digital_frequency: u32,
    /// The part of the payload that is not in the FIFO yet
    tx_buffer: &'buffer [u8],
    tx_done: bool,
    _p: PhantomData<PF>,
}

impl<'buffer, PF> Tx<'buffer, PF> {
    /// The internal `fdig` of the radio
    pub closed spec fn spec_digital_frequency(&self) -> u32 {
        self.digital_frequency
    }

    /// The part of the payload that is not in the FIFO yet
    pub closed spec fn spec_remaining(&self) -> Seq<u8> {
        self.tx_buffer@
    }

    /// Whether the wait has reached its result
    pub closed spec fn spec_done(&self) -> bool {
        self.tx_done
    }

    /// Enter the send state with the part of the payload that is not in the FIFO yet
    pub fn new(digital_frequency: u32, tx_buffer: &'buffer [u8]) -> (r: Self)
        ensures
            r.spec_digital_frequency() == digital_frequency,
            r.spec_remaining() == tx_buffer@,
            !r.spec_done(),
    {
        Tx { digital_frequency, tx_buffer, tx_done: false, _p: PhantomData }
    }
}

/// The radio is in receive mode. The receiver is currently on, or a packet is has been received and is ready to be read out
pub struct Rx<PF> {
    /// The internal `fdig` of the radio
    digital_frequency: u32,
    /// The buffer the packet is received into
    rx_buffer: Vec<u8>,
    /// How many bytes of the buffer hold received data
    written: usize,
    rx_done: bool,
    _p: PhantomData<PF>,
}

impl<PF> Rx<PF> {
    /// The internal `fdig` of the radio
    pub closed spec fn spec_digital_frequency(&self) -> u32 {
        self.digital_frequency
    }

    /// The receive buffer
    pub closed spec fn spec_buffer(&self) -> Seq<u8> {
        self.rx_buffer@
    }

    /// How many bytes of the buffer hold received data
    pub closed spec fn spec_written(&self) -> nat {
        self.written as nat
    }

    /// Whether the wait has reached its result
    pub closed spec fn spec_done(&self) -> bool {
        self.rx_done
    }

    /// The cursor never passes the end of the buffer
    pub closed spec fn wf(&self) -> bool {
        self.written <= self.rx_buffer@.len()
    }

    /// Enter the receive state with an empty receive buffer of the buffer's length
    pub fn new(digital_frequency: u32, rx_buffer: Vec<u8>) -> (r: Self)
        ensures
            r.wf(),
            r.spec_digital_frequency() == digital_frequency,
            r.spec_buffer() == rx_buffer@,
            r.spec_written() == 0,
            !r.spec_done(),
    {
        Rx { digital_frequency, rx_buffer, written: 0, rx_done: false, _p: PhantomData }
    }
}

} // verus!

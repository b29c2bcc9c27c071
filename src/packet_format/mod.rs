//! Packet formats: the format-specific register setup and the per-packet checks
use vstd::prelude::*;

use crate::ll::{
    RegOp, PCKTCTRL5, PCKTCTRL6, PCKT_FLT_GOALS0, PCKT_FLT_GOALS1, PCKT_FLT_GOALS2,
    PCKT_FLT_OPTIONS, PROTOCOL1, SYNC0, SYNC1, SYNC2, SYNC3,
};
use crate::Error;

pub mod basic;
pub mod ieee802154g;

pub use basic::{Basic, BasicConfig, BasicRxMetaData, BasicTxMetaData};
pub use ieee802154g::{Ieee802154G, Ieee802154GConfig, Ieee802154GRxMetaData, Ieee802154GTxMetaData};

verus! {

/// No packet format has been configured yet
pub struct Uninitialized;

/// A packet format: its configuration, the metadata a sender gives per packet and the
/// metadata a receiver reads back.
pub trait PacketFormat: Sized {
    /// All the configuration paramters for the format
    type Config;
    /// All reception metadata specific for the format
    type RxMetaData;
    /// All transmission metada specific for the format
    type TxMetaData;

    /// Whether the configuration can be used
    spec fn spec_config_ok(config: &Self::Config) -> bool;

    /// The error for a configuration the format cannot use
    spec fn spec_config_error(config: &Self::Config) -> FormatError;

    /// The register operations that configure the format
    spec fn spec_config_ops(config: &Self::Config) -> Seq<RegOp>;

    /// The register a send reads before [Self::setup_packet_send]
    spec fn spec_send_register() -> u8;

    /// What [Self::setup_packet_send] returns
    spec fn spec_setup_packet_send(
        tx_meta_data: &Self::TxMetaData,
        payload_len: usize,
        register: u8,
    ) -> Result<Seq<RegOp>, FormatError>;

    /// What [Self::rx_meta_data] returns
    spec fn spec_rx_meta_data(pckt_ctrl_4: u8, rx_addre_field_0: u8) -> Self::RxMetaData;

    /// The register operations that configure the format on a radio whose format is not set,
    /// or the format's error where it cannot use the configuration
    fn use_config(config: &Self::Config) -> (r: Result<Vec<RegOp>, FormatError>)
        ensures
            match r {
                Ok(ops) => Self::spec_config_ok(config) && ops@ == Self::spec_config_ops(config),
                Err(e) => !Self::spec_config_ok(config) && e == Self::spec_config_error(config),
            },
    ;

    /// The register a send reads before [Self::setup_packet_send]
    fn send_register() -> (r: u8)
        ensures
            r == Self::spec_send_register(),
    ;

    /// Check a send of `payload_len` bytes against the format and the value read from
    /// [Self::send_register], and give the register operations that set the packet length
    /// and addressing up
    fn setup_packet_send(
        tx_meta_data: &Self::TxMetaData,
        payload_len: usize,
        register: u8,
    ) -> (r: Result<Vec<RegOp>, FormatError>)
        ensures
            match (r, Self::spec_setup_packet_send(tx_meta_data, payload_len, register)) {
                (Ok(ops), Ok(spec_ops)) => ops@ == spec_ops,
                (Err(e), Err(spec_e)) => e == spec_e,
                _ => false,
            },
    ;

    /// The reception metadata from the PCKTCTRL4 and RX_ADDRE_FIELD0 registers
    fn rx_meta_data(pckt_ctrl_4: u8, rx_addre_field_0: u8) -> (r: Self::RxMetaData)
        ensures
            r == Self::spec_rx_meta_data(pckt_ctrl_4, rx_addre_field_0),
    ;
}

/// Why a packet format refuses a send
#[derive(Clone, Copy, Debug, PartialEq, Eq)]
pub enum FormatError {
    /// The payload does not fit the packet format's length field
    BufferTooLarge,
    /// The metadata does not match the format's configuration
    BadConfig { reason: &'static str },
    /// A register held a value that has no meaning
    ConversionError { name: &'static str },
}

impl FormatError {
    /// The driver error this format error is
    pub open spec fn spec_into_error<S, D, G>(self) -> Error<S, D, G> {
        match self {
            FormatError::BufferTooLarge => Error::BufferTooLarge,
            FormatError::BadConfig { reason } => Error::BadConfig { reason },
            FormatError::ConversionError { name } => Error::ConversionError { name },
        }
    }

    /// The driver error this format error is
    pub fn into_error<S, D, G>(self) -> (r: Error<S, D, G>)
        ensures
            r == self.spec_into_error::<S, D, G>(),
    {
        match self {
            FormatError::BufferTooLarge => Error::BufferTooLarge,
            FormatError::BadConfig { reason } => Error::BadConfig { reason },
            FormatError::ConversionError { name } => Error::ConversionError { name },
        }
    }
}

/// The preamble pattern (PREAMBLE_SEL of PCKTCTRL3)
#[derive(Clone, Copy, Debug, PartialEq, Eq)]
pub enum PreamblePattern {
    /// - `0101` for 2(G)FSK or OOK/ASK
    /// - `0010` for 4(G)FSK
    Pattern0,
    /// - `1010` for 2(G)FSK or OOK/ASK
    /// - `0111` for 4(G)FSK
    Pattern1,
    /// - `1100` for 2(G)FSK or OOK/ASK
    /// - `1101` for 4(G)FSK
    Pattern2,
    /// - `0011` for 2(G)FSK or OOK/ASK
    /// - `1000` for 4(G)FSK
    Pattern3,
}

impl PreamblePattern {
    pub open spec fn spec_code(self) -> u8 {
        match self {
            PreamblePattern::Pattern0 => 0,
            PreamblePattern::Pattern1 => 1,
            PreamblePattern::Pattern2 => 2,
            PreamblePattern::Pattern3 => 3,
        }
    }

    /// The PREAMBLE_SEL field value
    pub fn code(&self) -> (r: u8)
        ensures
            r == self.spec_code(),
            r < 4,
    {
        match self {
            PreamblePattern::Pattern0 => 0,
            PreamblePattern::Pattern1 => 1,
            PreamblePattern::Pattern2 => 2,
            PreamblePattern::Pattern3 => 3,
        }
    }
}

/// The writes of the preamble length (10 bits) and sync length (6 bits) to PCKTCTRL6 and
/// PCKTCTRL5
pub open spec fn spec_preamble_sync_ops(preamble_length: u16, sync_length: u8) -> Seq<RegOp> {
    seq![
        RegOp::Write {
            address: PCKTCTRL6,
            value: ((sync_length % 64) * 4 + preamble_length / 256 % 4) as u8,
        },
        RegOp::Write { address: PCKTCTRL5, value: (preamble_length % 256) as u8 },
    ]
}

/// The writes of the sync word to SYNC3..SYNC0, most significant byte first
pub open spec fn spec_sync_ops(sync_pattern: u32) -> Seq<RegOp> {
    seq![
        RegOp::Write { address: SYNC3, value: (sync_pattern / 0x100_0000) as u8 },
        RegOp::Write { address: SYNC2, value: (sync_pattern / 0x1_0000 % 0x100) as u8 },
        RegOp::Write { address: SYNC1, value: (sync_pattern / 0x100 % 0x100) as u8 },
        RegOp::Write { address: SYNC0, value: (sync_pattern % 0x100) as u8 },
    ]
}

/// Push the preamble and sync length writes
pub fn push_preamble_sync_ops(ops: &mut Vec<RegOp>, preamble_length: u16, sync_length: u8)
    ensures
        final(ops)@ == old(ops)@ + spec_preamble_sync_ops(preamble_length, sync_length),
{
    ops.push(
        RegOp::Write {
            address: PCKTCTRL6,
            value: ((sync_length % 64) * 4 + (preamble_length / 256 % 4) as u8),
        },
    );
    ops.push(RegOp::Write { address: PCKTCTRL5, value: (preamble_length % 256) as u8 });
    assert(final(ops)@ =~= old(ops)@ + spec_preamble_sync_ops(preamble_length, sync_length));
}

/// Push the sync word writes
pub fn push_sync_ops(ops: &mut Vec<RegOp>, sync_pattern: u32)
    ensures
        final(ops)@ == old(ops)@ + spec_sync_ops(sync_pattern),
{
    ops.push(RegOp::Write { address: SYNC3, value: (sync_pattern / 0x100_0000) as u8 });
    ops.push(RegOp::Write { address: SYNC2, value: (sync_pattern / 0x1_0000 % 0x100) as u8 });
    ops.push(RegOp::Write { address: SYNC1, value: (sync_pattern / 0x100 % 0x100) as u8 });
    ops.push(RegOp::Write { address: SYNC0, value: (sync_pattern % 0x100) as u8 });
    assert(final(ops)@ =~= old(ops)@ + spec_sync_ops(sync_pattern));
}

/// Setup the filters.
///
/// If none of the address filters are set, then no filtering will be done on the address and
/// all packets will be received.
#[derive(Clone, Copy, Debug, PartialEq, Eq)]
pub struct PacketFilteringOptions {
    /// If true, packets with a bad CRC will be filtered out.
    /// Ignored if no CRC is enabled.
    pub discard_bad_crc: bool,
    /// The address of *this* device.
    ///
    /// If Some, the filtering will be turned on and packets with this destination address will not be discarded.
    pub source_address: Option<u8>,
    /// The address of the multicast group this device is part of.
    ///
    /// If Some, the filtering will be turned on and packets with this destination address will not be discarded.
    pub multicast_address: Option<u8>,
    /// The broadcast address.
    ///
    /// If Some, the filtering will be turned on and packets with this destination address will not be discarded.
    pub broadcast_address: Option<u8>,
}

impl Default for PacketFilteringOptions {
    fn default() -> (r: Self)
        ensures
            r == (PacketFilteringOptions {
                discard_bad_crc: true,
                source_address: None,
                multicast_address: None,
                broadcast_address: None,
            }),
    {
        PacketFilteringOptions {
            discard_bad_crc: true,
            source_address: None,
            multicast_address: None,
            broadcast_address: None,
        }
    }
}

/// An address, or 0 where there is none
pub open spec fn address_or_zero(address: Option<u8>) -> u8 {
    match address {
        Some(a) => a,
        None => 0,
    }
}

fn unwrap_address(address: Option<u8>) -> (r: u8)
    ensures
        r == address_or_zero(address),
{
    match address {
        Some(a) => a,
        None => 0,
    }
}

impl PacketFilteringOptions {
    /// The filter register operations: the CRC and destination filter enables of
    /// PCKT_FLT_OPTIONS, the broadcast, multicast and source addresses, and automatic
    /// filtering on in PROTOCOL1
    pub open spec fn spec_ops(self) -> Seq<RegOp> {
        seq![
            RegOp::Modify {
                address: PCKT_FLT_OPTIONS,
                mask: 0x0F,
                value: ((if self.discard_bad_crc { 1int } else { 0 }) + (if self.source_address is Some {
                    2int
                } else {
                    0
                }) + (if self.multicast_address is Some { 4int } else { 0 }) + (
                if self.broadcast_address is Some {
                    8int
                } else {
                    0
                })) as u8,
            },
            RegOp::Write { address: PCKT_FLT_GOALS2, value: address_or_zero(self.broadcast_address) },
            RegOp::Write { address: PCKT_FLT_GOALS1, value: address_or_zero(self.multicast_address) },
            RegOp::Write { address: PCKT_FLT_GOALS0, value: address_or_zero(self.source_address) },
            RegOp::Modify { address: PROTOCOL1, mask: 0x01, value: 0x01 },
        ]
    }

    /// Push the filter register operations
    pub fn push_ops(&self, ops: &mut Vec<RegOp>)
        ensures
            final(ops)@ == old(ops)@ + self.spec_ops(),
    {
        let crc: u8 = if self.discard_bad_crc { 1 } else { 0 };
        let source: u8 = if self.source_address.is_some() { 2 } else { 0 };
        let multicast: u8 = if self.multicast_address.is_some() { 4 } else { 0 };
        let broadcast: u8 = if self.broadcast_address.is_some() { 8 } else { 0 };
        ops.push(RegOp::Modify { address: PCKT_FLT_OPTIONS, mask: 0x0F, value: crc + source + multicast + broadcast });
        ops.push(RegOp::Write { address: PCKT_FLT_GOALS2, value: unwrap_address(self.broadcast_address) });
        ops.push(RegOp::Write { address: PCKT_FLT_GOALS1, value: unwrap_address(self.multicast_address) });
        ops.push(RegOp::Write { address: PCKT_FLT_GOALS0, value: unwrap_address(self.source_address) });
        ops.push(RegOp::Modify { address: PROTOCOL1, mask: 0x01, value: 0x01 });
        assert(final(ops)@ =~= old(ops)@ + self.spec_ops());
    }
}

} // verus!

//! The IEEE 802.15.4g packet format
use vstd::prelude::*;

use super::{
    push_preamble_sync_ops, push_sync_ops, spec_preamble_sync_ops, spec_sync_ops, FormatError,
    PacketFilteringOptions, PacketFormat, PreamblePattern,
};
use crate::ll::{CrcMode, RegOp, PCKTCTRL1, PCKTCTRL2, PCKTCTRL3, PCKTCTRL4, PCKTLEN0, PCKTLEN1};

verus! {

/// The frame length field is 11 bits: a frame, CRC included, is shorter than this
pub const MAX_FRAME_LEN: usize = 2048;

/// The IEEE 802.15.4g packet format
pub struct Ieee802154G;

/// Configuration for the Ieee802154G packet format
#[derive(Debug, Copy, Clone, PartialEq, Eq)]
pub struct Ieee802154GConfig {
    /// The preamble length in pairs of bits, 0 to 1023
    pub preamble_length: u16,
    pub preamble_pattern: PreamblePattern,
    /// The sync word length in bits, 0 to 32
    pub sync_length: u8,
    pub sync_pattern: u32,
    /// Only no CRC, polynomial 0x1021 or polynomial 0x04C011BB7
    pub crc_mode: CrcMode,
    /// Only relevant for TX as RX reads the bit from the PHR
    pub data_whitening: bool,
}

/// Receiver metadata for the Ieee802154G packet format
#[derive(Debug, Copy, Clone, PartialEq, Eq)]
pub struct Ieee802154GRxMetaData;

/// Transmission metadata for the Ieee802154G packet format
#[derive(Debug, Copy, Clone, PartialEq, Eq)]
pub struct Ieee802154GTxMetaData;

/// Reason given for a CRC mode the format does not support
pub const UNSUPPORTED_CRC_MODE: &'static str = "Unsupported CRC mode selected";

/// The name given when PCKTCTRL1 holds no known CRC mode
pub const CRC_MODE_NAME: &'static str = "CrcMode";

impl PacketFormat for Ieee802154G {
    type Config = Ieee802154GConfig;
    type RxMetaData = Ieee802154GRxMetaData;
    type TxMetaData = Ieee802154GTxMetaData;

    open spec fn spec_config_ok(config: &Ieee802154GConfig) -> bool {
        config.crc_mode == CrcMode::NoCrc || config.crc_mode == CrcMode::CrcPoly0X1021
            || config.crc_mode == CrcMode::CrcPoly0X04C011Bb7
    }

    open spec fn spec_config_error(config: &Ieee802154GConfig) -> FormatError {
        FormatError::BadConfig { reason: UNSUPPORTED_CRC_MODE }
    }

    open spec fn spec_config_ops(config: &Ieee802154GConfig) -> Seq<RegOp> {
        spec_preamble_sync_ops(config.preamble_length, config.sync_length) + seq![
            RegOp::Write { address: PCKTCTRL4, value: 0x88 },
            RegOp::Write { address: PCKTCTRL3, value: (64 + config.preamble_pattern.spec_code()) as u8 },
            RegOp::Write { address: PCKTCTRL2, value: 1 },
            RegOp::Write {
                address: PCKTCTRL1,
                value: (config.crc_mode.spec_code() * 32 + if config.data_whitening {
                    16int
                } else {
                    0
                }) as u8,
            },
        ] + spec_sync_ops(config.sync_pattern) + (PacketFilteringOptions {
            discard_bad_crc: true,
            source_address: None,
            multicast_address: None,
            broadcast_address: None,
        }).spec_ops()
    }

    open spec fn spec_send_register() -> u8 {
        PCKTCTRL1
    }

    open spec fn spec_setup_packet_send(
        tx_meta_data: &Ieee802154GTxMetaData,
        payload_len: usize,
        register: u8,
    ) -> Result<Seq<RegOp>, FormatError> {
        match CrcMode::spec_from_code(register / 32) {
            None => Err(FormatError::ConversionError { name: CRC_MODE_NAME }),
            Some(crc_mode) => {
                let len = payload_len + crc_mode.spec_num_bytes();
                if len >= MAX_FRAME_LEN {
                    Err(FormatError::BufferTooLarge)
                } else {
                    Ok(
                        seq![
                            RegOp::Write { address: PCKTLEN1, value: (len / 256) as u8 },
                            RegOp::Write { address: PCKTLEN0, value: (len % 256) as u8 },
                        ],
                    )
                }
            },
        }
    }

    open spec fn spec_rx_meta_data(pckt_ctrl_4: u8, rx_addre_field_0: u8) -> Ieee802154GRxMetaData {
        Ieee802154GRxMetaData
    }

    /// Program the preamble and sync lengths, the 11 bit frame length field, the
    /// 802.15.4g format with its preamble pattern, variable length packets, the CRC and
    /// whitening, the sync word and the default packet filters. Only no CRC and the
    /// polynomials 0x1021 and 0x04C011BB7 are accepted.
    fn use_config(config: &Ieee802154GConfig) -> (r: Result<Vec<RegOp>, FormatError>) {
        match config.crc_mode {
            CrcMode::NoCrc | CrcMode::CrcPoly0X1021 | CrcMode::CrcPoly0X04C011Bb7 => {},
            _ => {
                return Err(FormatError::BadConfig { reason: UNSUPPORTED_CRC_MODE });
            },
        }
        let mut ops: Vec<RegOp> = Vec::new();
        push_preamble_sync_ops(&mut ops, config.preamble_length, config.sync_length);
        ops.push(RegOp::Write { address: PCKTCTRL4, value: 0x88 });
        ops.push(RegOp::Write { address: PCKTCTRL3, value: 64 + config.preamble_pattern.code() });
        ops.push(RegOp::Write { address: PCKTCTRL2, value: 1 });
        let whitening: u8 = if config.data_whitening { 16 } else { 0 };
        ops.push(RegOp::Write { address: PCKTCTRL1, value: config.crc_mode.code() * 32 + whitening });
        push_sync_ops(&mut ops, config.sync_pattern);
        let filter = PacketFilteringOptions {
            discard_bad_crc: true,
            source_address: None,
            multicast_address: None,
            broadcast_address: None,
        };
        filter.push_ops(&mut ops);
        assert(ops@ =~= Self::spec_config_ops(config));
        Ok(ops)
    }

    fn send_register() -> (r: u8) {
        PCKTCTRL1
    }

    /// The payload and the CRC together must fit the 11 bit frame length.
    fn setup_packet_send(
        tx_meta_data: &Ieee802154GTxMetaData,
        payload_len: usize,
        register: u8,
    ) -> (r: Result<Vec<RegOp>, FormatError>) {
        let crc_mode = match CrcMode::from_code(register / 32) {
            Some(crc_mode) => crc_mode,
            None => {
                return Err(FormatError::ConversionError { name: CRC_MODE_NAME });
            },
        };
        let crc_len = crc_mode.num_bytes();
        if payload_len >= MAX_FRAME_LEN - crc_len {
            return Err(FormatError::BufferTooLarge);
        }
        let len = payload_len + crc_len;
        let mut ops: Vec<RegOp> = Vec::new();
        ops.push(RegOp::Write { address: PCKTLEN1, value: (len / 256) as u8 });
        ops.push(RegOp::Write { address: PCKTLEN0, value: (len % 256) as u8 });
        assert(ops@ =~= Self::spec_setup_packet_send(tx_meta_data, payload_len, register)->Ok_0);
        Ok(ops)
    }

    fn rx_meta_data(pckt_ctrl_4: u8, rx_addre_field_0: u8) -> (r: Ieee802154GRxMetaData) {
        Ieee802154GRxMetaData
    }
}

} // verus!

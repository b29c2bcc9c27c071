//! The basic packet format
use vstd::prelude::*;

use super::{
    push_preamble_sync_ops, push_sync_ops, spec_preamble_sync_ops, spec_sync_ops,
    FormatError, PacketFilteringOptions, PacketFormat, PreamblePattern,
};
use crate::ll::{
    CrcMode, LenWid, RegOp, PCKTCTRL1, PCKTCTRL2, PCKTCTRL3, PCKTCTRL4, PCKTLEN0, PCKTLEN1,
    PCKT_FLT_GOALS3, PCKT_PSTMBL,
};

verus! {

/// Reason given when a send's destination address does not match the configured addressing
pub const ADDRESS_MISMATCH: &'static str = "Given address different from config";

/// The basic packet format
pub struct Basic;

/// Configuration for the Basic packet format
#[derive(Debug, Copy, Clone, PartialEq, Eq)]
pub struct BasicConfig {
    /// The preamble length in pairs of bits, 0 to 1023
    pub preamble_length: u16,
    pub preamble_pattern: PreamblePattern,
    /// The sync word length in bits, 0 to 32
    pub sync_length: u8,
    pub sync_pattern: u32,
    /// Whether packets carry a destination address byte
    pub include_address: bool,
    pub packet_length_encoding: LenWid,
    /// In pairs of `01`'s
    pub postamble_length: u8,
    pub crc_mode: CrcMode,
    pub packet_filter: PacketFilteringOptions,
}

/// Receiver metadata for the Basic packet format
#[derive(Debug, Copy, Clone, PartialEq, Eq)]
pub struct BasicRxMetaData {
    /// The received packet destination address (if any)
    pub destination_address: Option<u8>,
}

/// Transmission metadata for the Basic packet format
#[derive(Debug, Copy, Clone, PartialEq, Eq)]
pub struct BasicTxMetaData {
    /// The destination address of the packet (if any)
    pub destination_address: Option<u8>,
}

/// Whether PCKTCTRL4 says packets carry an address byte (ADDRESS_LEN, bit 3)
pub open spec fn address_included(pckt_ctrl_4: u8) -> bool {
    pckt_ctrl_4 / 8 % 2 == 1
}

/// The largest packet length the length field of PCKTCTRL4 (LEN_WID, bit 7) allows
pub open spec fn max_packet_len(pckt_ctrl_4: u8) -> int {
    if pckt_ctrl_4 / 128 == 1 {
        65535
    } else {
        255
    }
}

/// The largest payload a basic packet takes: the length field's maximum less the address
/// byte, if any
pub open spec fn max_payload_len(pckt_ctrl_4: u8) -> int {
    max_packet_len(pckt_ctrl_4) - if address_included(pckt_ctrl_4) {
        1int
    } else {
        0
    }
}

impl PacketFormat for Basic {
    type Config = BasicConfig;
    type RxMetaData = BasicRxMetaData;
    type TxMetaData = BasicTxMetaData;

    open spec fn spec_config_ok(config: &BasicConfig) -> bool {
        true
    }

    /// Every basic configuration can be used
    open spec fn spec_config_error(config: &BasicConfig) -> FormatError {
        FormatError::BadConfig { reason: "" }
    }

    open spec fn spec_config_ops(config: &BasicConfig) -> Seq<RegOp> {
        spec_preamble_sync_ops(config.preamble_length, config.sync_length) + seq![
            RegOp::Write {
                address: PCKTCTRL4,
                value: (config.packet_length_encoding.spec_code() * 128 + if config.include_address {
                    8int
                } else {
                    0
                }) as u8,
            },
            RegOp::Write { address: PCKTCTRL3, value: config.preamble_pattern.spec_code() },
            RegOp::Write { address: PCKTCTRL2, value: 1 },
            RegOp::Write { address: PCKTCTRL1, value: (config.crc_mode.spec_code() * 32) as u8 },
        ] + spec_sync_ops(config.sync_pattern) + seq![
            RegOp::Write { address: PCKT_PSTMBL, value: config.postamble_length },
        ] + config.packet_filter.spec_ops()
    }

    open spec fn spec_send_register() -> u8 {
        PCKTCTRL4
    }

    open spec fn spec_setup_packet_send(
        tx_meta_data: &BasicTxMetaData,
        payload_len: usize,
        register: u8,
    ) -> Result<Seq<RegOp>, FormatError> {
        let address = address_included(register);
        let len = payload_len + if address {
            1int
        } else {
            0
        };
        if payload_len > max_payload_len(register) {
            Err(FormatError::BufferTooLarge)
        } else if address != tx_meta_data.destination_address is Some {
            Err(FormatError::BadConfig { reason: ADDRESS_MISMATCH })
        } else {
            Ok(
                seq![
                    RegOp::Write { address: PCKTLEN1, value: (len / 256) as u8 },
                    RegOp::Write { address: PCKTLEN0, value: (len % 256) as u8 },
                ] + match tx_meta_data.destination_address {
                    Some(destination) => seq![
                        RegOp::Write { address: PCKT_FLT_GOALS3, value: destination },
                    ],
                    None => Seq::empty(),
                },
            )
        }
    }

    open spec fn spec_rx_meta_data(pckt_ctrl_4: u8, rx_addre_field_0: u8) -> BasicRxMetaData {
        BasicRxMetaData {
            destination_address: if address_included(pckt_ctrl_4) {
                Some(rx_addre_field_0)
            } else {
                None
            },
        }
    }

    /// Program the preamble and sync lengths, the length field and address byte, the basic
    /// format with its preamble pattern, variable length packets, the CRC, the sync word, the
    /// postamble and the packet filters.
    fn use_config(config: &BasicConfig) -> (r: Result<Vec<RegOp>, FormatError>) {
        let mut ops: Vec<RegOp> = Vec::new();
        push_preamble_sync_ops(&mut ops, config.preamble_length, config.sync_length);
        let address: u8 = if config.include_address { 8 } else { 0 };
        ops.push(
            RegOp::Write {
                address: PCKTCTRL4,
                value: config.packet_length_encoding.code() * 128 + address,
            },
        );
        ops.push(RegOp::Write { address: PCKTCTRL3, value: config.preamble_pattern.code() });
        ops.push(RegOp::Write { address: PCKTCTRL2, value: 1 });
        ops.push(RegOp::Write { address: PCKTCTRL1, value: config.crc_mode.code() * 32 });
        push_sync_ops(&mut ops, config.sync_pattern);
        ops.push(RegOp::Write { address: PCKT_PSTMBL, value: config.postamble_length });
        config.packet_filter.push_ops(&mut ops);
        assert(ops@ =~= Self::spec_config_ops(config));
        Ok(ops)
    }

    fn send_register() -> (r: u8) {
        PCKTCTRL4
    }

    /// The payload must fit the length field less the address byte, and a destination
    /// address must be given exactly when the format includes one.
    fn setup_packet_send(
        tx_meta_data: &BasicTxMetaData,
        payload_len: usize,
        register: u8,
    ) -> (r: Result<Vec<RegOp>, FormatError>) {
        let address = register / 8 % 2 == 1;
        let max_packet_len: usize = if register / 128 == 1 { 65535 } else { 255 };
        let max_payload_len: usize = if address { max_packet_len - 1 } else { max_packet_len };
        if payload_len > max_payload_len {
            return Err(FormatError::BufferTooLarge);
        }
        if address != tx_meta_data.destination_address.is_some() {
            return Err(FormatError::BadConfig { reason: ADDRESS_MISMATCH });
        }
        let len: usize = if address { payload_len + 1 } else { payload_len };
        let mut ops: Vec<RegOp> = Vec::new();
        ops.push(RegOp::Write { address: PCKTLEN1, value: (len / 256) as u8 });
        ops.push(RegOp::Write { address: PCKTLEN0, value: (len % 256) as u8 });
        match tx_meta_data.destination_address {
            Some(destination) => {
                ops.push(RegOp::Write { address: PCKT_FLT_GOALS3, value: destination });
            },
            None => {},
        }
        assert(ops@ =~= Self::spec_setup_packet_send(tx_meta_data, payload_len, register)->Ok_0);
        Ok(ops)
    }

    fn rx_meta_data(pckt_ctrl_4: u8, rx_addre_field_0: u8) -> (r: BasicRxMetaData) {
        BasicRxMetaData {
            destination_address: if pckt_ctrl_4 / 8 % 2 == 1 {
                Some(rx_addre_field_0)
            } else {
                None
            },
        }
    }
}

} // verus!

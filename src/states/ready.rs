//! The ready state: packet format, CSMA/CA and the start of sends and receptions
use core::marker::PhantomData;
use vstd::prelude::*;

use super::rx::{RxMode, UNSUPPORTED_RX_MODE};
use super::{Ready, Rx, Shutdown, Standby, Tx};
use crate::ll::{
    irq_mask_ops, CcaPeriod, RegOp, ANT_SELECT_CONF, CMD_FLUSH_RX_FIFO, CMD_FLUSH_TX_FIFO, CMD_RX,
    CMD_STANDBY, CMD_TX, CSMA_CONF0, CSMA_CONF1, CSMA_CONF2, CSMA_CONF3, FIFO_CONFIG0,
    FIFO_CONFIG3, IRQ_MASK3, PCKTCTRL1, PCKTCTRL3, PM_CONF1, PROTOCOL1, RSSI_FLT, RSSI_TH,
    RX_IRQ_MASK, TX_IRQ_MASK,
};
use crate::packet_format::{PacketFormat, Uninitialized};
use crate::Error;

verus! {

/// The reset value of the FIFO thresholds (FIFO_CONFIG0 and FIFO_CONFIG3)
pub const FIFO_THRESHOLD_DEFAULT: u8 = 0x30;

/// The RSSI threshold for carrier sense: -85 dBm
pub const RSSI_THRESHOLD: u8 = 65;

/// The CSMA/CA mode used for sending packets
#[derive(Clone, Copy, Debug, PartialEq, Eq)]
pub enum CsmaCaMode {
    /// No Csma is done
    Off,
    /// Csma is done without backoff. The radio will keep scanning the channel until it's free and then send the message.
    /// This is only aborted if the transmission is aborted.
    Persistent {
        /// The length of a cca period
        cca_period: CcaPeriod,
        /// The number of consecutive cca periods that must be free for the channel to be deemed free.
        ///
        /// Range: 1..=15
        num_cca_periods: u8,
    },
    /// Csma is done with backoffs. When a channel is busy, the radio will go to sleep until it will try again.
    ///
    /// Each backoff time is random between 0 and a max value based on the backoff prescaler and the number of backoffs already done.
    /// For each backoff, the maximum value doubles.
    ///
    /// When the number of backoffs reaches the maximum,
    /// the transmission is aborted with a [TxResult::MaxBackoffReached](crate::states::tx::TxResult::MaxBackoffReached).
    Backoff {
        /// The length of a cca period
        cca_period: CcaPeriod,
        /// The number of consecutive cca periods that must be free for the channel to be deemed free.
        ///
        /// Range: 1..=15
        num_cca_periods: u8,
        /// The number of backoffs done before the csma/ca engine gives up and aborts the transmmission.
        ///
        /// Range: 0..=7
        max_backoffs: u8,
        /// The backoff time is based on the RCO clock (32-34.66khz depending on crystal used) divided by the prescaler.
        ///
        /// Range: 2..=64
        backoff_prescaler: u8,
        /// The backoff time is based on a prng. This prng is automatically seeded, unless this custom seed is given.
        custom_prng_seed: Option<u16>,
    },
}

impl CsmaCaMode {
    /// Returns `true` if the csma ca mode is [`Off`].
    ///
    /// [`Off`]: CsmaCaMode::Off
    pub fn is_off(&self) -> (r: bool)
        ensures
            r == (*self is Off),
    {
        match self {
            CsmaCaMode::Off => true,
            _ => false,
        }
    }

    /// Returns `true` if the csma ca mode is [`Persistent`].
    ///
    /// [`Persistent`]: CsmaCaMode::Persistent
    pub fn is_persistent(&self) -> (r: bool)
        ensures
            r == (*self is Persistent),
    {
        match self {
            CsmaCaMode::Persistent { .. } => true,
            _ => false,
        }
    }

    /// Whether the mode's values lie in their documented ranges
    pub fn is_valid(&self) -> (r: bool)
        ensures
            r == self.valid(),
    {
        match self {
            CsmaCaMode::Off => true,
            CsmaCaMode::Persistent { num_cca_periods, .. } => 1 <= *num_cca_periods && *num_cca_periods <= 15,
            CsmaCaMode::Backoff { num_cca_periods, max_backoffs, backoff_prescaler, .. } => 1
                <= *num_cca_periods && *num_cca_periods <= 15 && 2 <= *backoff_prescaler
                && *backoff_prescaler <= 64 && *max_backoffs <= 7,
        }
    }

    /// Whether the mode's values lie in their documented ranges
    pub open spec fn valid(self) -> bool {
        match self {
            CsmaCaMode::Off => true,
            CsmaCaMode::Persistent { num_cca_periods, .. } => 1 <= num_cca_periods <= 15,
            CsmaCaMode::Backoff { num_cca_periods, max_backoffs, backoff_prescaler, .. } => 1
                <= num_cca_periods <= 15 && 2 <= backoff_prescaler <= 64 && max_backoffs <= 7,
        }
    }

    /// The register operations that set the mode up: CCA length and maximum backoffs
    /// (CSMA_CONF0), CCA period and backoff prescaler (CSMA_CONF1), the low 15 bits of the
    /// seed if one is given (CSMA_CONF3..2; a seed whose low 15 bits are 0 is written as 1, as
    /// the register may not hold 0), and the CSMA, persistent and seed reload enables of PROTOCOL1
    pub open spec fn spec_ops(self) -> Seq<RegOp> {
        match self {
            CsmaCaMode::Off => seq![RegOp::Modify { address: PROTOCOL1, mask: 0x0E, value: 0 }],
            CsmaCaMode::Persistent { cca_period, num_cca_periods } => seq![
                RegOp::Write { address: CSMA_CONF0, value: (num_cca_periods * 16 + 1) as u8 },
                RegOp::Write { address: CSMA_CONF1, value: cca_period.spec_code() },
                RegOp::Modify { address: PROTOCOL1, mask: 0x0E, value: 0x06 },
            ],
            CsmaCaMode::Backoff {
                cca_period,
                num_cca_periods,
                max_backoffs,
                backoff_prescaler,
                custom_prng_seed,
            } => seq![
                RegOp::Write { address: CSMA_CONF0, value: (num_cca_periods * 16 + max_backoffs) as u8 },
                RegOp::Write {
                    address: CSMA_CONF1,
                    value: ((backoff_prescaler - 1) * 4 + cca_period.spec_code()) as u8,
                },
            ] + match custom_prng_seed {
                Some(seed) => {
                    let seed = if seed % 0x8000 == 0 {
                        1
                    } else {
                        seed
                    };
                    seq![
                        RegOp::Write { address: CSMA_CONF3, value: (seed / 256 % 128) as u8 },
                        RegOp::Write { address: CSMA_CONF2, value: (seed % 256) as u8 },
                    ]
                },
                None => Seq::empty(),
            } + seq![
                RegOp::Modify {
                    address: PROTOCOL1,
                    mask: 0x0E,
                    value: if custom_prng_seed is Some {
                        0x0C
                    } else {
                        0x04
                    },
                },
            ],
        }
    }
}

/// The register operations every format gets after its own: normal RX mode without byte
/// swaps, whitening on with FEC and the second sync word off, the FIFO thresholds at their
/// defaults, the SMPS level mode, static carrier sense with RSSI filter gain 14, and the RSSI
/// threshold
pub open spec fn spec_format_common_ops() -> Seq<RegOp> {
    seq![
        RegOp::Modify { address: PCKTCTRL3, mask: 0x3C, value: 0 },
        RegOp::Modify { address: PCKTCTRL1, mask: 0x1F, value: 0x10 },
        RegOp::Write { address: FIFO_CONFIG0, value: FIFO_THRESHOLD_DEFAULT },
        RegOp::Write { address: FIFO_CONFIG3, value: FIFO_THRESHOLD_DEFAULT },
        RegOp::Modify { address: PM_CONF1, mask: 0x08, value: 0x08 },
        RegOp::Modify { address: RSSI_FLT, mask: 0xFC, value: 0xE0 },
        RegOp::Write { address: RSSI_TH, value: RSSI_THRESHOLD },
    ]
}

/// The writes of a 32-bit interrupt mask to IRQ_MASK3..0
pub open spec fn spec_irq_mask_ops(mask: u32) -> Seq<RegOp> {
    seq![
        RegOp::Write { address: IRQ_MASK3, value: (mask / 0x100_0000) as u8 },
        RegOp::Write { address: (IRQ_MASK3 + 1) as u8, value: (mask / 0x1_0000 % 0x100) as u8 },
        RegOp::Write { address: (IRQ_MASK3 + 2) as u8, value: (mask / 0x100 % 0x100) as u8 },
        RegOp::Write { address: (IRQ_MASK3 + 3) as u8, value: (mask % 0x100) as u8 },
    ]
}

/// The register operations that prepare a send after the format's own: carrier sense
/// blanking off (CSMA/CA needs it), the TX FIFO flushed, the interrupt status cleared and the
/// TX interrupts unmasked
pub open spec fn spec_send_common_ops() -> Seq<RegOp> {
    seq![
        RegOp::Modify { address: ANT_SELECT_CONF, mask: 0x10, value: 0 },
        RegOp::Command { command: CMD_FLUSH_TX_FIFO },
        RegOp::ClearIrqStatus,
    ] + spec_irq_mask_ops(TX_IRQ_MASK)
}

/// The register operations that start a reception after the RX mode's own: carrier sense
/// blanking on, the RX FIFO flushed, the interrupt status cleared, the RX interrupts unmasked
/// and the RX command
pub open spec fn spec_receive_common_ops() -> Seq<RegOp> {
    seq![
        RegOp::Modify { address: ANT_SELECT_CONF, mask: 0x10, value: 0x10 },
        RegOp::Command { command: CMD_FLUSH_RX_FIFO },
        RegOp::ClearIrqStatus,
    ] + spec_irq_mask_ops(RX_IRQ_MASK) + seq![RegOp::Command { command: CMD_RX }]
}

fn push_irq_mask_ops(ops: &mut Vec<RegOp>, mask: u32)
    ensures
        final(ops)@ == old(ops)@ + spec_irq_mask_ops(mask),
{
    let m = irq_mask_ops(mask);
    ops.push(m[0]);
    ops.push(m[1]);
    ops.push(m[2]);
    ops.push(m[3]);
    assert(final(ops)@ =~= old(ops)@ + spec_irq_mask_ops(mask));
}

/// The command that starts a transmission, given once the FIFO holds the start of the payload
pub fn tx_start_op() -> (r: RegOp)
    ensures
        r == (RegOp::Command { command: CMD_TX }),
{
    RegOp::Command { command: CMD_TX }
}

impl<PF> Ready<PF> {
    /// Set the CSMA/CA mode used for sending packets.
    pub fn set_csma_ca(&self, mode: CsmaCaMode) -> (r: Vec<RegOp>)
        requires
            mode.valid(),
        ensures
            r@ == mode.spec_ops(),
    {
        let mut ops: Vec<RegOp> = Vec::new();
        match mode {
            CsmaCaMode::Off => {},
            CsmaCaMode::Persistent { cca_period, num_cca_periods } => {
                ops.push(RegOp::Write { address: CSMA_CONF0, value: num_cca_periods * 16 + 1 });
                ops.push(RegOp::Write { address: CSMA_CONF1, value: cca_period.code() });
            },
            CsmaCaMode::Backoff {
                cca_period,
                num_cca_periods,
                max_backoffs,
                backoff_prescaler,
                custom_prng_seed,
            } => {
                ops.push(
                    RegOp::Write { address: CSMA_CONF0, value: num_cca_periods * 16 + max_backoffs },
                );
                ops.push(
                    RegOp::Write {
                        address: CSMA_CONF1,
                        value: (backoff_prescaler - 1) * 4 + cca_period.code(),
                    },
                );
                match custom_prng_seed {
                    Some(seed) => {
                        // The seed may not be 0
                        let seed = if seed % 0x8000 == 0 { 1 } else { seed };
                        ops.push(RegOp::Write { address: CSMA_CONF3, value: (seed / 256 % 128) as u8 });
                        ops.push(RegOp::Write { address: CSMA_CONF2, value: (seed % 256) as u8 });
                    },
                    None => {},
                }
            },
        }
        let seed_reload: u8 = match mode {
            CsmaCaMode::Backoff { custom_prng_seed: Some(_), .. } => 0x08,
            _ => 0,
        };
        let csma_on: u8 = if mode.is_off() { 0 } else { 0x04 };
        let persistent: u8 = if mode.is_persistent() { 0x02 } else { 0 };
        ops.push(RegOp::Modify { address: PROTOCOL1, mask: 0x0E, value: seed_reload + csma_on + persistent });
        assert(ops@ =~= mode.spec_ops());
        ops
    }

    /// Put the radio in shutdown mode using the shutdown pin, which the caller sets high.
    /// This is the lowest possible power state.
    ///
    /// The radio can be booted again by going through the init procedure.
    /// This is necessary because the radio 'forgets' everything in shutdown mode.
    pub fn shutdown(self) -> (r: Shutdown) {
        Shutdown
    }

    /// Put the radio in standby mode: dispatch the STANDBY command. The radio won't do
    /// anything, but it saves a lot of power.
    ///
    /// The radio can be woken up again into the Ready state.
    pub fn standby(self) -> (r: (Standby<PF>, RegOp))
        ensures
            r.0.spec_digital_frequency() == self.spec_digital_frequency(),
            r.1 == (RegOp::Command { command: CMD_STANDBY }),
    {
        (Standby { digital_frequency: self.digital_frequency, _p: PhantomData }, RegOp::Command { command: CMD_STANDBY })
    }
}

impl Ready<Uninitialized> {
    /// Configure the packet format the radio is going to use.
    ///
    /// The format itself is given as a generic type.
    /// The config parameters are given through a struct as a parameter of the function.
    /// The type of the config struct depends on the used packet format. A configuration the
    /// format cannot use gives the format's error, and no register is written.
    pub fn set_format<Format: PacketFormat, S, D, G>(self, format_config: &Format::Config) -> (r:
        Result<(Ready<Format>, Vec<RegOp>), Error<S, D, G>>)
        ensures
            r is Err <==> !Format::spec_config_ok(format_config),
            match r {
                Ok((ready, ops)) => ready.spec_digital_frequency() == self.spec_digital_frequency()
                    && ops@ == Format::spec_config_ops(format_config) + spec_format_common_ops(),
                Err(e) => e == Format::spec_config_error(format_config).spec_into_error::<
                    S,
                    D,
                    G,
                >(),
            },
    {
        let mut ops = match Format::use_config(format_config) {
            Ok(ops) => ops,
            Err(e) => {
                return Err(e.into_error());
            },
        };
        ops.push(RegOp::Modify { address: PCKTCTRL3, mask: 0x3C, value: 0 });
        ops.push(RegOp::Modify { address: PCKTCTRL1, mask: 0x1F, value: 0x10 });
        ops.push(RegOp::Write { address: FIFO_CONFIG0, value: FIFO_THRESHOLD_DEFAULT });
        ops.push(RegOp::Write { address: FIFO_CONFIG3, value: FIFO_THRESHOLD_DEFAULT });
        ops.push(RegOp::Modify { address: PM_CONF1, mask: 0x08, value: 0x08 });
        ops.push(RegOp::Modify { address: RSSI_FLT, mask: 0xFC, value: 0xE0 });
        ops.push(RegOp::Write { address: RSSI_TH, value: RSSI_THRESHOLD });
        assert(ops@ =~= Format::spec_config_ops(format_config) + spec_format_common_ops());
        Ok((Ready::new(self.digital_frequency), ops))
    }
}

impl<Format: PacketFormat> Ready<Format> {
    /// Start a transmission and send a packet.
    ///
    /// `format_register` is the value of the format's send register
    /// ([PacketFormat::send_register]). When the format accepts the send, the caller
    /// performs the returned operations, writes [Tx::remaining] into the FIFO, hands the
    /// number of bytes written to [Tx::advance] and dispatches [tx_start_op]. When it does
    /// not, nothing is written.
    pub fn send_packet<'b, S, D, G>(
        self,
        tx_meta_data: &Format::TxMetaData,
        payload: &'b [u8],
        format_register: u8,
    ) -> (r: Result<(Tx<'b, Format>, Vec<RegOp>), Error<S, D, G>>)
        ensures
            match Format::spec_setup_packet_send(tx_meta_data, payload@.len() as usize, format_register) {
                Err(e) => r == Err::<(Tx<'b, Format>, Vec<RegOp>), Error<S, D, G>>(
                    e.spec_into_error(),
                ),
                Ok(ops) => r matches Ok((tx, r_ops)) && r_ops@ == ops + spec_send_common_ops()
                    && tx.spec_remaining() == payload@ && !tx.spec_done()
                    && tx.spec_digital_frequency() == self.spec_digital_frequency(),
            },
    {
        let mut ops = match Format::setup_packet_send(tx_meta_data, payload.len(), format_register) {
            Ok(ops) => ops,
            Err(e) => {
                return Err(e.into_error());
            },
        };
        let ghost format_ops = ops@;
        ops.push(RegOp::Modify { address: ANT_SELECT_CONF, mask: 0x10, value: 0 });
        ops.push(RegOp::Command { command: CMD_FLUSH_TX_FIFO });
        ops.push(RegOp::ClearIrqStatus);
        push_irq_mask_ops(&mut ops, TX_IRQ_MASK);
        assert(ops@ =~= format_ops + spec_send_common_ops());
        Ok((Tx::new(self.digital_frequency, payload), ops))
    }

    /// Start the reception to try and receive a packet into the buffer. Only the normal
    /// receive mode is supported; another gives `BadConfig` and no register is written.
    pub fn start_receive<S, D, G>(self, buffer: Vec<u8>, mode: RxMode) -> (r: Result<
        (Rx<Format>, Vec<RegOp>),
        Error<S, D, G>,
    >)
        ensures
            match r {
                Ok((rx, ops)) => mode is Normal && ops@ == mode.spec_ops(
                    self.spec_digital_frequency(),
                ) + spec_receive_common_ops() && rx.wf() && rx.spec_buffer() == buffer@
                    && rx.spec_written() == 0 && !rx.spec_done() && rx.spec_digital_frequency()
                    == self.spec_digital_frequency(),
                Err(e) => !(mode is Normal) && e == Error::<S, D, G>::BadConfig {
                    reason: UNSUPPORTED_RX_MODE,
                },
            },
    {
        let mode_ops = mode.write_ops(self.digital_frequency)?;
        let mut ops: Vec<RegOp> = Vec::new();
        ops.push(mode_ops[0]);
        ops.push(mode_ops[1]);
        ops.push(mode_ops[2]);
        ops.push(mode_ops[3]);
        ops.push(RegOp::Modify { address: ANT_SELECT_CONF, mask: 0x10, value: 0x10 });
        ops.push(RegOp::Command { command: CMD_FLUSH_RX_FIFO });
        ops.push(RegOp::ClearIrqStatus);
        push_irq_mask_ops(&mut ops, RX_IRQ_MASK);
        ops.push(RegOp::Command { command: CMD_RX });
        assert(ops@ =~= mode_ops@ + spec_receive_common_ops());
        Ok((Rx::new(self.digital_frequency, buffer), ops))
    }
}

} // verus!

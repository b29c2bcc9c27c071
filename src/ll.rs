//! Low level register definitions and the byte-level register protocol.
//!
//! Register access goes over SPI: a transaction starts with a header of two bytes, the
//! operation (`0x00` write, `0x01` read, `0x80` command) and the register address or
//! command code, followed by the data for reads and writes.
use vstd::prelude::*;

verus! {

/// Header byte that starts a register write
pub const WRITE_OP: u8 = 0b0000_0000;

/// Header byte that starts a register read
pub const READ_OP: u8 = 0b0000_0001;

/// Header byte that dispatches a command
pub const COMMAND_OP: u8 = 0b1000_0000;

// Register addresses
pub const GPIO0_CONF: u8 = 0x00;
pub const SYNT3: u8 = 0x05;
pub const SYNT2: u8 = 0x06;
pub const SYNT1: u8 = 0x07;
pub const SYNT0: u8 = 0x08;
pub const IF_OFFSET_ANA: u8 = 0x09;
pub const IF_OFFSET_DIG: u8 = 0x0A;
pub const MOD4: u8 = 0x0E;
pub const MOD3: u8 = 0x0F;
pub const MOD2: u8 = 0x10;
pub const MOD1: u8 = 0x11;
pub const MOD0: u8 = 0x12;
pub const CH_FLT: u8 = 0x13;
pub const AFC2: u8 = 0x14;
pub const RSSI_FLT: u8 = 0x17;
pub const RSSI_TH: u8 = 0x18;
pub const ANT_SELECT_CONF: u8 = 0x1F;
pub const PCKTCTRL6: u8 = 0x2B;
pub const PCKTCTRL5: u8 = 0x2C;
pub const PCKTCTRL4: u8 = 0x2D;
pub const PCKTCTRL3: u8 = 0x2E;
pub const PCKTCTRL2: u8 = 0x2F;
pub const PCKTCTRL1: u8 = 0x30;
pub const PCKTLEN1: u8 = 0x31;
pub const PCKTLEN0: u8 = 0x32;
pub const SYNC3: u8 = 0x33;
pub const SYNC2: u8 = 0x34;
pub const SYNC1: u8 = 0x35;
pub const SYNC0: u8 = 0x36;
pub const PCKT_PSTMBL: u8 = 0x38;
pub const PROTOCOL2: u8 = 0x39;
pub const PROTOCOL1: u8 = 0x3A;
pub const FIFO_CONFIG3: u8 = 0x3C;
pub const FIFO_CONFIG0: u8 = 0x3F;
pub const PCKT_FLT_OPTIONS: u8 = 0x40;
pub const PCKT_FLT_GOALS3: u8 = 0x42;
pub const PCKT_FLT_GOALS2: u8 = 0x43;
pub const PCKT_FLT_GOALS1: u8 = 0x44;
pub const PCKT_FLT_GOALS0: u8 = 0x45;
pub const TIMERS5: u8 = 0x46;
pub const TIMERS4: u8 = 0x47;
pub const CSMA_CONF3: u8 = 0x4C;
pub const CSMA_CONF2: u8 = 0x4D;
pub const CSMA_CONF1: u8 = 0x4E;
pub const CSMA_CONF0: u8 = 0x4F;
pub const IRQ_MASK3: u8 = 0x50;
pub const PA_POWER0: u8 = 0x62;
pub const PA_CONFIG1: u8 = 0x63;
pub const PA_CONFIG0: u8 = 0x64;
pub const SYNTH_CONFIG2: u8 = 0x65;
pub const XO_RCO_CONF1: u8 = 0x6C;
pub const XO_RCO_CONF0: u8 = 0x6D;
pub const PM_CONF1: u8 = 0x78;
pub const PM_CONF0: u8 = 0x79;
pub const MC_STATE1: u8 = 0x8D;
pub const MC_STATE0: u8 = 0x8E;
pub const TX_FIFO_STATUS: u8 = 0x8F;
pub const RX_FIFO_STATUS: u8 = 0x90;
pub const RSSI_LEVEL: u8 = 0xA2;
pub const RX_ADDRE_FIELD0: u8 = 0xAB;
pub const DEVICE_INFO1: u8 = 0xF0;
pub const DEVICE_INFO0: u8 = 0xF1;
pub const IRQ_STATUS3: u8 = 0xFA;
/// The FIFO is accessed at this address
pub const FIFO: u8 = 0xFF;

// Command codes
pub const CMD_TX: u8 = 0x60;
pub const CMD_RX: u8 = 0x61;
pub const CMD_READY: u8 = 0x62;
pub const CMD_STANDBY: u8 = 0x63;
pub const CMD_SABORT: u8 = 0x67;
pub const CMD_FLUSH_RX_FIFO: u8 = 0x71;
pub const CMD_FLUSH_TX_FIFO: u8 = 0x72;

/// The value of DEVICE_INFO0 (the chip version) of an S2-LP
pub const CHIP_VERSION: u8 = 0xC1;

/// The size of each FIFO in bytes
pub const FIFO_SIZE: u8 = 128;

/// The header of a register write
pub fn write_header(address: u8) -> (r: [u8; 2])
    ensures
        r@ == seq![WRITE_OP, address],
{
    let r = [WRITE_OP, address];
    assert(r@ =~= seq![WRITE_OP, address]);
    r
}

/// The header of a register read
pub fn read_header(address: u8) -> (r: [u8; 2])
    ensures
        r@ == seq![READ_OP, address],
{
    let r = [READ_OP, address];
    assert(r@ =~= seq![READ_OP, address]);
    r
}

/// The header of a command; a command has no data after it
pub fn command_header(command: u8) -> (r: [u8; 2])
    ensures
        r@ == seq![COMMAND_OP, command],
{
    let r = [COMMAND_OP, command];
    assert(r@ =~= seq![COMMAND_OP, command]);
    r
}

/// The free space in the TX FIFO given its fill level (NELEM_TXFIFO)
pub fn tx_fifo_free_space(n_elem_txfifo: u8) -> (r: u8)
    ensures
        r == if n_elem_txfifo >= FIFO_SIZE {
            0
        } else {
            FIFO_SIZE - n_elem_txfifo
        },
{
    if n_elem_txfifo >= FIFO_SIZE {
        0
    } else {
        FIFO_SIZE - n_elem_txfifo
    }
}

/// How many bytes one FIFO transfer moves: what the buffer holds or has room for, at most
/// what the FIFO has room for or holds
pub fn fifo_transfer_len(buffer_len: usize, fifo_available: u8) -> (r: usize)
    ensures
        r == if buffer_len <= fifo_available {
            buffer_len
        } else {
            fifo_available as usize
        },
{
    if buffer_len <= fifo_available as usize {
        buffer_len
    } else {
        fifo_available as usize
    }
}

/// One register operation that the caller performs on the chip
#[derive(Debug, Clone, Copy, PartialEq, Eq)]
pub enum RegOp {
    /// Write a register
    Write { address: u8, value: u8 },
    /// Read a register, keep the bits outside `mask`, set those inside it from `value`, and
    /// write it back
    Modify { address: u8, mask: u8, value: u8 },
    /// Dispatch a command
    Command { command: u8 },
    /// Read the four interrupt status registers, which clears them
    ClearIrqStatus,
}

impl RegOp {
    /// The new value of a register that this operation modifies from `old`
    pub open spec fn spec_apply(self, old: u8) -> u8 {
        match self {
            RegOp::Write { value, .. } => value,
            RegOp::Modify { mask, value, .. } => (old & !mask) | (value & mask),
            _ => old,
        }
    }

    /// The new value of a register that this operation modifies from `old`
    pub fn apply(&self, old: u8) -> (r: u8)
        ensures
            r == self.spec_apply(old),
    {
        match self {
            RegOp::Write { value, .. } => *value,
            RegOp::Modify { mask, value, .. } => (old & !*mask) | (*value & *mask),
            _ => old,
        }
    }
}

/// The channel filter register (CHFLT) fields
#[derive(Debug, Clone, Copy, PartialEq, Eq)]
pub struct ChFlt {
    /// The exponent, 0 to 9
    pub ch_flt_e: u8,
    /// The mantissa, 0 to 8
    pub ch_flt_m: u8,
}



/// The modulation scheme (MOD_TYPE field of MOD2)
#[derive(Debug, Clone, Copy, PartialEq, Eq)]
pub enum ModulationType {
    /// 2-FSK
    Fsk2,
    /// 4-FSK
    Fsk4,
    /// 2-GFSK with BT = 1
    Gfsk2Bt1,
    /// 4-GFSK with BT = 1
    Gfsk4Bt1,
    /// ASK/OOK
    AskOok,
    /// Polar mode
    Polar,
    /// Unmodulated carrier
    Cw,
    /// 2-GFSK with BT = 0.5
    Gfsk2Bt05,
    /// 4-GFSK with BT = 0.5
    Gfsk4Bt05,
}

impl ModulationType {
    pub open spec fn spec_code(self) -> u8 {
        match self {
            ModulationType::Fsk2 => 0,
            ModulationType::Fsk4 => 1,
            ModulationType::Gfsk2Bt1 => 2,
            ModulationType::Gfsk4Bt1 => 3,
            ModulationType::AskOok => 5,
            ModulationType::Polar => 6,
            ModulationType::Cw => 7,
            ModulationType::Gfsk2Bt05 => 10,
            ModulationType::Gfsk4Bt05 => 11,
        }
    }

    /// The MOD_TYPE field value
    pub fn code(&self) -> (r: u8)
        ensures
            r == self.spec_code(),
            r < 16,
    {
        match self {
            ModulationType::Fsk2 => 0,
            ModulationType::Fsk4 => 1,
            ModulationType::Gfsk2Bt1 => 2,
            ModulationType::Gfsk4Bt1 => 3,
            ModulationType::AskOok => 5,
            ModulationType::Polar => 6,
            ModulationType::Cw => 7,
            ModulationType::Gfsk2Bt05 => 10,
            ModulationType::Gfsk4Bt05 => 11,
        }
    }
}

/// The PA bessel filter bandwidth (PA_FC field of PA_CONFIG0)
#[derive(Debug, Clone, Copy, PartialEq, Eq)]
pub enum PaFc {
    Khz12P5,
    Khz25,
    Khz50,
    Khz100,
}

impl PaFc {
    pub open spec fn spec_code(self) -> u8 {
        match self {
            PaFc::Khz12P5 => 0,
            PaFc::Khz25 => 1,
            PaFc::Khz50 => 2,
            PaFc::Khz100 => 3,
        }
    }

    /// The PA_FC field value
    pub fn code(&self) -> (r: u8)
        ensures
            r == self.spec_code(),
    {
        match self {
            PaFc::Khz12P5 => 0,
            PaFc::Khz25 => 1,
            PaFc::Khz50 => 2,
            PaFc::Khz100 => 3,
        }
    }
}

/// The interrupt flags of IRQ_STATUS3..0 and IRQ_MASK3..0, as one 32-bit word
#[derive(Debug, Clone, Copy, PartialEq, Eq)]
pub struct IrqStatus {
    /// A packet was received
    pub rx_data_ready: bool,
    /// A received packet was discarded by the filters
    pub rx_data_disc: bool,
    /// A packet was sent
    pub tx_data_sent: bool,
    /// The maximum number of retransmissions was reached
    pub max_re_tx_reach: bool,
    /// A packet with a bad CRC was received
    pub crc_error: bool,
    /// The TX FIFO under- or overflowed
    pub tx_fifo_error: bool,
    /// The RX FIFO under- or overflowed
    pub rx_fifo_error: bool,
    /// The TX FIFO is almost full
    pub tx_fifo_almost_full: bool,
    /// The TX FIFO is almost empty
    pub tx_fifo_almost_empty: bool,
    /// The RX FIFO is almost full
    pub rx_fifo_almost_full: bool,
    /// The RX FIFO is almost empty
    pub rx_fifo_almost_empty: bool,
    /// The CSMA/CA engine reached its maximum number of backoffs
    pub max_bo_cca_reach: bool,
    /// The RX timer expired
    pub rx_timeout: bool,
    /// The RX sniff timer expired
    pub rx_sniff_timeout: bool,
}

impl IrqStatus {
    /// Whether these flags are the ones the word holds
    pub open spec fn decodes(self, bits: u32) -> bool {
        &&& self.rx_data_ready == (bits & 0x1 != 0)
        &&& self.rx_data_disc == (bits & 0x2 != 0)
        &&& self.tx_data_sent == (bits & 0x4 != 0)
        &&& self.max_re_tx_reach == (bits & 0x8 != 0)
        &&& self.crc_error == (bits & 0x10 != 0)
        &&& self.tx_fifo_error == (bits & 0x20 != 0)
        &&& self.rx_fifo_error == (bits & 0x40 != 0)
        &&& self.tx_fifo_almost_full == (bits & 0x80 != 0)
        &&& self.tx_fifo_almost_empty == (bits & 0x100 != 0)
        &&& self.rx_fifo_almost_full == (bits & 0x200 != 0)
        &&& self.rx_fifo_almost_empty == (bits & 0x400 != 0)
        &&& self.max_bo_cca_reach == (bits & 0x800 != 0)
        &&& self.rx_timeout == (bits & 0x10000000 != 0)
        &&& self.rx_sniff_timeout == (bits & 0x20000000 != 0)
    }

    /// The flags of a 32-bit word
    pub fn from_bits(bits: u32) -> (r: IrqStatus)
        ensures
            r.decodes(bits),
    {
        IrqStatus {
            rx_data_ready: bits & 0x1 != 0,
            rx_data_disc: bits & 0x2 != 0,
            tx_data_sent: bits & 0x4 != 0,
            max_re_tx_reach: bits & 0x8 != 0,
            crc_error: bits & 0x10 != 0,
            tx_fifo_error: bits & 0x20 != 0,
            rx_fifo_error: bits & 0x40 != 0,
            tx_fifo_almost_full: bits & 0x80 != 0,
            tx_fifo_almost_empty: bits & 0x100 != 0,
            rx_fifo_almost_full: bits & 0x200 != 0,
            rx_fifo_almost_empty: bits & 0x400 != 0,
            max_bo_cca_reach: bits & 0x800 != 0,
            rx_timeout: bits & 0x10000000 != 0,
            rx_sniff_timeout: bits & 0x20000000 != 0,
        }
    }

    /// The flags of the four status registers, IRQ_STATUS3 first
    pub fn from_registers(bytes: [u8; 4]) -> (r: IrqStatus)
        ensures
            r.decodes(be_word(bytes@)),
    {
        let bits = (bytes[0] as u32) * 0x100_0000 + (bytes[1] as u32) * 0x1_0000 + (bytes[2] as u32)
            * 0x100 + bytes[3] as u32;
        IrqStatus::from_bits(bits)
    }
}

/// A big-endian word of four bytes
pub open spec fn be_word(bytes: Seq<u8>) -> u32 {
    (bytes[0] * 0x100_0000 + bytes[1] * 0x1_0000 + bytes[2] * 0x100 + bytes[3]) as u32
}

/// The interrupts a transmission listens to: TX FIFO almost empty, data sent, maximum
/// retransmissions, TX FIFO error and maximum CSMA/CA backoffs
pub const TX_IRQ_MASK: u32 = 0x0000_092C;

/// The interrupts a reception listens to: data ready, data discarded, CRC error, RX FIFO
/// error, RX FIFO almost full, RX timeout and RX sniff timeout
pub const RX_IRQ_MASK: u32 = 0x3000_0253;

/// The writes of a 32-bit interrupt mask to IRQ_MASK3..0
pub fn irq_mask_ops(mask: u32) -> (r: [RegOp; 4])
    ensures
        r@ == seq![
            RegOp::Write { address: IRQ_MASK3, value: (mask / 0x100_0000) as u8 },
            RegOp::Write { address: (IRQ_MASK3 + 1) as u8, value: (mask / 0x1_0000 % 0x100) as u8 },
            RegOp::Write { address: (IRQ_MASK3 + 2) as u8, value: (mask / 0x100 % 0x100) as u8 },
            RegOp::Write { address: (IRQ_MASK3 + 3) as u8, value: (mask % 0x100) as u8 },
        ],
{
    let r = [
        RegOp::Write { address: IRQ_MASK3, value: (mask / 0x100_0000) as u8 },
        RegOp::Write { address: IRQ_MASK3 + 1, value: (mask / 0x1_0000 % 0x100) as u8 },
        RegOp::Write { address: IRQ_MASK3 + 2, value: (mask / 0x100 % 0x100) as u8 },
        RegOp::Write { address: IRQ_MASK3 + 3, value: (mask % 0x100) as u8 },
    ];
    assert(r@ =~= seq![
        RegOp::Write { address: IRQ_MASK3, value: (mask / 0x100_0000) as u8 },
        RegOp::Write { address: (IRQ_MASK3 + 1) as u8, value: (mask / 0x1_0000 % 0x100) as u8 },
        RegOp::Write { address: (IRQ_MASK3 + 2) as u8, value: (mask / 0x100 % 0x100) as u8 },
        RegOp::Write { address: (IRQ_MASK3 + 3) as u8, value: (mask % 0x100) as u8 },
    ]);
    r
}

/// The main controller state (STATE field of MC_STATE0)
#[derive(Debug, Clone, Copy, PartialEq, Eq, Structural)]
pub enum State {
    Ready,
    SleepNoFifo,
    Standby,
    Sleep,
    Lockon,
    Rx,
    Lockst,
    Tx,
    SynthSetup,
}

impl State {
    pub open spec fn spec_from_code(code: u8) -> Option<State> {
        match code {
            0x00 => Some(State::Ready),
            0x01 => Some(State::SleepNoFifo),
            0x02 => Some(State::Standby),
            0x03 => Some(State::Sleep),
            0x0C => Some(State::Lockon),
            0x30 => Some(State::Rx),
            0x14 => Some(State::Lockst),
            0x5C => Some(State::Tx),
            0x50 => Some(State::SynthSetup),
            _ => None,
        }
    }

    /// The state a STATE code names, if any
    pub fn from_code(code: u8) -> (r: Option<State>)
        ensures
            r == State::spec_from_code(code),
    {
        match code {
            0x00 => Some(State::Ready),
            0x01 => Some(State::SleepNoFifo),
            0x02 => Some(State::Standby),
            0x03 => Some(State::Sleep),
            0x0C => Some(State::Lockon),
            0x30 => Some(State::Rx),
            0x14 => Some(State::Lockst),
            0x5C => Some(State::Tx),
            0x50 => Some(State::SynthSetup),
            _ => None,
        }
    }

    /// The state an MC_STATE0 register value holds (STATE in bits 7:1), if any
    pub fn from_mc_state_0(value: u8) -> (r: Option<State>)
        ensures
            r == State::spec_from_code(value / 2),
    {
        State::from_code(value / 2)
    }
}

/// The CRC polynomial (CRC_MODE field of PCKTCTRL1)
#[derive(Debug, Clone, Copy, PartialEq, Eq)]
pub enum CrcMode {
    /// No CRC
    NoCrc,
    /// 8 bits, polynomial 0x07
    CrcPoly0X07,
    /// 16 bits, polynomial 0x8005
    CrcPoly0X8005,
    /// 16 bits, polynomial 0x1021
    CrcPoly0X1021,
    /// 24 bits, polynomial 0x864CBF
    CrcPoly0X864Cbf,
    /// 32 bits, polynomial 0x04C011BB7
    CrcPoly0X04C011Bb7,
}

impl CrcMode {
    pub open spec fn spec_code(self) -> u8 {
        match self {
            CrcMode::NoCrc => 0,
            CrcMode::CrcPoly0X07 => 1,
            CrcMode::CrcPoly0X8005 => 2,
            CrcMode::CrcPoly0X1021 => 3,
            CrcMode::CrcPoly0X864Cbf => 4,
            CrcMode::CrcPoly0X04C011Bb7 => 5,
        }
    }

    /// The CRC_MODE field value
    pub fn code(&self) -> (r: u8)
        ensures
            r == self.spec_code(),
    {
        match self {
            CrcMode::NoCrc => 0,
            CrcMode::CrcPoly0X07 => 1,
            CrcMode::CrcPoly0X8005 => 2,
            CrcMode::CrcPoly0X1021 => 3,
            CrcMode::CrcPoly0X864Cbf => 4,
            CrcMode::CrcPoly0X04C011Bb7 => 5,
        }
    }
}

impl CrcMode {
    pub open spec fn spec_num_bytes(self) -> usize {
        match self {
            CrcMode::NoCrc => 0,
            CrcMode::CrcPoly0X07 => 1,
            CrcMode::CrcPoly0X8005 => 2,
            CrcMode::CrcPoly0X1021 => 2,
            CrcMode::CrcPoly0X864Cbf => 3,
            CrcMode::CrcPoly0X04C011Bb7 => 4,
        }
    }

    /// The number of bytes the CRC adds to a packet
    pub fn num_bytes(&self) -> (r: usize)
        ensures
            r == self.spec_num_bytes(),
    {
        match self {
            CrcMode::NoCrc => 0,
            CrcMode::CrcPoly0X07 => 1,
            CrcMode::CrcPoly0X8005 => 2,
            CrcMode::CrcPoly0X1021 => 2,
            CrcMode::CrcPoly0X864Cbf => 3,
            CrcMode::CrcPoly0X04C011Bb7 => 4,
        }
    }

    pub open spec fn spec_from_code(code: u8) -> Option<CrcMode> {
        match code {
            0 => Some(CrcMode::NoCrc),
            1 => Some(CrcMode::CrcPoly0X07),
            2 => Some(CrcMode::CrcPoly0X8005),
            3 => Some(CrcMode::CrcPoly0X1021),
            4 => Some(CrcMode::CrcPoly0X864Cbf),
            5 => Some(CrcMode::CrcPoly0X04C011Bb7),
            _ => None,
        }
    }

    /// The CRC mode a CRC_MODE code names, if any
    pub fn from_code(code: u8) -> (r: Option<CrcMode>)
        ensures
            r == CrcMode::spec_from_code(code),
    {
        match code {
            0 => Some(CrcMode::NoCrc),
            1 => Some(CrcMode::CrcPoly0X07),
            2 => Some(CrcMode::CrcPoly0X8005),
            3 => Some(CrcMode::CrcPoly0X1021),
            4 => Some(CrcMode::CrcPoly0X864Cbf),
            5 => Some(CrcMode::CrcPoly0X04C011Bb7),
            _ => None,
        }
    }
}

/// The width of the packet length field (LEN_WID bit of PCKTCTRL4)
#[derive(Debug, Clone, Copy, PartialEq, Eq)]
pub enum LenWid {
    /// One byte: packets of up to 255 bytes
    Bytes1,
    /// Two bytes: packets of up to 65535 bytes
    Bytes2,
}

impl LenWid {
    pub open spec fn spec_code(self) -> u8 {
        match self {
            LenWid::Bytes1 => 0,
            LenWid::Bytes2 => 1,
        }
    }

    /// The LEN_WID field value
    pub fn code(&self) -> (r: u8)
        ensures
            r == self.spec_code(),
    {
        match self {
            LenWid::Bytes1 => 0,
            LenWid::Bytes2 => 1,
        }
    }
}

/// The length of one clear channel assessment period (CCA_PERIOD of CSMA_CONF1)
#[derive(Debug, Clone, Copy, PartialEq, Eq)]
pub enum CcaPeriod {
    /// 64 bit periods
    Bits64,
    /// 128 bit periods
    Bits128,
    /// 256 bit periods
    Bits256,
    /// 512 bit periods
    Bits512,
}

impl CcaPeriod {
    pub open spec fn spec_code(self) -> u8 {
        match self {
            CcaPeriod::Bits64 => 0,
            CcaPeriod::Bits128 => 1,
            CcaPeriod::Bits256 => 2,
            CcaPeriod::Bits512 => 3,
        }
    }

    /// The CCA_PERIOD field value
    pub fn code(&self) -> (r: u8)
        ensures
            r == self.spec_code(),
    {
        match self {
            CcaPeriod::Bits64 => 0,
            CcaPeriod::Bits128 => 1,
            CcaPeriod::Bits256 => 2,
            CcaPeriod::Bits512 => 3,
        }
    }
}

/// The electrical mode of a gpio pin (GPIO_MODE of GPIOx_CONF)
#[derive(Debug, Clone, Copy, PartialEq, Eq)]
pub enum GpioMode {
    /// Analog, floating
    HiZ,
    /// Digital input
    Input,
    /// Digital output, low power
    OutputLowPower,
    /// Digital output, high power
    OutputHighPower,
}

impl GpioMode {
    pub open spec fn spec_code(self) -> u8 {
        match self {
            GpioMode::HiZ => 0,
            GpioMode::Input => 1,
            GpioMode::OutputLowPower => 2,
            GpioMode::OutputHighPower => 3,
        }
    }

    /// The GPIO_MODE field value
    pub fn code(&self) -> (r: u8)
        ensures
            r == self.spec_code(),
    {
        match self {
            GpioMode::HiZ => 0,
            GpioMode::Input => 1,
            GpioMode::OutputLowPower => 2,
            GpioMode::OutputHighPower => 3,
        }
    }
}

/// The signal a gpio output pin carries (GPIO_SELECT of GPIOx_CONF)
#[derive(Debug, Clone, Copy, PartialEq, Eq)]
pub enum GpioSelectOutput {
    /// The interrupt request, active low
    Irq,
    /// The power-on reset, inverted
    Por,
    /// The wake-up timer expired
    WakeUpTimerExpiration,
    /// The battery is low
    LowBatteryDetection,
    /// The TX data clock
    TxDataInternalClock,
    /// The radio is in TX
    TxState,
    /// The TX or RX FIFO is almost empty
    FifoAlmostEmpty,
    /// The TX or RX FIFO is almost full
    FifoAlmostFull,
    /// The RX data
    RxData,
    /// The RX clock
    RxClock,
    /// The radio is in RX
    RxState,
    /// The radio is neither in sleep nor in standby
    NotStandbySleep,
    /// The radio is in standby
    Standby,
    /// The antenna switch signal
    Antenna,
    /// A valid preamble was detected
    ValidPreamble,
    /// The sync word was detected
    SyncWordDetected,
    /// The RSSI is above its threshold
    RssiAboveThreshold,
    /// The radio is in TX or RX
    TxRxMode,
    /// Always high
    Vdd,
    /// Always low
    Gnd,
    /// Enables an external SMPS
    ExternalSmpsEnable,
    /// The radio is in sleep
    Sleep,
    /// The radio is in ready
    Ready,
    /// The radio is in lock
    Lock,
}

impl GpioSelectOutput {
    pub open spec fn spec_code(self) -> u8 {
        match self {
            GpioSelectOutput::Irq => 0,
            GpioSelectOutput::Por => 1,
            GpioSelectOutput::WakeUpTimerExpiration => 2,
            GpioSelectOutput::LowBatteryDetection => 3,
            GpioSelectOutput::TxDataInternalClock => 4,
            GpioSelectOutput::TxState => 5,
            GpioSelectOutput::FifoAlmostEmpty => 6,
            GpioSelectOutput::FifoAlmostFull => 7,
            GpioSelectOutput::RxData => 8,
            GpioSelectOutput::RxClock => 9,
            GpioSelectOutput::RxState => 10,
            GpioSelectOutput::NotStandbySleep => 11,
            GpioSelectOutput::Standby => 12,
            GpioSelectOutput::Antenna => 13,
            GpioSelectOutput::ValidPreamble => 14,
            GpioSelectOutput::SyncWordDetected => 15,
            GpioSelectOutput::RssiAboveThreshold => 16,
            GpioSelectOutput::TxRxMode => 18,
            GpioSelectOutput::Vdd => 19,
            GpioSelectOutput::Gnd => 20,
            GpioSelectOutput::ExternalSmpsEnable => 21,
            GpioSelectOutput::Sleep => 22,
            GpioSelectOutput::Ready => 23,
            GpioSelectOutput::Lock => 24,
        }
    }

    /// The GPIO_SELECT field value
    pub fn code(&self) -> (r: u8)
        ensures
            r == self.spec_code(),
    {
        match self {
            GpioSelectOutput::Irq => 0,
            GpioSelectOutput::Por => 1,
            GpioSelectOutput::WakeUpTimerExpiration => 2,
            GpioSelectOutput::LowBatteryDetection => 3,
            GpioSelectOutput::TxDataInternalClock => 4,
            GpioSelectOutput::TxState => 5,
            GpioSelectOutput::FifoAlmostEmpty => 6,
            GpioSelectOutput::FifoAlmostFull => 7,
            GpioSelectOutput::RxData => 8,
            GpioSelectOutput::RxClock => 9,
            GpioSelectOutput::RxState => 10,
            GpioSelectOutput::NotStandbySleep => 11,
            GpioSelectOutput::Standby => 12,
            GpioSelectOutput::Antenna => 13,
            GpioSelectOutput::ValidPreamble => 14,
            GpioSelectOutput::SyncWordDetected => 15,
            GpioSelectOutput::RssiAboveThreshold => 16,
            GpioSelectOutput::TxRxMode => 18,
            GpioSelectOutput::Vdd => 19,
            GpioSelectOutput::Gnd => 20,
            GpioSelectOutput::ExternalSmpsEnable => 21,
            GpioSelectOutput::Sleep => 22,
            GpioSelectOutput::Ready => 23,
            GpioSelectOutput::Lock => 24,
        }
    }
}

/// The signal a gpio input pin takes (GPIO_SELECT of GPIOx_CONF)
#[derive(Debug, Clone, Copy, PartialEq, Eq)]
pub enum GpioSelectInput {
    /// Starts a transmission
    TxCommand,
    /// Starts a reception
    RxCommand,
    /// Direct TX data
    TxDataInput,
    /// Wakes the radio up
    WakeUp,
    /// An external clock for the low duty cycle timers
    ExternalClock,
}

impl GpioSelectInput {
    pub open spec fn spec_code(self) -> u8 {
        match self {
            GpioSelectInput::TxCommand => 0,
            GpioSelectInput::RxCommand => 1,
            GpioSelectInput::TxDataInput => 2,
            GpioSelectInput::WakeUp => 3,
            GpioSelectInput::ExternalClock => 4,
        }
    }

    /// The GPIO_SELECT field value
    pub fn code(&self) -> (r: u8)
        ensures
            r == self.spec_code(),
    {
        match self {
            GpioSelectInput::TxCommand => 0,
            GpioSelectInput::RxCommand => 1,
            GpioSelectInput::TxDataInput => 2,
            GpioSelectInput::WakeUp => 3,
            GpioSelectInput::ExternalClock => 4,
        }
    }
}

/// The SPI wrapper interface to the chip
#[derive(Debug)]
pub struct DeviceInterface<Spi> {
    pub spi: Spi,
}

impl<Spi> DeviceInterface<Spi> {
    /// Construct a new instance of the interface.
    ///
    /// Spi mode 0, max 8 MHz
    pub fn new(spi: Spi) -> (r: Self)
        ensures
            r.spi == spi,
    {
        DeviceInterface { spi }
    }
}

/// Low level interface error that wraps the SPI error
#[derive(Debug, Clone, Copy, PartialEq, Eq, PartialOrd, Ord)]
pub struct DeviceError<Spi>(pub Spi);


impl<Spi> From<Spi> for DeviceError<Spi> {
    fn from(value: Spi) -> (r: Self)
        ensures
            r.0 == value,
    {
        DeviceError(value)
    }
}

impl<Spi> vstd::std_specs::convert::FromSpecImpl<Spi> for DeviceError<Spi> {
    open spec fn obeys_from_spec() -> bool {
        true
    }

    open spec fn from_spec(v: Spi) -> Self {
        DeviceError(v)
    }
}

} // verus!

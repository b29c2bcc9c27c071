//! Reception: the RX timeout settings and the decisions of the receive protocol
use vstd::prelude::*;

use super::{Ready, Rx};
use crate::Error;
use vstd::arithmetic::div_mod::*;
use crate::ll::{
    IrqStatus, RegOp, CMD_FLUSH_RX_FIFO, CMD_SABORT, PCKT_FLT_OPTIONS, PROTOCOL2, TIMERS4, TIMERS5,
};

verus! {

/// The result of an RX operation. This tells the reason why the operation stopped.
#[derive(Clone, Copy, Debug, PartialEq, Eq)]
pub enum RxResult<MetaData> {
    /// All went fine and the packet is received
    Received {
        /// The size of the received packet in bytes
        packet_size: usize,
        /// The RSSI value in dB
        rssi_value: i16,
        /// Format-specific metadata like addresses
        meta_data: MetaData,
    },
    /// The reception was already done previously
    RxAlreadyDone,
    /// The RX fifo filled up too fast and we couldn't keep up
    Fifo,
    /// While receiving the packet, it got filtered out
    Discarded,
    /// The received packet has a bad CRC
    CrcError,
    /// The received message was bigger than the given buffer
    TooBigForBuffer,
    /// The RX timeout was reached
    Timeout,
}

/// The mode of receiving
#[derive(Debug, Clone, Copy, PartialEq, Eq)]
pub enum RxMode {
    /// Normal, default, receiving where the receiver will just be on
    Normal {
        /// If some, the receiving will stop after the configured time.
        /// If none, the receiver will stay on until a packet has been received or the operation is aborted.
        timeout: Option<RxTimeout>,
    },
    /// Low duty cycle receiving; not supported by the driver yet
    LowDutyCycle { timeout: RxTimeout },
    /// Sniff mode receiving; not supported by the driver yet
    Sniff { timeout: RxTimeout },
}

impl Default for RxMode {
    fn default() -> (r: Self)
        ensures
            r == (RxMode::Normal { timeout: None }),
    {
        RxMode::Normal { timeout: None }
    }
}

/// Reason given for a receive mode the driver does not support yet
pub const UNSUPPORTED_RX_MODE: &'static str = "Receive mode not supported";

impl RxMode {
    /// The register operations that set the normal mode up, for the given digital clock: the
    /// timeout if one is given, else the timer off
    pub open spec fn spec_ops(self, digital_frequency: u32) -> Seq<RegOp> {
        match self {
            RxMode::Normal { timeout: Some(timeout) } => timeout.spec_ops(digital_frequency),
            _ => (RxTimeout { timeout_us: 0, mask: RxTimeoutMask::_NoTimeout }).spec_ops(
                digital_frequency,
            ),
        }
    }

    /// The register operations that set this mode up, for the given digital clock. Only the
    /// normal mode is supported; the low duty cycle and sniff modes give `BadConfig`.
    pub fn write_ops<S, D, G>(&self, digital_frequency: u32) -> (r: Result<[RegOp; 4], Error<S, D, G>>)
        ensures
            match r {
                Ok(ops) => *self is Normal && ops@ == self.spec_ops(digital_frequency),
                Err(e) => !(*self is Normal) && e == Error::<S, D, G>::BadConfig {
                    reason: UNSUPPORTED_RX_MODE,
                },
            },
    {
        match self {
            RxMode::Normal { timeout: Some(timeout) } => Ok(timeout.write_ops(digital_frequency)),
            RxMode::Normal { timeout: None } => Ok(
                RxTimeout { timeout_us: 0, mask: RxTimeoutMask::_NoTimeout }.write_ops(
                    digital_frequency,
                ),
            ),
            _ => Err(Error::BadConfig { reason: UNSUPPORTED_RX_MODE }),
        }
    }
}

/// Timeout settings for the receiver
#[derive(Debug, Clone, Copy, PartialEq, Eq)]
pub struct RxTimeout {
    /// The amount of time after which the RX timer timeout happens
    pub timeout_us: u32,
    /// A mask to prevent the timout from aborting the RX
    pub mask: RxTimeoutMask,
}

impl RxTimeout {
    /// The register operations that program this timeout
    pub open spec fn spec_ops(self, digital_frequency: u32) -> Seq<RegOp> {
        let code = self.mask.spec_code();
        let (prescaler, counter, _) = spec_find_rx_timer_prescaler_and_counter(
            self.timeout_us,
            digital_frequency,
        );
        seq![
            RegOp::Modify {
                address: PCKT_FLT_OPTIONS,
                mask: 0x40,
                value: if code / 8 % 2 == 1 { 0x40 } else { 0 },
            },
            RegOp::Modify {
                address: PROTOCOL2,
                mask: 0xE0,
                value: (code % 8 * 32) as u8,
            },
            RegOp::Write { address: TIMERS5, value: counter },
            RegOp::Write { address: TIMERS4, value: prescaler },
        ]
    }

    /// The register operations that program this timeout: the AND/OR selection
    /// (RX_TIMEOUT_AND_OR_SEL), the CS, SQI and PQI masks, the counter and the prescaler.
    /// A timeout beyond the timer's range gets the largest timer value.
    pub fn write_ops(&self, digital_frequency: u32) -> (r: [RegOp; 4])
        ensures
            r@ == self.spec_ops(digital_frequency),
    {
        let code = self.mask.code();
        let (prescaler, counter, _overflow) = find_rx_timer_prescaler_and_counter(
            self.timeout_us,
            digital_frequency,
        );
        let r = [
            RegOp::Modify {
                address: PCKT_FLT_OPTIONS,
                mask: 0x40,
                value: if code / 8 % 2 == 1 { 0x40 } else { 0 },
            },
            RegOp::Modify { address: PROTOCOL2, mask: 0xE0, value: code % 8 * 32 },
            RegOp::Write { address: TIMERS5, value: counter },
            RegOp::Write { address: TIMERS4, value: prescaler },
        ];
        assert(r@ =~= self.spec_ops(digital_frequency));
        r
    }
}

/// The mask for the RX timer. It can prevent the timer from expiring in situations where it's not desired.
#[derive(Debug, Clone, Copy, PartialEq, Eq)]
pub enum RxTimeoutMask {
    /// Disable the timeout fully. The RX will continue continuesly
    _NoTimeout,
    /// The RX timeout cannot be stopped. It
    /// starts at the RX state and at the end
    /// expires even when a packet is actively
    /// being received
    Unmasked,
    /// RSSI above threshold
    Rssi,
    /// SQI above threshold (default)
    Sqi,
    /// PQI above threshold
    Pqi,
    /// Both RSSI AND SQI above threshold
    RssiAndSqi,
    /// Both RSSI AND PQI above threshold
    RssiAndPqi,
    /// Both SQI AND PQI above threshold
    SqiAndPqi,
    /// ALL above threshold
    All,
    /// RSSI OR SQI above threshold
    RssiOrSqi,
    /// RSSI OR PQI above threshold
    RssiOrPqi,
    /// QI OR PQI above threshold
    SqiOrPqi,
    /// ANY above threshold
    Any,
}

impl Default for RxTimeoutMask {
    fn default() -> (r: Self)
        ensures
            r == RxTimeoutMask::Sqi,
    {
        RxTimeoutMask::Sqi
    }
}

impl RxTimeoutMask {
    /// The mask as four bits: OR selection, RSSI, SQI, PQI
    pub open spec fn spec_code(self) -> u8 {
        match self {
            RxTimeoutMask::_NoTimeout => 0b0000,
            RxTimeoutMask::Unmasked => 0b1000,
            RxTimeoutMask::Rssi => 0b0100,
            RxTimeoutMask::Sqi => 0b0010,
            RxTimeoutMask::Pqi => 0b0001,
            RxTimeoutMask::RssiAndSqi => 0b0110,
            RxTimeoutMask::RssiAndPqi => 0b0101,
            RxTimeoutMask::SqiAndPqi => 0b0011,
            RxTimeoutMask::All => 0b0111,
            RxTimeoutMask::RssiOrSqi => 0b1110,
            RxTimeoutMask::RssiOrPqi => 0b1101,
            RxTimeoutMask::SqiOrPqi => 0b1011,
            RxTimeoutMask::Any => 0b1111,
        }
    }

    /// The mask as four bits: OR selection, RSSI, SQI, PQI
    pub fn code(&self) -> (r: u8)
        ensures
            r == self.spec_code(),
            r < 16,
    {
        match self {
            RxTimeoutMask::_NoTimeout => 0b0000,
            RxTimeoutMask::Unmasked => 0b1000,
            RxTimeoutMask::Rssi => 0b0100,
            RxTimeoutMask::Sqi => 0b0010,
            RxTimeoutMask::Pqi => 0b0001,
            RxTimeoutMask::RssiAndSqi => 0b0110,
            RxTimeoutMask::RssiAndPqi => 0b0101,
            RxTimeoutMask::SqiAndPqi => 0b0011,
            RxTimeoutMask::All => 0b0111,
            RxTimeoutMask::RssiOrSqi => 0b1110,
            RxTimeoutMask::RssiOrPqi => 0b1101,
            RxTimeoutMask::SqiOrPqi => 0b1011,
            RxTimeoutMask::Any => 0b1111,
        }
    }
}

/// `ceil(a / b)`
pub open spec fn ceil_div(a: int, b: int) -> int {
    (a + b - 1) / b
}

/// The scale between microseconds and the timer's clock ticks
pub const RX_TIMER_SCALE: u64 = 1_000_000;

/// The largest counter value
pub const RX_TIMER_MAX_COUNTER: u64 = 255;

/// The RX timer prescaler before the counter check
pub open spec fn rx_timer_first_prescaler(t_scaled: int) -> int {
    let p = ceil_div(t_scaled, RX_TIMER_MAX_COUNTER * RX_TIMER_SCALE) - 1;
    if p < 1 {
        1
    } else {
        p
    }
}

/// The RX timer counter for a prescaler
pub open spec fn rx_timer_counter(t_scaled: int, prescaler: int) -> int {
    ceil_div(t_scaled, (prescaler + 1) * RX_TIMER_SCALE) + 1
}

/// The requested time in the timer's clock units: `time_us * f_dig / 1210`, rounded down,
/// in millionths
pub open spec fn rx_timer_ticks(time_microseconds: u32, digital_frequency: u32) -> int {
    time_microseconds * digital_frequency / 1210
}

/// The prescaler and counter before they are cut to 255: the first prescaler, or the next
/// one where the first one's counter does not fit
pub open spec fn rx_timer_raw(t_scaled: int) -> (int, int) {
    let p0 = rx_timer_first_prescaler(t_scaled);
    if rx_timer_counter(t_scaled, p0) > 255 {
        (p0 + 1, rx_timer_counter(t_scaled, p0 + 1))
    } else {
        (p0, rx_timer_counter(t_scaled, p0))
    }
}

/// The RX timer's prescaler, counter and whether the time was beyond the timer's range.
///
/// The timer runs for `(prescaler + 1) * (counter - 1) * 1210 / f_dig` seconds. Both values
/// are cut to 255.
pub open spec fn spec_find_rx_timer_prescaler_and_counter(
    time_microseconds: u32,
    digital_frequency: u32,
) -> (u8, u8, bool) {
    let (p, c) = rx_timer_raw(rx_timer_ticks(time_microseconds, digital_frequency));
    (
        if p > 255 {
            255u8
        } else {
            p as u8
        },
        if c > 255 {
            255u8
        } else {
            c as u8
        },
        p > 255,
    )
}

/// The prescaler is the smallest (at least 1) whose counter fits, where the first or the
/// next one fits, and the timer then never runs shorter than requested: counted in the
/// timer's clock units, `(p + 1) * (c - 1) * 10^6 >= ticks`.
pub proof fn lemma_rx_timer_fits(t_scaled: int)
    requires
        t_scaled >= 0,
    ensures
        ({
            let (p, c) = rx_timer_raw(t_scaled);
            &&& p >= 1
            &&& forall|q: int| 1 <= q < p ==> #[trigger] rx_timer_counter(t_scaled, q) > 255
            &&& (p + 1) * (c - 1) * RX_TIMER_SCALE >= t_scaled
        }),
{
    let s = RX_TIMER_SCALE as int;
    let m = (RX_TIMER_MAX_COUNTER * RX_TIMER_SCALE) as int;
    let p0 = rx_timer_first_prescaler(t_scaled);
    let ceil0 = ceil_div(t_scaled, m);
    assert forall|q: int| 1 <= q < p0 implies #[trigger] rx_timer_counter(t_scaled, q) > 255 by {
        // q + 1 < ceil(t / (255 * 10^6)), so t > 255 * (q + 1) * 10^6
        lemma_fundamental_div_mod(t_scaled + m - 1, m);
        lemma_mod_bound(t_scaled + m - 1, m);
        assert(ceil0 == p0 + 1);
        assert((q + 2) * m <= t_scaled + m - 1) by (nonlinear_arith)
            requires
                q + 2 <= ceil0, ceil0 == (t_scaled + m - 1) / m, m > 0,
                t_scaled + m - 1 == m * ((t_scaled + m - 1) / m) + (t_scaled + m - 1) % m,
                (t_scaled + m - 1) % m >= 0;
        let d = (q + 1) * s;
        assert(d > 0) by (nonlinear_arith) requires q >= 1, s > 0, d == (q + 1) * s;
        assert(t_scaled + d - 1 >= 256 * d) by (nonlinear_arith)
            requires (q + 2) * m <= t_scaled + m - 1, m == 255 * s, d == (q + 1) * s, s > 0;
        lemma_div_is_ordered(256 * d, t_scaled + d - 1, d);
        lemma_div_multiples_vanish(256, d);
    }
    let (p, c) = rx_timer_raw(t_scaled);
    assert(p >= 1);
    let d = (p + 1) * s;
    assert(d > 0) by (nonlinear_arith) requires p >= 1, s > 0, d == (p + 1) * s;
    lemma_fundamental_div_mod(t_scaled + d - 1, d);
    lemma_mod_bound(t_scaled + d - 1, d);
    assert(c - 1 == ceil_div(t_scaled, d));
    assert((p + 1) * (c - 1) * s >= t_scaled) by (nonlinear_arith)
        requires
            c - 1 == (t_scaled + d - 1) / d, d == (p + 1) * s,
            t_scaled + d - 1 == d * ((t_scaled + d - 1) / d) + (t_scaled + d - 1) % d,
            (t_scaled + d - 1) % d < d;
}

fn div_ceil(a: u64, b: u64) -> (r: u64)
    requires
        b > 0,
        a + b <= u64::MAX,
    ensures
        r == ceil_div(a as int, b as int),
{
    (a + b - 1) / b
}

/// Find the RX timer's prescaler and counter for a timeout, and whether the timeout was
/// beyond the timer's range
pub fn find_rx_timer_prescaler_and_counter(time_microseconds: u32, digital_frequency: u32) -> (r: (
    u8,
    u8,
    bool,
))
    ensures
        r == spec_find_rx_timer_prescaler_and_counter(time_microseconds, digital_frequency),
        ({
            let t = rx_timer_ticks(time_microseconds, digital_frequency);
            let (p, c) = rx_timer_raw(t);
            &&& forall|q: int| 1 <= q < p ==> #[trigger] rx_timer_counter(t, q) > 255
            &&& !r.2 && c <= 255 ==> r.0 == p && r.1 == c && (r.0 + 1) * (r.1 - 1) * RX_TIMER_SCALE
                >= t
        }),
{
    proof {
        lemma_rx_timer_fits(rx_timer_ticks(time_microseconds, digital_frequency));
    }
    assert(time_microseconds * digital_frequency <= 0xffff_ffff * 0xffff_ffff) by (nonlinear_arith)
        requires time_microseconds <= 0xffff_ffff, digital_frequency <= 0xffff_ffff;
    let t_scaled: u64 = time_microseconds as u64 * digital_frequency as u64 / 1210;
    proof {
        let x = time_microseconds * digital_frequency;
        vstd::arithmetic::div_mod::lemma_fundamental_div_mod(x, 1210);
        vstd::arithmetic::div_mod::lemma_mod_bound(x, 1210);
    }
    assert(t_scaled <= 0x40_0000_0000_0000) by (nonlinear_arith)
        requires
            time_microseconds * digital_frequency <= 0xffff_ffff * 0xffff_ffff,
            time_microseconds * digital_frequency == 1210 * t_scaled + (time_microseconds * digital_frequency) % 1210,
            (time_microseconds * digital_frequency) % 1210 >= 0;
    let first = div_ceil(t_scaled, RX_TIMER_MAX_COUNTER * RX_TIMER_SCALE);
    let mut prescaler: u64 = if first < 2 { 1 } else { first - 1 };
    assert(prescaler <= 0x10_0000_0000) by (nonlinear_arith)
        requires
            first == (t_scaled + 255_000_000 - 1) / 255_000_000, t_scaled <= 0x40_0000_0000_0000,
            prescaler <= first || prescaler == 1;
    let mut counter = div_ceil(t_scaled, (prescaler + 1) * RX_TIMER_SCALE) + 1;
    if counter > 255 {
        prescaler = prescaler + 1;
        counter = div_ceil(t_scaled, (prescaler + 1) * RX_TIMER_SCALE) + 1;
    }
    (
        if prescaler > 255 {
            255
        } else {
            prescaler as u8
        },
        if counter > 255 {
            255
        } else {
            counter as u8
        },
        prescaler > 255,
    )
}

/// The offset between the RSSI_LEVEL register and the RSSI in dB
pub const RSSI_OFFSET_DB: i16 = 146;

/// What the caller does after an interrupt of a reception
#[derive(Clone, Copy, Debug, PartialEq, Eq)]
pub enum RxStep<MetaData> {
    /// Abort and flush the RX FIFO ([rx_abort_ops]), then return the result
    AbortAndFlush(RxResult<MetaData>),
    /// Read from the FIFO as many bytes as it holds and [Rx::free_space] allows, hand them to
    /// [Rx::store]; then, if `finish` is set, read RSSI_LEVEL and the format's metadata and
    /// return [Rx::received], else wait again
    Drain { finish: bool },
    /// The interrupt is of no concern to the reception: wait again
    Ignore,
}

impl<MetaData> RxStep<MetaData> {
    /// Whether the wait ends with this step
    pub open spec fn is_terminal(self) -> bool {
        match self {
            RxStep::AbortAndFlush(_) => true,
            RxStep::Drain { finish } => finish,
            RxStep::Ignore => false,
        }
    }
}

/// Whether an interrupt ends the reception without a packet: the buffer is full, or the
/// status shows a FIFO error, a bad CRC or a discarded packet. An RX timeout alone does not
/// end it; it only names the result of a reception that ends.
pub open spec fn rx_stops(irq: IrqStatus, buffer_full: bool) -> bool {
    buffer_full || irq.rx_fifo_error || irq.crc_error || irq.rx_data_disc
}

/// The result of a reception that an interrupt ends, by the first that holds of: buffer
/// full, FIFO error, CRC error, timeout, and otherwise discarded
pub open spec fn rx_stop_result<MetaData>(irq: IrqStatus, buffer_full: bool) -> RxResult<MetaData> {
    if buffer_full {
        RxResult::TooBigForBuffer
    } else if irq.rx_fifo_error {
        RxResult::Fifo
    } else if irq.crc_error {
        RxResult::CrcError
    } else if irq.rx_timeout {
        RxResult::Timeout
    } else {
        RxResult::Discarded
    }
}

/// The step an interrupt status leads to, for a buffer that is full or not: a stop as
/// [rx_stops] and [rx_stop_result] say, else a drain on data ready or FIFO almost full
pub open spec fn spec_rx_step<MetaData>(irq: IrqStatus, buffer_full: bool) -> RxStep<MetaData> {
    if rx_stops(irq, buffer_full) {
        RxStep::AbortAndFlush(rx_stop_result(irq, buffer_full))
    } else if irq.rx_data_ready || irq.rx_fifo_almost_full {
        RxStep::Drain { finish: irq.rx_data_ready }
    } else {
        RxStep::Ignore
    }
}

/// The commands that stop a reception: abort, then flush the RX FIFO
pub fn rx_abort_ops() -> (r: [RegOp; 2])
    ensures
        r@ == seq![RegOp::Command { command: CMD_SABORT }, RegOp::Command { command: CMD_FLUSH_RX_FIFO }],
{
    let r = [RegOp::Command { command: CMD_SABORT }, RegOp::Command { command: CMD_FLUSH_RX_FIFO }];
    assert(r@ =~= seq![RegOp::Command { command: CMD_SABORT }, RegOp::Command { command: CMD_FLUSH_RX_FIFO }]);
    r
}

/// The RSSI in dB for an RSSI_LEVEL register value
pub fn rssi_db(rssi_level: u8) -> (r: i16)
    ensures
        r == rssi_level - RSSI_OFFSET_DB,
{
    rssi_level as i16 - RSSI_OFFSET_DB
}

impl<PF> Rx<PF> {
    /// What the first step of a wait returns
    pub open spec fn spec_wait_result<MetaData>(self) -> Option<RxResult<MetaData>> {
        if self.spec_done() {
            Some(RxResult::RxAlreadyDone)
        } else {
            None
        }
    }

    /// The state after an interrupt: done once the step is terminal, the rest unchanged
    pub closed spec fn spec_after_interrupt(self, irq: IrqStatus) -> Self {
        Rx {
            rx_done: self.rx_done || spec_rx_step::<()>(irq, self.written == self.rx_buffer@.len()).is_terminal(),
            ..self
        }
    }

    /// Whether the received data fills the whole buffer
    pub open spec fn spec_full(self) -> bool {
        self.spec_written() == self.spec_buffer().len()
    }

    /// The first step of a wait: once the reception has reached its result, every wait
    /// returns [RxResult::RxAlreadyDone] at once, without bus access.
    pub fn already_done<MetaData>(&self) -> (r: Option<RxResult<MetaData>>)
        ensures
            r == self.spec_wait_result::<MetaData>(),
    {
        if self.rx_done {
            Some(RxResult::RxAlreadyDone)
        } else {
            None
        }
    }

    /// Decide what an interrupt of a running reception means.
    pub fn handle_interrupt<MetaData>(&mut self, irq: IrqStatus) -> (r: RxStep<MetaData>)
        requires
            old(self).wf(),
            !old(self).spec_done(),
        ensures
            r == spec_rx_step::<MetaData>(irq, old(self).spec_full()),
            *final(self) == old(self).spec_after_interrupt(irq),
            final(self).wf(),
            final(self).spec_done() == r.is_terminal(),
            final(self).spec_buffer() == old(self).spec_buffer(),
            final(self).spec_written() == old(self).spec_written(),
            final(self).spec_digital_frequency() == old(self).spec_digital_frequency(),
    {
        let full = self.written == self.rx_buffer.len();
        let step = if full || irq.rx_fifo_error || irq.crc_error || irq.rx_data_disc {
            let result = if full {
                RxResult::TooBigForBuffer
            } else if irq.rx_fifo_error {
                RxResult::Fifo
            } else if irq.crc_error {
                RxResult::CrcError
            } else if irq.rx_timeout {
                RxResult::Timeout
            } else {
                RxResult::Discarded
            };
            RxStep::AbortAndFlush(result)
        } else if irq.rx_data_ready || irq.rx_fifo_almost_full {
            RxStep::Drain { finish: irq.rx_data_ready }
        } else {
            RxStep::Ignore
        };
        let terminal = match step {
            RxStep::AbortAndFlush(_) => true,
            RxStep::Drain { finish } => finish,
            RxStep::Ignore => false,
        };
        if terminal {
            self.rx_done = true;
        }
        step
    }

    /// How many more bytes the buffer takes
    pub fn free_space(&self) -> (r: usize)
        requires
            self.wf(),
        ensures
            r == self.spec_buffer().len() - self.spec_written(),
    {
        self.rx_buffer.len() - self.written
    }

    /// Store bytes read from the FIFO behind the received data, as many as the buffer takes,
    /// and return how many were stored
    pub fn store(&mut self, bytes: &[u8]) -> (r: usize)
        requires
            old(self).wf(),
        ensures
            final(self).wf(),
            r == if bytes@.len() <= old(self).spec_buffer().len() - old(self).spec_written() {
                bytes@.len() as int
            } else {
                old(self).spec_buffer().len() - old(self).spec_written()
            },
            final(self).spec_written() == old(self).spec_written() + r,
            final(self).spec_buffer() == old(self).spec_buffer().subrange(
                0,
                old(self).spec_written() as int,
            ) + bytes@.subrange(0, r as int) + old(self).spec_buffer().subrange(
                old(self).spec_written() + r,
                old(self).spec_buffer().len() as int,
            ),
            final(self).spec_done() == old(self).spec_done(),
            final(self).spec_digital_frequency() == old(self).spec_digital_frequency(),
    {
        let free = self.rx_buffer.len() - self.written;
        let n = if bytes.len() <= free {
            bytes.len()
        } else {
            free
        };
        let start = self.written;
        let end = start + n;
        let ghost before = self.rx_buffer@;
        let ghost done = self.rx_done;
        let ghost df = self.digital_frequency;
        let mut i: usize = 0;
        while i < n
            invariant
                i <= n,
                end == start + n,
                self.rx_done == done,
                self.digital_frequency == df,
                start + n <= before.len(),
                n <= bytes@.len(),
                self.rx_buffer@.len() == before.len(),
                forall|k: int| 0 <= k < start ==> self.rx_buffer@[k] == before[k],
                forall|k: int| 0 <= k < i ==> self.rx_buffer@[start + k] == bytes@[k],
                forall|k: int| start + i <= k < before.len() ==> self.rx_buffer@[k] == before[k],
            decreases n - i,
        {
            self.rx_buffer.set(start + i, bytes[i]);
            i = i + 1;
        }
        self.written = end;
        assert(self.rx_buffer@ =~= before.subrange(0, start as int) + bytes@.subrange(0, n as int)
            + before.subrange(start + n, before.len() as int));
        n
    }

    /// The result of a completed reception: the packet size is what was received, the RSSI
    /// comes from the RSSI_LEVEL register.
    pub fn received<MetaData>(&self, rssi_level: u8, meta_data: MetaData) -> (r: RxResult<MetaData>)
        ensures
            r == (RxResult::Received {
                packet_size: self.spec_written() as usize,
                rssi_value: (rssi_level - RSSI_OFFSET_DB) as i16,
                meta_data,
            }),
    {
        RxResult::Received { packet_size: self.written, rssi_value: rssi_db(rssi_level), meta_data }
    }

    /// The received data so far
    pub fn data(&self) -> (r: &[u8])
        requires
            self.wf(),
        ensures
            r@ == self.spec_buffer().subrange(0, self.spec_written() as int),
    {
        vstd::slice::slice_subrange(self.rx_buffer.as_slice(), 0, self.written)
    }

    /// Aborts the reception immediately: abort and flush the RX FIFO ([rx_abort_ops]). The
    /// buffer is handed back.
    pub fn abort(self) -> (r: (Ready<PF>, Vec<u8>, [RegOp; 2]))
        ensures
            r.0.spec_digital_frequency() == self.spec_digital_frequency(),
            r.1@ == self.spec_buffer(),
            r.2@ == seq![RegOp::Command { command: CMD_SABORT }, RegOp::Command { command: CMD_FLUSH_RX_FIFO }],
    {
        (Ready::new(self.digital_frequency), self.rx_buffer, rx_abort_ops())
    }

    /// Finish the reception. This only returns ok when the wait has reached its result; the
    /// buffer is handed back. If you need to stop the reception before it's done, call
    /// [Self::abort].
    pub fn finish(self) -> (r: Result<(Ready<PF>, Vec<u8>), Self>)
        ensures
            match r {
                Ok((ready, buffer)) => self.spec_done() && ready.spec_digital_frequency()
                    == self.spec_digital_frequency() && buffer@ == self.spec_buffer(),
                Err(rx) => !self.spec_done() && rx == self,
            },
    {
        if self.rx_done {
            Ok((Ready::new(self.digital_frequency), self.rx_buffer))
        } else {
            Err(self)
        }
    }
}

/// A wait that has ended stays ended: after an interrupt whose step is terminal, the next
/// wait returns [RxResult::RxAlreadyDone] without bus access, and so does the one after any
/// further interrupt.
pub proof fn lemma_rx_wait_idempotent<PF, MetaData>(rx: Rx<PF>, irq: IrqStatus, later: IrqStatus)
    requires
        !rx.spec_done(),
        spec_rx_step::<MetaData>(irq, rx.spec_full()).is_terminal(),
    ensures
        rx.spec_after_interrupt(irq).spec_wait_result::<MetaData>() == Some(
            RxResult::<MetaData>::RxAlreadyDone,
        ),
        rx.spec_after_interrupt(irq).spec_after_interrupt(later).spec_wait_result::<MetaData>()
            == Some(RxResult::<MetaData>::RxAlreadyDone),
{
    assert(rx.spec_after_interrupt(irq).spec_done());
}

} // verus!

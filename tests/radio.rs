use s2lp::ll::{
    ChFlt, CrcMode, IrqStatus, LenWid, ModulationType, RegOp, State, CMD_FLUSH_RX_FIFO,
    CMD_FLUSH_TX_FIFO, CMD_SABORT, PCKTLEN0, PCKTLEN1, PCKT_FLT_GOALS3, SYNC0, SYNC1, SYNC2, SYNC3,
};
use s2lp::packet_format::{
    Basic, BasicConfig, BasicTxMetaData, Ieee802154G, Ieee802154GConfig, Ieee802154GTxMetaData, PacketFilteringOptions,
    PacketFormat, PreamblePattern,
};
use s2lp::states::rx::{RxMode, RxResult, RxStep, RxTimeout, RxTimeoutMask};
use s2lp::states::shutdown::{
    check_chip_version, clock_divider_toggle, digital_frequency, fit_rf_settings, validate_config,
    Config,
};
use s2lp::states::tx::{check_tx_timeout_state, TxResult, TxStep};
use s2lp::states::{Ready, Shutdown};
use s2lp::states::shutdown::{
    boot_wait, fifo_retention_op, irq_pin_op, pd_clkdiv_bit, pd_clkdiv_op, rco_calibration_op,
    rco_calibration_status, refdiv_bit, state_reached, BootWait,
};
use s2lp::{Error, GpioNumber};

type E = Error<(), (), ()>;

fn irq(bits: u32) -> IrqStatus {
    IrqStatus::from_bits(bits)
}

const RX_DATA_READY: u32 = 1 << 0;
const RX_DATA_DISC: u32 = 1 << 1;
const TX_DATA_SENT: u32 = 1 << 2;
const MAX_RE_TX_REACH: u32 = 1 << 3;
const CRC_ERROR: u32 = 1 << 4;
const TX_FIFO_ERROR: u32 = 1 << 5;
const RX_FIFO_ERROR: u32 = 1 << 6;
const TX_FIFO_ALMOST_EMPTY: u32 = 1 << 8;
const RX_FIFO_ALMOST_FULL: u32 = 1 << 9;
const MAX_BO_CCA_REACH: u32 = 1 << 11;
const RX_TIMEOUT: u32 = 1 << 28;

fn basic_config() -> BasicConfig {
    BasicConfig {
        preamble_length: 128,
        preamble_pattern: PreamblePattern::Pattern0,
        sync_length: 32,
        sync_pattern: 0x12345678,
        include_address: false,
        packet_length_encoding: LenWid::Bytes1,
        postamble_length: 0,
        crc_mode: CrcMode::NoCrc,
        packet_filter: PacketFilteringOptions::default(),
    }
}

fn ready_basic() -> Ready<Basic> {
    let config = Config::default();
    let settings = fit_rf_settings::<(), (), ()>(&config, false, false).unwrap();
    let ready = Shutdown::new().into_ready(&settings);
    ready.set_format::<Basic, (), (), ()>(&basic_config()).unwrap().0
}

#[test]
fn successful_basic_tx() {
    let config = Config::default();
    assert!(validate_config::<(), (), ()>(&config).is_ok());
    // A 50 MHz crystal needs the divider: a set PD_CLKDIV is toggled off
    assert!(clock_divider_toggle(config.xtal_frequency, true));
    assert_eq!(digital_frequency(config.xtal_frequency, false), 25_000_000);
    assert!(check_chip_version::<(), (), ()>(0xC1).is_ok());
    let settings = fit_rf_settings::<(), (), ()>(&config, false, false).unwrap();
    let ready = Shutdown::new().into_ready(&settings);
    assert_eq!(ready.digital_frequency(), 25_000_000);

    let (ready, ops) = ready.set_format::<Basic, (), (), ()>(&basic_config()).unwrap();
    assert!(ops.contains(&RegOp::Write { address: SYNC3, value: 0x12 }));
    assert!(ops.contains(&RegOp::Write { address: SYNC2, value: 0x34 }));
    assert!(ops.contains(&RegOp::Write { address: SYNC1, value: 0x56 }));
    assert!(ops.contains(&RegOp::Write { address: SYNC0, value: 0x78 }));

    let payload = b"Hello";
    let pckt_ctrl_4 = 0u8;
    let (mut tx, ops) = ready
        .send_packet::<(), (), ()>(&BasicTxMetaData { destination_address: None }, payload, pckt_ctrl_4)
        .unwrap();
    assert_eq!(ops[0], RegOp::Write { address: PCKTLEN1, value: 0 });
    assert_eq!(ops[1], RegOp::Write { address: PCKTLEN0, value: 5 });
    assert_eq!(tx.remaining(), b"Hello");
    tx.advance(3);
    assert_eq!(tx.remaining(), b"lo");

    assert_eq!(tx.already_done(), None);
    assert_eq!(tx.handle_interrupt(irq(TX_FIFO_ALMOST_EMPTY)), TxStep::Refill);
    tx.advance(2);
    assert!(tx.remaining().is_empty());
    assert_eq!(tx.already_done(), None);
    assert_eq!(tx.handle_interrupt(irq(TX_DATA_SENT)), TxStep::Finished(TxResult::Sent));
    assert!(tx.finish().is_ok());
}

#[test]
fn tx_finish_before_done_gives_the_state_back() {
    let ready = ready_basic();
    let tx = ready
        .send_packet::<(), (), ()>(&BasicTxMetaData { destination_address: None }, b"x", 0)
        .unwrap()
        .0;
    let tx = tx.finish().err().unwrap();
    let (_ready, ops) = tx.abort();
    assert_eq!(ops, [RegOp::Command { command: CMD_SABORT }, RegOp::Command { command: CMD_FLUSH_TX_FIFO }]);
}

#[test]
fn tx_interrupt_outcomes() {
    let ready = ready_basic();
    let mut tx = ready
        .send_packet::<(), (), ()>(&BasicTxMetaData { destination_address: None }, b"x", 0)
        .unwrap()
        .0;
    assert_eq!(tx.handle_interrupt(irq(0)), TxStep::Ignore);
    assert_eq!(tx.handle_interrupt(irq(MAX_RE_TX_REACH | MAX_BO_CCA_REACH)), TxStep::Finished(TxResult::MaxReTxReached));

    let ready = ready_basic();
    let mut tx = ready
        .send_packet::<(), (), ()>(&BasicTxMetaData { destination_address: None }, b"x", 0)
        .unwrap()
        .0;
    assert_eq!(tx.handle_interrupt(irq(MAX_BO_CCA_REACH)), TxStep::Finished(TxResult::MaxBackoffReached));

    let ready = ready_basic();
    let mut tx = ready
        .send_packet::<(), (), ()>(&BasicTxMetaData { destination_address: None }, b"x", 0)
        .unwrap()
        .0;
    assert_eq!(tx.handle_interrupt(irq(TX_FIFO_ERROR | TX_DATA_SENT)), TxStep::AbortAndFlush);
    assert_eq!(tx.already_done(), Some(TxResult::TxAlreadyDone));
}

#[test]
fn tx_wait_is_idempotent() {
    let ready = ready_basic();
    let mut tx = ready
        .send_packet::<(), (), ()>(&BasicTxMetaData { destination_address: None }, b"x", 0)
        .unwrap()
        .0;
    assert_eq!(tx.handle_interrupt(irq(TX_DATA_SENT)), TxStep::Finished(TxResult::Sent));
    assert_eq!(tx.already_done(), Some(TxResult::TxAlreadyDone));
    assert_eq!(tx.already_done(), Some(TxResult::TxAlreadyDone));
}

#[test]
fn tx_timeout_state_check() {
    assert_eq!(check_tx_timeout_state::<(), (), ()>(Some(State::Lockst)), Err(E::BadState));
    assert_eq!(check_tx_timeout_state::<(), (), ()>(None), Err(E::BadState));
    assert_eq!(check_tx_timeout_state::<(), (), ()>(Some(State::Tx)), Ok(()));
    assert_eq!(State::from_mc_state_0(0x14 << 1), Some(State::Lockst));
    assert_eq!(State::from_mc_state_0(0x7F << 1), None);
}

#[test]
fn oversized_payload_rejected() {
    let ready = ready_basic();
    let payload = [0u8; 300];
    let r = ready.send_packet::<(), (), ()>(&BasicTxMetaData { destination_address: None }, &payload, 0);
    assert!(matches!(r, Err(Error::BufferTooLarge)));

    let ready = ready_basic();
    let payload = [0u8; 255];
    assert!(ready
        .send_packet::<(), (), ()>(&BasicTxMetaData { destination_address: None }, &payload, 0)
        .is_ok());
}

#[test]
fn basic_send_with_address() {
    // Address byte included, one byte length field: 254 bytes at most
    let reg = 0b0000_1000;
    let ops = Basic::setup_packet_send(&BasicTxMetaData { destination_address: Some(0x42) }, 254, reg).unwrap();
    assert_eq!(
        ops,
        vec![
            RegOp::Write { address: PCKTLEN1, value: 0 },
            RegOp::Write { address: PCKTLEN0, value: 255 },
            RegOp::Write { address: PCKT_FLT_GOALS3, value: 0x42 },
        ]
    );
    assert!(Basic::setup_packet_send(&BasicTxMetaData { destination_address: Some(0x42) }, 255, reg).is_err());
    assert!(matches!(
        Basic::setup_packet_send(&BasicTxMetaData { destination_address: None }, 10, reg),
        Err(s2lp::packet_format::FormatError::BadConfig { .. })
    ));
    // Two byte length field
    let ops = Basic::setup_packet_send(&BasicTxMetaData { destination_address: None }, 300, 0x80).unwrap();
    assert_eq!(ops[0], RegOp::Write { address: PCKTLEN1, value: 1 });
    assert_eq!(ops[1], RegOp::Write { address: PCKTLEN0, value: 44 });
}

#[test]
fn ieee_send_length() {
    // CRC mode 5: four bytes of CRC
    let reg = 5 << 5;
    let ops = Ieee802154G::setup_packet_send(&Ieee802154GTxMetaData, 2043, reg).unwrap();
    assert_eq!(ops[0], RegOp::Write { address: PCKTLEN1, value: 7 });
    assert_eq!(ops[1], RegOp::Write { address: PCKTLEN0, value: 255 });
    assert!(matches!(
        Ieee802154G::setup_packet_send(&Ieee802154GTxMetaData, 2044, reg),
        Err(s2lp::packet_format::FormatError::BufferTooLarge)
    ));
    assert!(matches!(
        Ieee802154G::setup_packet_send(&Ieee802154GTxMetaData, 1, 7 << 5),
        Err(s2lp::packet_format::FormatError::ConversionError { .. })
    ));
}

#[test]
fn rx_crc_failure() {
    let ready = ready_basic();
    let (mut rx, _ops) = ready.start_receive::<(), (), ()>(vec![0u8; 64], RxMode::default()).unwrap();
    assert_eq!(rx.already_done::<()>(), None);
    let step = rx.handle_interrupt::<()>(irq(RX_DATA_READY | CRC_ERROR));
    assert_eq!(step, RxStep::AbortAndFlush(RxResult::CrcError));
    assert_eq!(
        s2lp::states::rx::rx_abort_ops(),
        [RegOp::Command { command: CMD_SABORT }, RegOp::Command { command: CMD_FLUSH_RX_FIFO }]
    );
    assert_eq!(rx.already_done::<()>(), Some(RxResult::RxAlreadyDone));
    let (_ready, buffer) = rx.finish().ok().unwrap();
    assert_eq!(buffer.len(), 64);
}

#[test]
fn rx_receives_a_packet() {
    let ready = ready_basic();
    let (mut rx, _ops) = ready.start_receive::<(), (), ()>(vec![0u8; 8], RxMode::default()).unwrap();
    assert_eq!(rx.handle_interrupt::<()>(irq(RX_FIFO_ALMOST_FULL)), RxStep::Drain { finish: false });
    assert_eq!(rx.free_space(), 8);
    assert_eq!(rx.store(&[1, 2, 3]), 3);
    assert_eq!(rx.handle_interrupt::<()>(irq(RX_DATA_READY)), RxStep::Drain { finish: true });
    assert_eq!(rx.store(&[4, 5]), 2);
    assert_eq!(rx.data(), &[1, 2, 3, 4, 5]);
    let meta = Basic::rx_meta_data(0b0000_1000, 0x42);
    assert_eq!(meta.destination_address, Some(0x42));
    assert_eq!(Basic::rx_meta_data(0, 0x42).destination_address, None);
    let result = rx.received(100, meta);
    assert_eq!(result, RxResult::Received { packet_size: 5, rssi_value: -46, meta_data: meta });
    assert_eq!(rx.already_done::<()>(), Some(RxResult::RxAlreadyDone));
    let (_ready, buffer) = rx.finish().ok().unwrap();
    assert_eq!(buffer, vec![1, 2, 3, 4, 5, 0, 0, 0]);
}

#[test]
fn rx_stop_precedence() {
    let cases = [
        (RX_FIFO_ERROR | CRC_ERROR | RX_TIMEOUT | RX_DATA_DISC, RxResult::Fifo),
        (CRC_ERROR | RX_TIMEOUT | RX_DATA_DISC, RxResult::CrcError),
        (RX_TIMEOUT | RX_DATA_DISC, RxResult::Timeout),
        (RX_DATA_DISC | RX_DATA_READY, RxResult::Discarded),
    ];
    for (bits, expected) in cases {
        let ready = ready_basic();
        let (mut rx, _ops) = ready.start_receive::<(), (), ()>(vec![0u8; 8], RxMode::default()).unwrap();
        assert_eq!(rx.handle_interrupt::<()>(irq(bits)), RxStep::AbortAndFlush(expected));
    }
    // A full buffer comes first
    let ready = ready_basic();
    let (mut rx, _ops) = ready.start_receive::<(), (), ()>(vec![0u8; 2], RxMode::default()).unwrap();
    assert_eq!(rx.store(&[1, 2, 3]), 2);
    assert_eq!(
        rx.handle_interrupt::<()>(irq(RX_FIFO_ERROR | RX_DATA_READY)),
        RxStep::AbortAndFlush(RxResult::TooBigForBuffer)
    );
}

#[test]
fn out_of_band_frequency_rejected_first() {
    let config = Config { base_frequency: 800_000_000, datarate: 1, ..Config::default() };
    match validate_config::<(), (), ()>(&config) {
        Err(Error::BadConfig { reason }) => assert!(reason.contains("frequency")),
        other => panic!("unexpected {:?}", other),
    }
    let config = Config { datarate: 99, ..Config::default() };
    assert_eq!(validate_config::<(), (), ()>(&config), Err(E::BadConfig { reason: "Datarate out of range" }));
    let config = Config { frequency_deviation: 2_000_000, ..Config::default() };
    assert_eq!(
        validate_config::<(), (), ()>(&config),
        Err(E::BadConfig { reason: "Frequency deviation out of range" })
    );
    let config = Config { base_frequency: 433_000_000, ..Config::default() };
    assert_eq!(validate_config::<(), (), ()>(&config), Ok(()));
}

#[test]
fn bandwidth_checked_against_digital_clock() {
    // Checked before any bus access, against half the 50 MHz crystal
    let config = Config { bandwidth: 1_000, ..Config::default() };
    assert_eq!(validate_config::<(), (), ()>(&config), Err(E::BadConfig { reason: "Bandwidth out of range" }));
    let config = Config { bandwidth: 800_000, ..Config::default() };
    assert_eq!(validate_config::<(), (), ()>(&config), Err(E::BadConfig { reason: "Bandwidth out of range" }));
    let config = Config { xtal_frequency: 26_000_000, bandwidth: 800_000, ..Config::default() };
    assert_eq!(validate_config::<(), (), ()>(&config), Ok(()));
    // A 30 MHz crystal keeps the divider as the chip has it: with the divider on, the
    // digital clock is 15 MHz and the fitter refuses what the check let through
    let config = Config { xtal_frequency: 30_000_000, bandwidth: 800_000, ..Config::default() };
    assert_eq!(validate_config::<(), (), ()>(&config), Ok(()));
    assert_eq!(
        fit_rf_settings::<(), (), ()>(&config, false, false),
        Err(E::BadConfig { reason: "Bandwidth out of range" })
    );
    assert!(fit_rf_settings::<(), (), ()>(&config, true, false).is_ok());
}

#[test]
fn rx_timeout_alone_does_not_stop_a_packet() {
    let ready = ready_basic();
    let (mut rx, _ops) = ready.start_receive::<(), (), ()>(vec![0u8; 8], RxMode::default()).unwrap();
    assert_eq!(rx.handle_interrupt::<()>(irq(RX_DATA_READY | RX_TIMEOUT)), RxStep::Drain { finish: true });
    let ready = ready_basic();
    let (mut rx, _ops) = ready.start_receive::<(), (), ()>(vec![0u8; 8], RxMode::default()).unwrap();
    assert_eq!(rx.handle_interrupt::<()>(irq(RX_TIMEOUT)), RxStep::Ignore);
    assert_eq!(rx.already_done::<()>(), None);
}

#[test]
fn receive_clears_status_before_arming_interrupts() {
    let ready = ready_basic();
    let (_rx, ops) = ready.start_receive::<(), (), ()>(vec![0u8; 8], RxMode::default()).unwrap();
    let clear = ops.iter().position(|op| *op == RegOp::ClearIrqStatus).unwrap();
    let mask = ops.iter().position(|op| matches!(op, RegOp::Write { address: 0x50, .. })).unwrap();
    assert!(clear < mask);
    assert_eq!(*ops.last().unwrap(), RegOp::Command { command: 0x61 });
}

#[test]
fn chip_version_mismatch() {
    assert_eq!(check_chip_version::<(), (), ()>(0xC0), Err(E::Init));
}

#[test]
fn default_config_fit() {
    let settings = fit_rf_settings::<(), (), ()>(&Config::default(), false, false).unwrap();
    assert_eq!(settings.digital_frequency, 25_000_000);
    assert_eq!(settings.if_offset_ana, 47);
    assert_eq!(settings.if_offset_dig, 194);
    assert_eq!((settings.datarate_mantissa, settings.datarate_exponent), (37543, 7));
    assert_eq!((settings.fdev_mantissa, settings.fdev_exponent), (163, 2));
    assert_eq!(settings.ch_flt, ChFlt { ch_flt_e: 3, ch_flt_m: 1 });
    assert_eq!(settings.synt, 36406559);
    assert_eq!((settings.pll_cp_isel, settings.pll_pfd_split_en), (3, false));
    assert!(!settings.band_select_middle);
    assert!(!settings.ook);
    assert_eq!(settings.modulation, ModulationType::Fsk2);
    assert_eq!(settings.register_ops().len(), 18);
}

#[test]
fn init_steps() {
    assert_eq!(boot_wait(GpioNumber::Gpio0), BootWait::PowerOnReset);
    assert_eq!(boot_wait(GpioNumber::Gpio1), BootWait::DelayMs(2));
    assert_eq!(irq_pin_op(GpioNumber::Gpio1), RegOp::Write { address: 0x01, value: 0x02 });
    assert!(pd_clkdiv_bit(0x10));
    assert!(!pd_clkdiv_bit(0xEF));
    assert_eq!(pd_clkdiv_op(true), RegOp::Modify { address: 0x6C, mask: 0x10, value: 0x10 });
    assert!(refdiv_bit(0x08));
    assert!(!refdiv_bit(0xF7));
    assert_eq!(rco_calibration_op(), RegOp::Modify { address: 0x6D, mask: 0x01, value: 0x01 });
    assert_eq!(fifo_retention_op(), RegOp::Modify { address: 0x79, mask: 0x01, value: 0x01 });
    assert_eq!(state_reached::<(), (), ()>(0x02 << 1 | 1, State::Standby), Ok(true));
    assert_eq!(state_reached::<(), (), ()>(0x00, State::Standby), Ok(false));
    assert_eq!(
        state_reached::<(), (), ()>(0x7F << 1, State::Ready),
        Err(E::ConversionError { name: "State" })
    );
    assert_eq!(rco_calibration_status::<(), (), ()>(0x10), Some(Ok(())));
    assert_eq!(rco_calibration_status::<(), (), ()>(0x01), Some(Err(E::RcoLockError)));
    assert_eq!(rco_calibration_status::<(), (), ()>(0x00), None);
}

#[test]
fn standby_round_trip_keeps_the_clock() {
    let ready: Ready<Basic> = Ready::new(26_000_000);
    let (standby, op) = ready.standby();
    assert_eq!(op, RegOp::Command { command: 0x63 });
    let (ready, op) = standby.wake_up();
    assert_eq!(op, RegOp::Command { command: 0x62 });
    assert_eq!(ready.digital_frequency(), 26_000_000);
    let _shutdown: Shutdown = ready.shutdown();
}

#[test]
fn middle_band_ook_fit() {
    let config = Config {
        xtal_frequency: 26_000_000,
        base_frequency: 433_000_000,
        modulation: ModulationType::AskOok,
        datarate: 10_000,
        frequency_deviation: 5_000,
        bandwidth: 50_000,
    };
    let settings = fit_rf_settings::<(), (), ()>(&config, true, false).unwrap();
    assert_eq!(settings.digital_frequency, 26_000_000);
    assert!(settings.band_select_middle);
    assert!(settings.ook);
    assert_eq!(settings.pa_fc, s2lp::ll::PaFc::Khz12P5);
    // VCO at 3.464 GHz, reference at 26 MHz
    assert_eq!((settings.pll_cp_isel, settings.pll_pfd_split_en), (2, true));
}

#[test]
fn unsupported_receive_mode_rejected() {
    let ready = ready_basic();
    let timeout = RxTimeout { timeout_us: 1000, mask: RxTimeoutMask::Sqi };
    let r = ready.start_receive::<(), (), ()>(vec![0u8; 8], RxMode::Sniff { timeout });
    assert!(matches!(r, Err(Error::BadConfig { reason: "Receive mode not supported" })));
}

#[test]
fn unsupported_ieee_crc_rejected() {
    let config = Config::default();
    let settings = fit_rf_settings::<(), (), ()>(&config, false, false).unwrap();
    let ready = Shutdown::new().into_ready(&settings);
    let format = Ieee802154GConfig {
        preamble_length: 32,
        preamble_pattern: PreamblePattern::Pattern0,
        sync_length: 16,
        sync_pattern: 0x7209,
        crc_mode: CrcMode::CrcPoly0X07,
        data_whitening: false,
    };
    let r = ready.set_format::<Ieee802154G, (), (), ()>(&format);
    assert!(matches!(r, Err(Error::BadConfig { reason: "Unsupported CRC mode selected" })));
}

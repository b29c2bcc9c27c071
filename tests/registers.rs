use s2lp::ll::{
    command_header, fifo_transfer_len, read_header, tx_fifo_free_space, write_header, CcaPeriod,
    CrcMode, DeviceError, DeviceInterface, GpioSelectOutput, IrqStatus, RegOp, CSMA_CONF0,
    CSMA_CONF1, CSMA_CONF2, CSMA_CONF3, GPIO0_CONF, PROTOCOL1,
};
use s2lp::packet_format::{Basic, PacketFilteringOptions, PacketFormat, Ieee802154G, Ieee802154GConfig, PreamblePattern};
use s2lp::states::addressable::{set_gpio_function, GpioFunction};
use s2lp::states::ready::CsmaCaMode;
use s2lp::states::Ready;
use s2lp::{Error, GpioNumber};

#[test]
fn spi_headers() {
    assert_eq!(write_header(0x2B), [0b0000_0000, 0x2B]);
    assert_eq!(read_header(0xF1), [0b0000_0001, 0xF1]);
    assert_eq!(command_header(0x60), [0b1000_0000, 0x60]);
}

#[test]
fn fifo_lengths() {
    assert_eq!(tx_fifo_free_space(0), 128);
    assert_eq!(tx_fifo_free_space(100), 28);
    assert_eq!(tx_fifo_free_space(128), 0);
    assert_eq!(tx_fifo_free_space(200), 0);
    assert_eq!(fifo_transfer_len(5, 28), 5);
    assert_eq!(fifo_transfer_len(300, 128), 128);
}

#[test]
fn irq_status_decoding() {
    let irq = IrqStatus::from_registers([0x10, 0x00, 0x01, 0x04]);
    assert!(irq.rx_timeout);
    assert!(irq.tx_fifo_almost_empty);
    assert!(irq.tx_data_sent);
    assert!(!irq.rx_data_ready);
    assert!(!irq.crc_error);
    let irq = IrqStatus::from_bits(1 << 11);
    assert!(irq.max_bo_cca_reach);
    assert!(!irq.tx_data_sent);
}

#[test]
fn register_op_apply() {
    assert_eq!(RegOp::Modify { address: 0, mask: 0x0E, value: 0x06 }.apply(0xF1), 0xF7);
    assert_eq!(RegOp::Write { address: 0, value: 0x12 }.apply(0xF1), 0x12);
    assert_eq!(RegOp::Command { command: 0x60 }.apply(0xF1), 0xF1);
}

#[test]
fn crc_sizes() {
    assert_eq!(CrcMode::NoCrc.num_bytes(), 0);
    assert_eq!(CrcMode::CrcPoly0X07.num_bytes(), 1);
    assert_eq!(CrcMode::CrcPoly0X8005.num_bytes(), 2);
    assert_eq!(CrcMode::CrcPoly0X1021.num_bytes(), 2);
    assert_eq!(CrcMode::CrcPoly0X864Cbf.num_bytes(), 3);
    assert_eq!(CrcMode::CrcPoly0X04C011Bb7.num_bytes(), 4);
    assert_eq!(CrcMode::from_code(3), Some(CrcMode::CrcPoly0X1021));
    assert_eq!(CrcMode::from_code(6), None);
}

#[test]
fn csma_modes() {
    let ready: Ready<Basic> = Ready::new(25_000_000);
    assert!(CsmaCaMode::Off.is_off());
    assert!(!CsmaCaMode::Off.is_persistent());
    assert_eq!(ready.set_csma_ca(CsmaCaMode::Off), vec![RegOp::Modify { address: PROTOCOL1, mask: 0x0E, value: 0 }]);

    let persistent = CsmaCaMode::Persistent { cca_period: CcaPeriod::Bits128, num_cca_periods: 3 };
    assert!(persistent.is_persistent());
    assert_eq!(
        ready.set_csma_ca(persistent),
        vec![
            RegOp::Write { address: CSMA_CONF0, value: 0x31 },
            RegOp::Write { address: CSMA_CONF1, value: 1 },
            RegOp::Modify { address: PROTOCOL1, mask: 0x0E, value: 0x06 },
        ]
    );

    let backoff = CsmaCaMode::Backoff {
        cca_period: CcaPeriod::Bits512,
        num_cca_periods: 15,
        max_backoffs: 7,
        backoff_prescaler: 64,
        custom_prng_seed: Some(0),
    };
    assert!(backoff.is_valid());
    assert_eq!(
        ready.set_csma_ca(backoff),
        vec![
            RegOp::Write { address: CSMA_CONF0, value: 0xF7 },
            RegOp::Write { address: CSMA_CONF1, value: (63 << 2) | 3 },
            RegOp::Write { address: CSMA_CONF3, value: 0 },
            RegOp::Write { address: CSMA_CONF2, value: 1 },
            RegOp::Modify { address: PROTOCOL1, mask: 0x0E, value: 0x0C },
        ]
    );
    let bad = CsmaCaMode::Backoff {
        cca_period: CcaPeriod::Bits64,
        num_cca_periods: 1,
        max_backoffs: 8,
        backoff_prescaler: 2,
        custom_prng_seed: None,
    };
    assert!(!bad.is_valid());
    assert!(!CsmaCaMode::Persistent { cca_period: CcaPeriod::Bits64, num_cca_periods: 0 }.is_valid());
}

#[test]
fn gpio_functions() {
    assert_eq!(
        set_gpio_function(GpioNumber::Gpio2, GpioFunction::Output { high_power: false, select: GpioSelectOutput::Irq }),
        RegOp::Write { address: GPIO0_CONF + 2, value: 0b0000_0010 }
    );
    assert_eq!(
        set_gpio_function(GpioNumber::Gpio0, GpioFunction::Output { high_power: true, select: GpioSelectOutput::Gnd }),
        RegOp::Write { address: GPIO0_CONF, value: (20 << 3) | 3 }
    );
    assert_eq!(set_gpio_function(GpioNumber::Gpio3, GpioFunction::HiZ), RegOp::Write { address: GPIO0_CONF + 3, value: 0 });
    assert_eq!(GpioNumber::Gpio3.index(), 3);
}

#[test]
fn format_configs() {
    let filter = PacketFilteringOptions { discard_bad_crc: false, source_address: Some(1), multicast_address: None, broadcast_address: Some(0xFF) };
    let mut ops = Vec::new();
    filter.push_ops(&mut ops);
    assert_eq!(ops[0], RegOp::Modify { address: 0x40, mask: 0x0F, value: 0b1010 });
    assert_eq!(ops[1], RegOp::Write { address: 0x43, value: 0xFF });
    assert_eq!(ops[3], RegOp::Write { address: 0x45, value: 1 });

    let config = Ieee802154GConfig {
        preamble_length: 0x155,
        preamble_pattern: PreamblePattern::Pattern2,
        sync_length: 16,
        sync_pattern: 0xAABB,
        crc_mode: CrcMode::CrcPoly0X8005,
        data_whitening: true,
    };
    assert!(matches!(
        Ieee802154G::use_config(&config),
        Err(s2lp::packet_format::FormatError::BadConfig { reason: "Unsupported CRC mode selected" })
    ));
    let config = Ieee802154GConfig { crc_mode: CrcMode::CrcPoly0X1021, ..config };
    let ops = Ieee802154G::use_config(&config).unwrap();
    assert_eq!(ops[0], RegOp::Write { address: 0x2B, value: (16 << 2) | 1 });
    assert_eq!(ops[1], RegOp::Write { address: 0x2C, value: 0x55 });
    assert_eq!(ops[2], RegOp::Write { address: 0x2D, value: 0x88 });
    assert_eq!(ops[3], RegOp::Write { address: 0x2E, value: 0x42 });
    assert_eq!(ops[5], RegOp::Write { address: 0x30, value: (3 << 5) | 0x10 });
}

#[test]
fn error_conversions() {
    let e: Error<u8, (), ()> = Error::from(DeviceError::from(7u8));
    assert_eq!(e, Error::Device(DeviceError(7)));
    let device = DeviceInterface::new(3u8);
    assert_eq!(device.spi, 3);
}

#[test]
fn csma_seed_never_written_as_zero() {
    let ready: Ready<Basic> = Ready::new(25_000_000);
    let mode = CsmaCaMode::Backoff {
        cca_period: CcaPeriod::Bits64,
        num_cca_periods: 1,
        max_backoffs: 0,
        backoff_prescaler: 2,
        custom_prng_seed: Some(0x8000),
    };
    let ops = ready.set_csma_ca(mode);
    assert_eq!(ops[2], RegOp::Write { address: CSMA_CONF3, value: 0 });
    assert_eq!(ops[3], RegOp::Write { address: CSMA_CONF2, value: 1 });
    let mode = CsmaCaMode::Backoff {
        cca_period: CcaPeriod::Bits64,
        num_cca_periods: 1,
        max_backoffs: 0,
        backoff_prescaler: 2,
        custom_prng_seed: Some(0x8123),
    };
    let ops = ready.set_csma_ca(mode);
    assert_eq!(ops[2], RegOp::Write { address: CSMA_CONF3, value: 0x01 });
    assert_eq!(ops[3], RegOp::Write { address: CSMA_CONF2, value: 0x23 });
}

use s2lp::states::rx::{
    find_rx_timer_prescaler_and_counter, RxMode, RxTimeout, RxTimeoutMask,
};
use s2lp::ll::{RegOp, PCKT_FLT_OPTIONS, PROTOCOL2, TIMERS4, TIMERS5};

fn calculate_rx_timeout(prescaler: u8, counter: u8, digital_frequency: f64) -> f64 {
    (prescaler as f64 + 1.0) * (counter as f64 - 1.0) / (digital_frequency / 1210.0)
}

#[test]
fn rx_timeout() {
    fn assert_find(us: u32) -> Option<f32> {
        let (prescaler, counter, overflow) = find_rx_timer_prescaler_and_counter(us, 26_000_000);
        let return_us = calculate_rx_timeout(prescaler, counter, 26_000_000.0) * 1_000_000.0;

        if !overflow {
            assert!(
                return_us as f32 / us as f32 > 0.9999,
                "{us} -> {return_us} ({prescaler}, {counter}, {overflow})"
            );
            Some(return_us as f32 / us as f32)
        } else {
            None
        }
    }

    let mut max_frac = 0.0f32;
    let mut min_frac = f32::INFINITY;

    for us in 1..3_200_000 {
        let fraction = assert_find(us);

        if let Some(fraction) = fraction {
            max_frac = max_frac.max(fraction);
            min_frac = min_frac.min(fraction);
        }

        if us % 10000 == 0 {
            println!("..{us}: {max_frac:1.5}/{min_frac:1.5}");
            max_frac = 0.0;
            min_frac = f32::INFINITY;
        }
    }
}

#[test]
fn rx_timer_never_shorter_than_requested() {
    for us in [1u32, 999, 10_000, 123_457, 1_000_000, 2_900_000] {
        let (p, c, overflow) = find_rx_timer_prescaler_and_counter(us, 26_000_000);
        assert!(!overflow);
        let ticks = us as u64 * 26_000_000 / 1210;
        assert!((p as u64 + 1) * (c as u64 - 1) * 1_000_000 >= ticks, "{us}");
        // The prescaler below does not fit the counter
        if p > 1 {
            let below = (ticks + p as u64 * 1_000_000 - 1) / (p as u64 * 1_000_000) + 1;
            assert!(below > 255, "{us}");
        }
    }
}

#[test]
fn rx_timer_exact_values() {
    assert_eq!(find_rx_timer_prescaler_and_counter(10_000, 26_000_000), (1, 109, false));
    assert_eq!(find_rx_timer_prescaler_and_counter(1_000_000, 26_000_000), (84, 254, false));
    assert_eq!(find_rx_timer_prescaler_and_counter(3_200_000, 26_000_000), (255, 255, true));
    assert_eq!(find_rx_timer_prescaler_and_counter(0, 26_000_000), (1, 1, false));
}

#[test]
fn rx_timeout_register_ops() {
    let timeout = RxTimeout { timeout_us: 10_000, mask: RxTimeoutMask::RssiOrSqi };
    let ops = timeout.write_ops(26_000_000);
    assert_eq!(ops[0], RegOp::Modify { address: PCKT_FLT_OPTIONS, mask: 0x40, value: 0x40 });
    assert_eq!(ops[1], RegOp::Modify { address: PROTOCOL2, mask: 0xE0, value: 0b110 << 5 });
    assert_eq!(ops[2], RegOp::Write { address: TIMERS5, value: 109 });
    assert_eq!(ops[3], RegOp::Write { address: TIMERS4, value: 1 });
}

#[test]
fn rx_mode_without_timeout_disables_the_timer() {
    let ops = RxMode::default().write_ops::<(), (), ()>(26_000_000).unwrap();
    assert_eq!(ops[0], RegOp::Modify { address: PCKT_FLT_OPTIONS, mask: 0x40, value: 0 });
    assert_eq!(ops[1], RegOp::Modify { address: PROTOCOL2, mask: 0xE0, value: 0 });
    assert_eq!(ops[2], RegOp::Write { address: TIMERS5, value: 1 });
    assert_eq!(ops[3], RegOp::Write { address: TIMERS4, value: 1 });
    assert_eq!(RxTimeoutMask::default(), RxTimeoutMask::Sqi);
}

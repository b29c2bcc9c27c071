use s2lp::ll::{ChFlt, PaFc};
use s2lp::states::shutdown::{
    charge_pump, clock_divider_toggle, compute_datarate, compute_synt, digital_frequency,
    encode_datarate, encode_fdev, get_band_factor, if_offset, is_ch_bw, is_datarate, is_f_dev,
    is_frequency_band, is_frequency_band_high, is_frequency_band_middle, pa_fc,
    search_channel_filter_bandwidth,
};

#[test]
fn frequency_bands() {
    assert!(is_frequency_band(868_000_000));
    assert!(is_frequency_band(433_000_000));
    assert!(!is_frequency_band(800_000_000));
    assert!(is_frequency_band_high(825_900_000));
    assert!(is_frequency_band_high(1_056_000_000));
    assert!(!is_frequency_band_high(1_056_000_001));
    assert!(is_frequency_band_middle(412_900_000));
    assert!(!is_frequency_band_middle(527_100_001));
    assert_eq!(get_band_factor(868_000_000), 4);
    assert_eq!(get_band_factor(433_000_000), 8);
}

#[test]
fn range_checks() {
    assert!(is_datarate(100, 26_000_000));
    assert!(!is_datarate(99, 26_000_000));
    assert!(is_datarate(250_000, 26_000_000));
    assert!(!is_datarate(250_001, 26_000_000));
    assert!(is_datarate(480_769, 50_000_000));
    assert!(!is_datarate(480_770, 50_000_000));
    assert!(is_f_dev(6, 26_000_000));
    assert!(!is_f_dev(5, 26_000_000));
    assert!(is_f_dev(787_109, 26_000_000));
    assert!(!is_f_dev(787_110, 26_000_000));
    assert!(is_ch_bw(1_100, 26_000_000));
    assert!(!is_ch_bw(1_099, 26_000_000));
    assert!(is_ch_bw(800_100, 26_000_000));
    assert!(!is_ch_bw(800_101, 26_000_000));
}

#[test]
fn clock_divider() {
    assert!(clock_divider_toggle(26_000_000, false));
    assert!(!clock_divider_toggle(26_000_000, true));
    assert!(clock_divider_toggle(50_000_000, true));
    assert!(!clock_divider_toggle(50_000_000, false));
    assert!(!clock_divider_toggle(30_000_000, false));
    assert!(!clock_divider_toggle(30_000_000, true));
    assert_eq!(digital_frequency(26_000_000, true), 26_000_000);
    assert_eq!(digital_frequency(50_000_000, false), 25_000_000);
}

#[test]
fn datarate_formula() {
    assert_eq!(compute_datarate(25_000_000, 37543, 7), 38399);
    assert_eq!(compute_datarate(26_000_000, 16519, 0), 99);
    assert_eq!(compute_datarate(26_000_000, 15124, 10), 250_000);
    assert_eq!(compute_datarate(26_000_000, 1, 15), 3_250_000);
}

#[test]
fn datarate_encoding() {
    assert_eq!(encode_datarate(25_000_000, 38_400), (37543, 7));
    assert_eq!(encode_datarate(26_000_000, 100), (16519, 0));
    assert_eq!(encode_datarate(26_000_000, 250_000), (15124, 10));
    // The largest datarate at exponent 0 is 396 bps: 396 still fits there
    assert_eq!(encode_datarate(26_000_000, 396).1, 0);
    assert_eq!(encode_datarate(26_000_000, 397).1, 1);
}

#[test]
fn datarate_round_trip_within_tolerance() {
    for &(xtal, df) in &[(26_000_000u32, 26_000_000u32), (50_000_000, 25_000_000)] {
        let max = (250_000u64 * xtal as u64 / 1_000_000 / 26) as u32;
        let mut target = 100u32;
        while target <= max {
            let (m, e) = encode_datarate(df, target);
            let (scale, shift) = if e == 0 { (m as u128, 32) } else { (65536 + m as u128, 33 - e as u32) };
            let exact = (target as u128) << shift;
            let produced = df as u128 * scale;
            let diff = if exact > produced { exact - produced } else { produced - exact };
            assert!(10_000 * diff <= exact, "{target}: ({m}, {e})");
            target += 37;
        }
    }
}

#[test]
fn frequency_deviation_encoding() {
    assert_eq!(encode_fdev(50_000_000, 20_000, 4, 1), (163, 2));
    assert_eq!(encode_fdev(26_000_000, 20_000, 4, 1), (147, 3));
    // The nearest mantissa wins
    let (m, e) = encode_fdev(26_000_000, 20_000, 4, 1);
    let fdev = |m: u64| 26_000_000u64 * (256 + m) * (1 << (e - 1)) / ((1 << 19) * 4);
    let target = 20_000i64;
    for j in 0..=255u64 {
        assert!((fdev(m as u64) as i64 - target).abs() <= (fdev(j) as i64 - target).abs());
    }
    // 18 Hz lies halfway between mantissas 1 (12 Hz) and 2 (24 Hz): the larger one wins
    assert_eq!(encode_fdev(26_000_000, 18, 4, 1), (2, 0));
    // Middle band, reference divider on
    assert_eq!(encode_fdev(50_000_000, 20_000, 8, 2).1, 4);
}

#[test]
fn channel_filter_search() {
    assert_eq!(search_channel_filter_bandwidth(100_000, 25_000_000), ChFlt { ch_flt_e: 3, ch_flt_m: 1 });
    assert_eq!(search_channel_filter_bandwidth(100_000, 26_000_000), ChFlt { ch_flt_e: 3, ch_flt_m: 2 });
    assert_eq!(search_channel_filter_bandwidth(1_000_000, 26_000_000), ChFlt { ch_flt_e: 0, ch_flt_m: 0 });
    assert_eq!(search_channel_filter_bandwidth(0, 26_000_000), ChFlt { ch_flt_e: 9, ch_flt_m: 8 });
    // Entries 86 and 87 give the same bandwidth: the lower one is taken
    assert_eq!(search_channel_filter_bandwidth(1_300, 26_000_000), ChFlt { ch_flt_e: 9, ch_flt_m: 5 });
}

#[test]
fn synthesizer_and_charge_pump() {
    assert_eq!(if_offset(50_000_000), 47);
    assert_eq!(if_offset(25_000_000), 194);
    assert_eq!(if_offset(26_000_000), 183);
    assert_eq!(compute_synt(868_000_000, 50_000_000, 4, 1), 36_406_559);
    assert_eq!(charge_pump(3_472_000_000, 50_000_000), (3, false));
    assert_eq!(charge_pump(3_472_000_000, 26_000_000), (2, true));
    assert_eq!(charge_pump(3_600_000_000, 50_000_000), (2, false));
    assert_eq!(charge_pump(3_600_000_000, 26_000_000), (1, true));
    assert_eq!(pa_fc(15_999), PaFc::Khz12P5);
    assert_eq!(pa_fc(16_000), PaFc::Khz25);
    assert_eq!(pa_fc(62_499), PaFc::Khz50);
    assert_eq!(pa_fc(62_500), PaFc::Khz100);
}

//! Radio configuration: range checks and the arithmetic that turns physical
//! settings into the chip's register encodings.
use vstd::arithmetic::div_mod::*;
use vstd::arithmetic::mul::*;
use vstd::arithmetic::power2::*;
use vstd::prelude::*;

use super::addressable::{set_gpio_function, GpioFunction};
use super::{Ready, Shutdown};
use crate::ll::{
    ChFlt, GpioSelectOutput, ModulationType, PaFc, RegOp, State, AFC2, CHIP_VERSION, CH_FLT,
    GPIO0_CONF, IF_OFFSET_ANA, IF_OFFSET_DIG, MOD0, MOD1, MOD2, MOD3, MOD4, PA_CONFIG0, PA_CONFIG1,
    PA_POWER0, PM_CONF0, SYNT0, SYNT1, SYNT2, SYNT3, SYNTH_CONFIG2, XO_RCO_CONF0, XO_RCO_CONF1,
};
use crate::packet_format::Uninitialized;
use crate::{Error, GpioNumber};

verus! {

/// VCO center frequency in Hz
pub const VCO_CENTER_FREQ: u64 = 3600000000;

/// Band select factor for high band. Factor B in the equation 2
pub const HIGH_BAND_FACTOR: u32 = 4;

/// Band select factor for middle band. Factor B in the equation 2
pub const MIDDLE_BAND_FACTOR: u32 = 8;

/// Lower limit of the high band: 860 MHz (S2-LPQTR)
pub const HIGH_BAND_LOWER_LIMIT: u32 = 825900000;

/// Upper limit of the high band: 940 MHz (S2-LPCBQTR)
pub const HIGH_BAND_UPPER_LIMIT: u32 = 1056000000;

/// Lower limit of the middle band: 430 MHz (S2-LPQTR)
pub const MIDDLE_BAND_LOWER_LIMIT: u32 = 412900000;

/// Upper limit of the middle band: 470 MHz (S2-LPCBQTR)
pub const MIDDLE_BAND_UPPER_LIMIT: u32 = 527100000;

/// Minimum datarate supported by S2LP 100 bps
pub const MINIMUM_DATARATE: u32 = 100;

/// Maximum datarate supported by S2LP 250 ksps
pub const MAXIMUM_DATARATE: u64 = 250000;

/// Digital domain logic threshold for XTAL in Hz
pub const DIG_DOMAIN_XTAL_THRESH: u32 = 30000000;

/// `2^k` as a machine integer.
fn pow2_u64(k: u32) -> (r: u64)
    requires
        k < 64,
    ensures
        r as nat == pow2(k as nat),
{
    let mut r: u64 = 1;
    let mut i: u32 = 0;
    proof {
        lemma_pow2_0();
    }
    while i < k
        invariant
            i <= k < 64,
            r as nat == pow2(i as nat),
        decreases k - i,
    {
        proof {
            lemma_pow2_unfold((i + 1) as nat);
            lemma_pow2_strictly_increases((i + 1) as nat, 64);
            lemma2_to64();
        }
        r = r * 2;
        i = i + 1;
    }
    r
}

proof fn lemma_pow2_0()
    ensures
        pow2(0) == 1,
{
    lemma2_to64();
}

pub open spec fn spec_is_frequency_band_high(base_frequency: u32) -> bool {
    HIGH_BAND_LOWER_LIMIT <= base_frequency <= HIGH_BAND_UPPER_LIMIT
}

pub open spec fn spec_is_frequency_band_middle(base_frequency: u32) -> bool {
    MIDDLE_BAND_LOWER_LIMIT <= base_frequency <= MIDDLE_BAND_UPPER_LIMIT
}

pub open spec fn spec_is_frequency_band(base_frequency: u32) -> bool {
    spec_is_frequency_band_high(base_frequency) || spec_is_frequency_band_middle(base_frequency)
}

/// Whether the frequency lies in the high or in the middle band
pub fn is_frequency_band(base_frequency: u32) -> (r: bool)
    ensures
        r == spec_is_frequency_band(base_frequency),
{
    is_frequency_band_high(base_frequency) || is_frequency_band_middle(base_frequency)
}

/// Whether the frequency lies in the high band
pub fn is_frequency_band_high(base_frequency: u32) -> (r: bool)
    ensures
        r == spec_is_frequency_band_high(base_frequency),
{
    base_frequency >= HIGH_BAND_LOWER_LIMIT && base_frequency <= HIGH_BAND_UPPER_LIMIT
}

/// Whether the frequency lies in the middle band
pub fn is_frequency_band_middle(base_frequency: u32) -> (r: bool)
    ensures
        r == spec_is_frequency_band_middle(base_frequency),
{
    base_frequency >= MIDDLE_BAND_LOWER_LIMIT && base_frequency <= MIDDLE_BAND_UPPER_LIMIT
}

pub open spec fn spec_band_factor(base_frequency: u32) -> u32 {
    if spec_is_frequency_band_high(base_frequency) {
        HIGH_BAND_FACTOR
    } else {
        MIDDLE_BAND_FACTOR
    }
}

/// The band select factor B: 4 in the high band, 8 otherwise
pub fn get_band_factor(base_frequency: u32) -> (r: u32)
    ensures
        r == spec_band_factor(base_frequency),
{
    if is_frequency_band_high(base_frequency) {
        HIGH_BAND_FACTOR
    } else {
        MIDDLE_BAND_FACTOR
    }
}

/// The largest datarate that a crystal of the given frequency supports
pub open spec fn max_datarate(xtal_freq: u32) -> int {
    MAXIMUM_DATARATE * xtal_freq / 1000000 / 26
}

pub open spec fn spec_is_datarate(datarate: u32, xtal_freq: u32) -> bool {
    MINIMUM_DATARATE <= datarate <= max_datarate(xtal_freq)
}

/// Whether the datarate lies between 100 bps and the crystal's maximum
pub fn is_datarate(datarate: u32, xtal_freq: u32) -> (r: bool)
    ensures
        r == spec_is_datarate(datarate, xtal_freq),
{
    datarate >= MINIMUM_DATARATE && datarate as u64 <= MAXIMUM_DATARATE * xtal_freq as u64
        / 1000000 / 26
}

pub open spec fn min_f_dev(xtal_freq: u32) -> int {
    xtal_freq as int / pow2(22) as int
}

pub open spec fn max_f_dev(xtal_freq: u32) -> int {
    787109 * xtal_freq / 1000000 / 26
}

pub open spec fn spec_is_f_dev(fdev: u32, xtal_freq: u32) -> bool {
    min_f_dev(xtal_freq) <= fdev <= max_f_dev(xtal_freq)
}

/// Whether the frequency deviation lies in the range the crystal supports
pub fn is_f_dev(fdev: u32, xtal_freq: u32) -> (r: bool)
    ensures
        r == spec_is_f_dev(fdev, xtal_freq),
{
    proof {
        vstd::bits::lemma_u32_shr_is_div(xtal_freq, 22);
    }
    fdev >= (xtal_freq >> 22) && fdev as u64 <= 787109u64 * xtal_freq as u64 / 1000000 / 26
}

pub open spec fn min_ch_bw(dig_freq: u32) -> int {
    1100 * dig_freq / 1000000 / 26
}

pub open spec fn max_ch_bw(dig_freq: u32) -> int {
    800100 * dig_freq / 1000000 / 26
}

pub open spec fn spec_is_ch_bw(bandwidth: u32, dig_freq: u32) -> bool {
    min_ch_bw(dig_freq) <= bandwidth <= max_ch_bw(dig_freq)
}

/// Whether the channel bandwidth lies in the range the digital clock supports
pub fn is_ch_bw(bandwidth: u32, dig_freq: u32) -> (r: bool)
    ensures
        r == spec_is_ch_bw(bandwidth, dig_freq),
{
    bandwidth as u64 >= 1100u64 * dig_freq as u64 / 1000000 / 26 && bandwidth as u64 <= 800100u64
        * dig_freq as u64 / 1000000 / 26
}

/// The number of bits the datarate formula shifts by at the given exponent
pub open spec fn datarate_shift(exponent: u8) -> nat {
    if exponent == 0 {
        32
    } else {
        (33 - exponent) as nat
    }
}

/// The mantissa as the datarate formula scales it at the given exponent
pub open spec fn datarate_scale(mantissa: u16, exponent: u8) -> nat {
    if exponent == 0 {
        mantissa as nat
    } else {
        (65536 + mantissa) as nat
    }
}

/// The datarate in bps that the chip produces from a mantissa and an exponent
pub open spec fn spec_compute_datarate(digital_frequency: u32, mantissa: u16, exponent: u8) -> int {
    if exponent < 15 {
        (digital_frequency * datarate_scale(mantissa, exponent)) as int / pow2(
            datarate_shift(exponent),
        ) as int
    } else {
        digital_frequency as int / (8 * mantissa)
    }
}

/// The datarate in bps that the chip produces from a mantissa and an exponent
pub fn compute_datarate(digital_frequency: u32, mantissa: u16, exponent: u8) -> (r: u32)
    requires
        exponent <= 15,
        exponent == 15 ==> mantissa > 0,
    ensures
        r == spec_compute_datarate(digital_frequency, mantissa, exponent),
{
    if exponent == 0 {
        let p = pow2_u64(32);
        proof {
            lemma2_to64();
        }
        assert(digital_frequency * mantissa <= 0xffff_ffff * 0xffff) by (nonlinear_arith);
        let v = digital_frequency as u64 * mantissa as u64 / p;
        proof {
            lemma_div_is_ordered((digital_frequency * mantissa) as int, p * 0x10000, p as int);
            lemma_div_multiples_vanish(0x10000, p as int);
        }
        v as u32
    } else if exponent < 15 {
        let p = pow2_u64(33 - exponent as u32);
        proof {
            lemma2_to64();
            if exponent < 14 {
                lemma_pow2_strictly_increases(19, datarate_shift(exponent));
            }
        }
        assert(digital_frequency * (65536 + mantissa) <= 0x1_0000_0000 * 0x20000) by (nonlinear_arith);
        let v = digital_frequency as u64 * (65536 + mantissa as u64) / p;
        proof {
            let x = (digital_frequency * (65536 + mantissa)) as int;
            lemma_div_is_ordered_by_denominator(x, 0x80000, p as int);
            lemma_div_is_ordered(x, 0x80000int * 0x4000_0000int, 0x80000);
            lemma_div_multiples_vanish(0x4000_0000, 0x80000);
        }
        v as u32
    } else {
        digital_frequency / (8 * mantissa as u32)
    }
}

/// The rounded quotient `round(datarate * 2^shift / digital_frequency)`
pub open spec fn datarate_rounded(digital_frequency: u32, datarate: u32, exponent: u8) -> int {
    (datarate * pow2(datarate_shift(exponent)) + digital_frequency as int / 2) / digital_frequency as int
}

/// What the datarate encoder returns: the smallest exponent whose largest datarate reaches
/// the target, and the rounded mantissa at that exponent. Above exponent 0 the mantissa
/// is offset by 65536; a rounded value below that offset is raised to it.
pub open spec fn is_datarate_encoding(
    digital_frequency: u32,
    datarate: u32,
    mantissa: u16,
    exponent: u8,
) -> bool {
    &&& exponent <= 14
    &&& spec_compute_datarate(digital_frequency, u16::MAX, exponent) >= datarate
    &&& forall|e: u8| e < exponent ==> spec_compute_datarate(digital_frequency, u16::MAX, e) < datarate
    &&& datarate_scale(mantissa, exponent) == if exponent == 0 {
        datarate_rounded(digital_frequency, datarate, exponent)
    } else if datarate_rounded(digital_frequency, datarate, exponent) < 65536 {
        65536
    } else {
        datarate_rounded(digital_frequency, datarate, exponent)
    }
}

/// Encode a datarate as (mantissa, exponent) for the MOD4/MOD3 and MOD2 registers.
///
/// The smallest exponent whose largest datarate reaches the target is used, as it
/// gives the finest resolution, and the mantissa is the rounded quotient.
pub fn encode_datarate(digital_frequency: u32, datarate: u32) -> (r: (u16, u8))
    requires
        digital_frequency > 0,
        datarate <= spec_compute_datarate(digital_frequency, u16::MAX, 14),
    ensures
        is_datarate_encoding(digital_frequency, datarate, r.0, r.1),
{
    let mut exponent: u8 = 0;
    while exponent < 14 && compute_datarate(digital_frequency, u16::MAX, exponent) < datarate
        invariant
            exponent <= 14,
            forall|e: u8| e < exponent ==> spec_compute_datarate(digital_frequency, u16::MAX, e) < datarate,
        decreases 14 - exponent,
    {
        exponent = exponent + 1;
    }
    let shift: u32 = if exponent == 0 { 32 } else { 33 - exponent as u32 };
    let p = pow2_u64(shift);
    proof {
        lemma2_to64();
        if shift < 32 {
            lemma_pow2_strictly_increases(shift as nat, 32);
        }
    }
    assert(datarate * p <= 0xffff_ffff * 0x1_0000_0000) by (nonlinear_arith)
        requires datarate <= 0xffff_ffff, p <= 0x1_0000_0000;
    let target: u64 = datarate as u64 * p;
    let rounded: u64 = (target + digital_frequency as u64 / 2) / digital_frequency as u64;
    proof {
        // The rounded quotient fits the mantissa: the target does not exceed the largest datarate.
        let s = if exponent == 0 { 65535int } else { 131071int };
        assert(spec_compute_datarate(digital_frequency, u16::MAX, exponent) == (digital_frequency * s) / (p as int));
        lemma_fundamental_div_mod(digital_frequency * s, p as int);
        lemma_mod_bound(digital_frequency * s, p as int);
        assert(datarate * p <= digital_frequency * s) by (nonlinear_arith)
            requires
                datarate <= (digital_frequency * s) / (p as int),
                digital_frequency * s == p * ((digital_frequency * s) / (p as int)) + (digital_frequency * s) % (p as int),
                (digital_frequency * s) % (p as int) >= 0,
                p > 0;
        assert(target + digital_frequency / 2 < digital_frequency * (s + 1)) by (nonlinear_arith)
            requires target <= digital_frequency * s, digital_frequency > 0;
        lemma_div_is_ordered((target + digital_frequency / 2) as int, digital_frequency * (s + 1) - 1, digital_frequency as int);
        lemma_fundamental_div_mod(digital_frequency * (s + 1) - 1, digital_frequency as int);
        lemma_mod_bound(digital_frequency * (s + 1) - 1, digital_frequency as int);
        assert((digital_frequency * (s + 1) - 1) / (digital_frequency as int) <= s) by (nonlinear_arith)
            requires
                digital_frequency * (s + 1) - 1 == digital_frequency * ((digital_frequency * (s + 1) - 1) / (digital_frequency as int)) + (digital_frequency * (s + 1) - 1) % (digital_frequency as int),
                0 <= (digital_frequency * (s + 1) - 1) % (digital_frequency as int) < digital_frequency;
    }
    if exponent == 0 {
        (rounded as u16, exponent)
    } else {
        let mantissa: u64 = if rounded < 65536 { 0 } else { rounded - 65536 };
        (mantissa as u16, exponent)
    }
}

/// Datarate round trip: the datarate that the chip produces from an encoded register pair,
/// taken exactly (before the chip's own truncation), lies within 0.01% of the target, for
/// every target of at least 100 bps and digital clock up to 85.9 MHz.
///
/// In integers: `10000 * |f_dig * scale - target * 2^shift| <= target * 2^shift`.
pub proof fn lemma_datarate_round_trip(digital_frequency: u32, datarate: u32, mantissa: u16, exponent: u8)
    requires
        0 < digital_frequency <= 85_899_345,
        datarate >= MINIMUM_DATARATE,
        is_datarate_encoding(digital_frequency, datarate, mantissa, exponent),
    ensures
        ({
            let exact = datarate * pow2(datarate_shift(exponent));
            let produced = digital_frequency * datarate_scale(mantissa, exponent);
            &&& 10000 * (produced - exact) <= exact
            &&& 10000 * (exact - produced) <= exact
        }),
{
    let df = digital_frequency as int;
    let p = pow2(datarate_shift(exponent)) as int;
    let a = datarate * p;
    let h = df / 2;
    let r = (a + h) / df;
    lemma_pow2_pos(datarate_shift(exponent));
    lemma2_to64();
    lemma_fundamental_div_mod(a + h, df);
    lemma_mod_bound(a + h, df);
    let rem = (a + h) % df;
    assert(a + h == df * r + rem);
    let n = datarate_scale(mantissa, exponent) as int;
    if exponent == 0 {
        assert(p == 0x1_0000_0000);
        assert(n == r);
        assert(a >= 100 * 0x1_0000_0000) by (nonlinear_arith)
            requires a == datarate * p, p == 0x1_0000_0000, datarate >= 100;
        assert(10000 * (df * n - a) <= a && 10000 * (a - df * n) <= a) by (nonlinear_arith)
            requires
                a + h == df * n + rem, 0 <= rem < df, h == df / 2, df <= 85_899_345,
                a >= 100 * 0x1_0000_0000;
    } else if r >= 65536 {
        assert(n == r);
        assert(10000 * (df * n - a) <= a && 10000 * (a - df * n) <= a) by (nonlinear_arith)
            requires
                a + h == df * n + rem, 0 <= rem < df, h == df / 2, df > 0, n >= 65536;
    } else {
        assert(n == 65536);
        // The exponent below did not reach the target, so the target lies above 65535 steps.
        let prev = (exponent - 1) as u8;
        assert(spec_compute_datarate(digital_frequency, u16::MAX, prev) < datarate);
        let pp = pow2(datarate_shift(prev)) as int;
        let s: int = if prev == 0 { 65535 } else { 131071 };
        assert(spec_compute_datarate(digital_frequency, u16::MAX, prev) == (df * s) / pp);
        lemma_pow2_pos(datarate_shift(prev));
        lemma_fundamental_div_mod(df * s, pp);
        lemma_mod_bound(df * s, pp);
        if prev == 0 {
            assert(pp == p);
            assert(df * s < a) by (nonlinear_arith)
                requires
                    (df * s) / pp < datarate, df * s == pp * ((df * s) / pp) + (df * s) % pp,
                    (df * s) % pp < pp, a == datarate * p, pp == p, p > 0;
        } else {
            lemma_pow2_unfold(datarate_shift(prev));
            assert(datarate_shift(prev) == datarate_shift(exponent) + 1);
            assert(pp == 2 * p);
            assert(df * 131070 < 2 * a) by (nonlinear_arith)
                requires
                    (df * s) / pp < datarate, df * s == pp * ((df * s) / pp) + (df * s) % pp,
                    (df * s) % pp < pp, a == datarate * p, pp == 2 * p, p > 0, s == 131071, df > 0;
        }
        assert(10000 * (df * n - a) <= a && 10000 * (a - df * n) <= a) by (nonlinear_arith)
            requires
                a + h == df * r + rem, 0 <= rem < df, h == df / 2, df > 0, r < 65536,
                n == 65536, df * 65535 < a;
    }
}

/// The distance between two integers
pub open spec fn abs_diff(a: int, b: int) -> int {
    if a >= b {
        a - b
    } else {
        b - a
    }
}

/// `(B/8)^-1` as the deviation formula uses it
pub open spec fn band_factor_div(band_factor: u32) -> nat {
    if band_factor == HIGH_BAND_FACTOR {
        1
    } else {
        2
    }
}

/// The mantissa as the deviation formula scales it at the given exponent
pub open spec fn fdev_scale(mantissa: u8, exponent: u8) -> nat {
    if exponent == 0 {
        mantissa as nat
    } else {
        ((256 + mantissa) * pow2((exponent - 1) as nat)) as nat
    }
}

/// The frequency deviation in Hz that the chip produces from a mantissa and an exponent,
/// for crystal frequency fXO, band factor B and reference divider D
pub open spec fn spec_compute_fdev(
    xtal_freq: u32,
    mantissa: u8,
    exponent: u8,
    band_factor: u32,
    refdiv: u32,
) -> int {
    (xtal_freq * refdiv * fdev_scale(mantissa, exponent)) as int / (pow2(19) * refdiv * band_factor
        * band_factor_div(band_factor)) as int
}

pub open spec fn valid_band_factor(band_factor: u32) -> bool {
    band_factor == HIGH_BAND_FACTOR || band_factor == MIDDLE_BAND_FACTOR
}

pub open spec fn valid_refdiv(refdiv: u32) -> bool {
    refdiv == 1 || refdiv == 2
}

/// The frequency deviation in Hz that the chip produces from a mantissa and an exponent
fn compute_fdev(xtal_freq: u32, mantissa: u8, exponent: u8, band_factor: u32, refdiv: u32) -> (r: u64)
    requires
        exponent <= 15,
        valid_band_factor(band_factor),
        valid_refdiv(refdiv),
    ensures
        r == spec_compute_fdev(xtal_freq, mantissa, exponent, band_factor, refdiv),
{
    let band_factor_div: u64 = if band_factor == HIGH_BAND_FACTOR { 1 } else { 2 };
    let p19 = pow2_u64(19);
    proof {
        lemma2_to64();
    }
    assert(p19 * refdiv * band_factor * band_factor_div <= 0x80000 * 2 * 8 * 2) by (nonlinear_arith)
        requires p19 == 0x80000, refdiv <= 2, band_factor <= 8, band_factor_div <= 2;
    assert(p19 * refdiv * band_factor * band_factor_div > 0) by (nonlinear_arith)
        requires p19 == 0x80000, refdiv >= 1, band_factor >= 1, band_factor_div >= 1;
    let denom = p19 * refdiv as u64 * band_factor as u64 * band_factor_div;
    if exponent == 0 {
        assert(xtal_freq * refdiv <= 0xffff_ffff * 2) by (nonlinear_arith)
            requires refdiv <= 2;
        assert(xtal_freq * refdiv * mantissa <= 0xffff_ffff * 2 * 255) by (nonlinear_arith)
            requires xtal_freq * refdiv <= 0xffff_ffff * 2, mantissa <= 255;
        let nom = xtal_freq as u64 * refdiv as u64 * mantissa as u64;
        nom / denom
    } else {
        let p = pow2_u64(exponent as u32 - 1);
        proof {
            if exponent < 15 {
                lemma_pow2_strictly_increases((exponent - 1) as nat, 14);
            }
        }
        assert(xtal_freq * refdiv <= 0xffff_ffff * 2) by (nonlinear_arith)
            requires refdiv <= 2;
        assert(xtal_freq * refdiv * (256 + mantissa) <= 0xffff_ffff * 2 * 511) by (nonlinear_arith)
            requires refdiv <= 2, mantissa <= 255;
        assert(xtal_freq * refdiv * (256 + mantissa) * p <= 0xffff_ffff * 2 * 511 * 0x4000) by (nonlinear_arith)
            requires xtal_freq * refdiv * (256 + mantissa) <= 0xffff_ffff * 2 * 511, p <= 0x4000;
        assert((256 + mantissa) * p == fdev_scale(mantissa, exponent));
        assert(xtal_freq * refdiv * (256 + mantissa) * p == xtal_freq * refdiv * fdev_scale(mantissa, exponent)) by (nonlinear_arith)
            requires (256 + mantissa) * p == fdev_scale(mantissa, exponent);
        let nom = xtal_freq as u64 * refdiv as u64 * (256 + mantissa as u64) * p;
        nom / denom
    }
}

/// A larger mantissa never gives a smaller deviation.
proof fn lemma_fdev_monotone(
    xtal_freq: u32,
    m1: u8,
    m2: u8,
    exponent: u8,
    band_factor: u32,
    refdiv: u32,
)
    requires
        m1 <= m2,
        valid_band_factor(band_factor),
        valid_refdiv(refdiv),
    ensures
        spec_compute_fdev(xtal_freq, m1, exponent, band_factor, refdiv) <= spec_compute_fdev(
            xtal_freq,
            m2,
            exponent,
            band_factor,
            refdiv,
        ),
{
    lemma2_to64();
    if exponent > 0 {
        lemma_pow2_pos((exponent - 1) as nat);
        lemma_mul_inequality(256 + m1, 256 + m2, pow2((exponent - 1) as nat) as int);
    }
    assert(fdev_scale(m1, exponent) <= fdev_scale(m2, exponent));
    lemma_mul_inequality(
        fdev_scale(m1, exponent) as int,
        fdev_scale(m2, exponent) as int,
        xtal_freq * refdiv,
    );
    assert(xtal_freq * refdiv * fdev_scale(m1, exponent) <= xtal_freq * refdiv * fdev_scale(m2, exponent)) by (nonlinear_arith)
        requires fdev_scale(m1, exponent) * (xtal_freq * refdiv) <= fdev_scale(m2, exponent) * (xtal_freq * refdiv);
    assert(pow2(19) * refdiv * band_factor * band_factor_div(band_factor) > 0) by (nonlinear_arith)
        requires pow2(19) > 0, refdiv > 0, band_factor > 0, band_factor_div(band_factor) > 0;
    lemma_div_is_ordered(
        (xtal_freq * refdiv * fdev_scale(m1, exponent)) as int,
        (xtal_freq * refdiv * fdev_scale(m2, exponent)) as int,
        (pow2(19) * refdiv * band_factor * band_factor_div(band_factor)) as int,
    );
}

/// The exponent the deviation encoder picks: the smallest whose largest deviation exceeds
/// the target, or 0 where none does
pub open spec fn is_fdev_exponent(
    xtal_freq: u32,
    fdev: u32,
    band_factor: u32,
    refdiv: u32,
    exponent: u8,
) -> bool {
    &&& exponent <= 15
    &&& (spec_compute_fdev(xtal_freq, u8::MAX, exponent, band_factor, refdiv) > fdev || (exponent
        == 0 && forall|e: u8|
        e <= 15 ==> spec_compute_fdev(xtal_freq, u8::MAX, e, band_factor, refdiv) <= fdev))
    &&& forall|e: u8|
        e < exponent ==> spec_compute_fdev(xtal_freq, u8::MAX, e, band_factor, refdiv) <= fdev
}

/// What the deviation encoder returns: the exponent above, and a mantissa at that exponent
/// whose deviation is nearest to the target. The mantissa is found from `k`, the largest
/// mantissa whose deviation lies below the target: `k` itself where it is 255 or strictly
/// nearer than `k + 1`, else `k + 1` (a tie goes to the larger one); 0 where there is no `k`.
pub open spec fn is_fdev_encoding(
    xtal_freq: u32,
    fdev: u32,
    band_factor: u32,
    refdiv: u32,
    mantissa: u8,
    exponent: u8,
) -> bool {
    &&& is_fdev_exponent(xtal_freq, fdev, band_factor, refdiv, exponent)
    &&& spec_compute_fdev(xtal_freq, 0, exponent, band_factor, refdiv) >= fdev ==> mantissa == 0
    &&& forall|k: u8|
        #![trigger spec_compute_fdev(xtal_freq, k, exponent, band_factor, refdiv)]
        spec_compute_fdev(xtal_freq, k, exponent, band_factor, refdiv) < fdev && (k == 255
            || spec_compute_fdev(xtal_freq, (k + 1) as u8, exponent, band_factor, refdiv) >= fdev)
            ==> mantissa == if k == 255 || fdev - spec_compute_fdev(
            xtal_freq,
            k,
            exponent,
            band_factor,
            refdiv,
        ) < spec_compute_fdev(xtal_freq, (k + 1) as u8, exponent, band_factor, refdiv) - fdev {
            k
        } else {
            (k + 1) as u8
        }
    &&& forall|j: u8|
        abs_diff(spec_compute_fdev(xtal_freq, mantissa, exponent, band_factor, refdiv), fdev as int)
            <= #[trigger] abs_diff(
            spec_compute_fdev(xtal_freq, j, exponent, band_factor, refdiv),
            fdev as int,
        )
}

/// Encode a frequency deviation as (mantissa, exponent) for the MOD0 and MOD1 registers.
///
/// The exponent is the smallest whose largest deviation exceeds the target. The mantissa is
/// found by a descending scan: at the first mantissa whose deviation falls below the target,
/// it and the one above it are compared and the nearer wins, the one above on a tie.
pub fn encode_fdev(xtal_freq: u32, fdev: u32, band_factor: u32, refdiv: u32) -> (r: (u8, u8))
    requires
        valid_band_factor(band_factor),
        valid_refdiv(refdiv),
    ensures
        is_fdev_encoding(xtal_freq, fdev, band_factor, refdiv, r.0, r.1),
{
    let mut exponent: u8 = 0;
    while exponent < 15 && compute_fdev(xtal_freq, u8::MAX, exponent, band_factor, refdiv)
        <= fdev as u64
        invariant
            exponent <= 15,
            valid_band_factor(band_factor),
            valid_refdiv(refdiv),
            forall|e: u8| e < exponent ==> spec_compute_fdev(xtal_freq, u8::MAX, e, band_factor, refdiv) <= fdev,
        decreases 15 - exponent,
    {
        exponent = exponent + 1;
    }
    if compute_fdev(xtal_freq, u8::MAX, exponent, band_factor, refdiv) <= fdev as u64 {
        // No exponent reaches the target
        exponent = 0;
    }
    let ghost target = fdev as int;
    // Every mantissa at or above `next` gives at least the target.
    let mut next: u16 = 256;
    let mut prev_fdev: u64 = 0;
    while next > 0
        invariant
            is_fdev_exponent(xtal_freq, fdev, band_factor, refdiv, exponent),
            target == fdev as int,
            next <= 256,
            forall|j: u8| next <= j ==> spec_compute_fdev(xtal_freq, j, exponent, band_factor, refdiv) >= target,
            next < 256 ==> prev_fdev == spec_compute_fdev(xtal_freq, next as u8, exponent, band_factor, refdiv),
            valid_band_factor(band_factor),
            valid_refdiv(refdiv),
        decreases next,
    {
        let mantissa = (next - 1) as u8;
        let this_fdev = compute_fdev(xtal_freq, mantissa, exponent, band_factor, refdiv);
        if this_fdev < fdev as u64 {
            proof {
                if next < 256 {
                    assert(spec_compute_fdev(xtal_freq, next as u8, exponent, band_factor, refdiv) >= target);
                }
            }
            let pick_upper = next < 256 && fdev as u64 - this_fdev >= prev_fdev - fdev as u64;
            let chosen: u8 = if pick_upper { next as u8 } else { mantissa };
            proof {
                assert forall|k: u8|
                    #![trigger spec_compute_fdev(xtal_freq, k, exponent, band_factor, refdiv)]
                    spec_compute_fdev(xtal_freq, k, exponent, band_factor, refdiv) < target && (k == 255
                        || spec_compute_fdev(xtal_freq, (k + 1) as u8, exponent, band_factor, refdiv) >= target)
                        implies k == mantissa by {
                    if k < mantissa {
                        assert(spec_compute_fdev(xtal_freq, (k + 1) as u8, exponent, band_factor, refdiv) >= target);
                        lemma_fdev_monotone(xtal_freq, (k + 1) as u8, mantissa, exponent, band_factor, refdiv);
                    } else if k > mantissa {
                        assert(next <= k);
                        assert(spec_compute_fdev(xtal_freq, k, exponent, band_factor, refdiv) >= target);
                    }
                }
                lemma_fdev_monotone(xtal_freq, 0, mantissa, exponent, band_factor, refdiv);
                assert forall|j: u8|
                    abs_diff(spec_compute_fdev(xtal_freq, chosen, exponent, band_factor, refdiv), target)
                        <= #[trigger] abs_diff(spec_compute_fdev(xtal_freq, j, exponent, band_factor, refdiv), target) by {
                    if j <= mantissa {
                        lemma_fdev_monotone(xtal_freq, j, mantissa, exponent, band_factor, refdiv);
                    } else {
                        assert(spec_compute_fdev(xtal_freq, j, exponent, band_factor, refdiv) >= target);
                        lemma_fdev_monotone(xtal_freq, next as u8, j, exponent, band_factor, refdiv);
                    }
                }
            }
            return (chosen, exponent);
        }
        proof {
            assert forall|j: u8| next - 1 <= j implies spec_compute_fdev(xtal_freq, j, exponent, band_factor, refdiv) >= target by {
                if j == mantissa {
                    assert(this_fdev >= fdev);
                    assert(this_fdev == spec_compute_fdev(xtal_freq, j, exponent, band_factor, refdiv));
                } else {
                    assert(next <= j);
                }
            }
        }
        prev_fdev = this_fdev;
        next = next - 1;
    }
    proof {
        assert(spec_compute_fdev(xtal_freq, 0, exponent, band_factor, refdiv) >= target);
        assert forall|j: u8|
            abs_diff(spec_compute_fdev(xtal_freq, 0, exponent, band_factor, refdiv), target)
                <= #[trigger] abs_diff(spec_compute_fdev(xtal_freq, j, exponent, band_factor, refdiv), target) by {
            lemma_fdev_monotone(xtal_freq, 0, j, exponent, band_factor, refdiv);
        }
    }
    (0, exponent)
}

/// The number of entries of the channel filter table
pub const CHANNEL_FILTER_ENTRIES: usize = 90;

/// The channel filter table of the datasheet (Table 44), in units of 100 Hz at a 26 MHz
/// digital clock. Entry `i` is selected by exponent `i / 9` and mantissa `i % 9`.
pub open spec fn spec_channel_filter_word(index: usize) -> u16 {
    match index {
        0 => 8001,
        1 => 7951,
        2 => 7684,
        3 => 7368,
        4 => 7051,
        5 => 6709,
        6 => 6423,
        7 => 5867,
        8 => 5414,
        9 => 4509,
        10 => 4259,
        11 => 4032,
        12 => 3808,
        13 => 3621,
        14 => 3417,
        15 => 3254,
        16 => 2945,
        17 => 2703,
        18 => 2247,
        19 => 2124,
        20 => 2015,
        21 => 1900,
        22 => 1807,
        23 => 1706,
        24 => 1624,
        25 => 1471,
        26 => 1350,
        27 => 1123,
        28 => 1062,
        29 => 1005,
        30 => 950,
        31 => 903,
        32 => 853,
        33 => 812,
        34 => 735,
        35 => 675,
        36 => 561,
        37 => 530,
        38 => 502,
        39 => 474,
        40 => 451,
        41 => 426,
        42 => 406,
        43 => 367,
        44 => 337,
        45 => 280,
        46 => 265,
        47 => 251,
        48 => 237,
        49 => 226,
        50 => 213,
        51 => 203,
        52 => 184,
        53 => 169,
        54 => 140,
        55 => 133,
        56 => 126,
        57 => 119,
        58 => 113,
        59 => 106,
        60 => 101,
        61 => 92,
        62 => 84,
        63 => 70,
        64 => 66,
        65 => 63,
        66 => 59,
        67 => 56,
        68 => 53,
        69 => 51,
        70 => 46,
        71 => 42,
        72 => 35,
        73 => 33,
        74 => 31,
        75 => 30,
        76 => 28,
        77 => 27,
        78 => 25,
        79 => 23,
        80 => 21,
        81 => 18,
        82 => 17,
        83 => 16,
        84 => 15,
        85 => 14,
        86 => 13,
        87 => 13,
        88 => 12,
        89 => 11,
        _ => 0,
    }
}

/// An entry of the channel filter table
fn channel_filter_word(index: usize) -> (r: u16)
    requires
        index < CHANNEL_FILTER_ENTRIES,
    ensures
        r == spec_channel_filter_word(index),
        r <= 8001,
{
    match index {
        0 => 8001,
        1 => 7951,
        2 => 7684,
        3 => 7368,
        4 => 7051,
        5 => 6709,
        6 => 6423,
        7 => 5867,
        8 => 5414,
        9 => 4509,
        10 => 4259,
        11 => 4032,
        12 => 3808,
        13 => 3621,
        14 => 3417,
        15 => 3254,
        16 => 2945,
        17 => 2703,
        18 => 2247,
        19 => 2124,
        20 => 2015,
        21 => 1900,
        22 => 1807,
        23 => 1706,
        24 => 1624,
        25 => 1471,
        26 => 1350,
        27 => 1123,
        28 => 1062,
        29 => 1005,
        30 => 950,
        31 => 903,
        32 => 853,
        33 => 812,
        34 => 735,
        35 => 675,
        36 => 561,
        37 => 530,
        38 => 502,
        39 => 474,
        40 => 451,
        41 => 426,
        42 => 406,
        43 => 367,
        44 => 337,
        45 => 280,
        46 => 265,
        47 => 251,
        48 => 237,
        49 => 226,
        50 => 213,
        51 => 203,
        52 => 184,
        53 => 169,
        54 => 140,
        55 => 133,
        56 => 126,
        57 => 119,
        58 => 113,
        59 => 106,
        60 => 101,
        61 => 92,
        62 => 84,
        63 => 70,
        64 => 66,
        65 => 63,
        66 => 59,
        67 => 56,
        68 => 53,
        69 => 51,
        70 => 46,
        71 => 42,
        72 => 35,
        73 => 33,
        74 => 31,
        75 => 30,
        76 => 28,
        77 => 27,
        78 => 25,
        79 => 23,
        80 => 21,
        81 => 18,
        82 => 17,
        83 => 16,
        84 => 15,
        85 => 14,
        86 => 13,
        87 => 13,
        88 => 12,
        89 => 11,
        _ => 0,
    }
}

/// The bandwidth in Hz that a table entry gives at the given digital clock
pub open spec fn channel_filter_bandwidth(index: usize, dig_freq: u32) -> int {
    spec_channel_filter_word(index) * 100 * dig_freq / 26_000_000
}

/// The distance of a table entry's bandwidth to the target bandwidth
pub open spec fn channel_filter_distance(index: usize, target_bw: u32, dig_freq: u32) -> int {
    abs_diff(channel_filter_bandwidth(index, dig_freq), target_bw as int)
}

/// Whether `index` is the table entry nearest to the target bandwidth, the lowest such entry
/// where several are equally near
pub open spec fn is_nearest_channel_filter(index: usize, target_bw: u32, dig_freq: u32) -> bool {
    &&& index < CHANNEL_FILTER_ENTRIES
    &&& forall|j: usize|
        j < CHANNEL_FILTER_ENTRIES ==> channel_filter_distance(index, target_bw, dig_freq)
            <= #[trigger] channel_filter_distance(j, target_bw, dig_freq)
    &&& forall|j: usize|
        j < index ==> channel_filter_distance(index, target_bw, dig_freq)
            < #[trigger] channel_filter_distance(j, target_bw, dig_freq)
}

/// Search the channel filter table for the entry nearest to the target bandwidth and return
/// its register encoding: exponent `index / 9` and mantissa `index % 9`.
pub fn search_channel_filter_bandwidth(target_bw: u32, dig_freq: u32) -> (r: ChFlt)
    ensures
        r.ch_flt_m < 9,
        is_nearest_channel_filter((r.ch_flt_e * 9 + r.ch_flt_m) as usize, target_bw, dig_freq),
{
    let mut best_index: usize = 0;
    let mut best_diff: u32 = 0;
    let mut index: usize = 0;
    while index < CHANNEL_FILTER_ENTRIES
        invariant
            index <= CHANNEL_FILTER_ENTRIES,
            index > 0 ==> best_index < index,
            index > 0 ==> best_diff == channel_filter_distance(best_index, target_bw, dig_freq),
            index == 0 ==> best_index == 0,
            forall|j: usize|
                j < index ==> channel_filter_distance(best_index, target_bw, dig_freq)
                    <= #[trigger] channel_filter_distance(j, target_bw, dig_freq),
            forall|j: usize|
                j < best_index ==> channel_filter_distance(best_index, target_bw, dig_freq)
                    < #[trigger] channel_filter_distance(j, target_bw, dig_freq),
        decreases CHANNEL_FILTER_ENTRIES - index,
    {
        let word = channel_filter_word(index);
        assert(word * 100 * dig_freq <= 8001 * 100 * 0xffff_ffff) by (nonlinear_arith)
            requires word <= 8001;
        let bandwidth = (word as u64 * 100 * dig_freq as u64 / 26_000_000) as u32;
        let diff = if bandwidth >= target_bw {
            bandwidth - target_bw
        } else {
            target_bw - bandwidth
        };
        if index == 0 || diff < best_diff {
            best_index = index;
            best_diff = diff;
        }
        index = index + 1;
    }
    let e = (best_index / 9) as u8;
    let m = (best_index % 9) as u8;
    assert(e * 9 + m == best_index);
    ChFlt { ch_flt_e: e, ch_flt_m: m }
}

/// The radio configuration
#[derive(Debug, Clone, Copy, PartialEq, Eq)]
pub struct Config {
    /// The frequency of the crystal oscillator
    pub xtal_frequency: u32,
    /// Specifies the carrier frequency of channel 0 in Hz.
    ///
    /// Possible values:
    /// - High band (860 MHz - 940 MHz)
    /// - Middle band (430 MHz - 470 MHz)
    pub base_frequency: u32,
    /// The modulation the radio will use
    pub modulation: ModulationType,
    /// The datarate used in bps (100 bps - 500 kbps)
    pub datarate: u32,
    /// Frequency deviation in Hz. This is used for (G)FSK.
    ///
    /// - Min: `F_Xo * 8 / 0x40000`
    /// - Max: `F_Xo * 7680 / 0x40000 `
    pub frequency_deviation: u32,
    /// Channel (filter) bandwidth in Hz between 1100 Hz - 800100 Hz
    pub bandwidth: u32,
}

impl Default for Config {
    fn default() -> (r: Self)
        ensures
            r.xtal_frequency == 50_000_000,
            r.base_frequency == 868_000_000,
            r.modulation == ModulationType::Fsk2,
            r.datarate == 38_400,
            r.frequency_deviation == 20_000,
            r.bandwidth == 100_000,
    {
        Config {
            xtal_frequency: 50_000_000,
            base_frequency: 868_000_000,
            modulation: ModulationType::Fsk2,
            datarate: 38_400,
            frequency_deviation: 20_000,
            bandwidth: 100_000,
        }
    }
}

/// Reason given when the base frequency lies in neither band
pub const BASE_FREQUENCY_OUT_OF_RANGE: &'static str = "Base frequency out of range";

/// Reason given when the datarate is out of range
pub const DATARATE_OUT_OF_RANGE: &'static str = "Datarate out of range";

/// Reason given when the frequency deviation is out of range
pub const FREQUENCY_DEVIATION_OUT_OF_RANGE: &'static str = "Frequency deviation out of range";

/// Reason given when the channel bandwidth is out of range
pub const BANDWIDTH_OUT_OF_RANGE: &'static str = "Bandwidth out of range";

/// The digital clock a crystal gives once the init procedure has set the clock divider:
/// the crystal frequency up to the 30 MHz threshold, half of it above
pub open spec fn spec_config_digital_frequency(xtal_frequency: u32) -> u32 {
    if xtal_frequency > DIG_DOMAIN_XTAL_THRESH {
        (xtal_frequency / 2) as u32
    } else {
        xtal_frequency
    }
}

/// The digital clock a crystal gives once the init procedure has set the clock divider
pub fn config_digital_frequency(xtal_frequency: u32) -> (r: u32)
    ensures
        r == spec_config_digital_frequency(xtal_frequency),
{
    if xtal_frequency > DIG_DOMAIN_XTAL_THRESH {
        xtal_frequency / 2
    } else {
        xtal_frequency
    }
}

/// The outcome of the range checks that come before any bus access, in their order
pub open spec fn spec_validate_config<S, D, G>(config: Config) -> Result<(), Error<S, D, G>> {
    if !spec_is_frequency_band(config.base_frequency) {
        Err(Error::BadConfig { reason: BASE_FREQUENCY_OUT_OF_RANGE })
    } else if !spec_is_datarate(config.datarate, config.xtal_frequency) {
        Err(Error::BadConfig { reason: DATARATE_OUT_OF_RANGE })
    } else if !spec_is_f_dev(config.frequency_deviation, config.xtal_frequency) {
        Err(Error::BadConfig { reason: FREQUENCY_DEVIATION_OUT_OF_RANGE })
    } else if !spec_is_ch_bw(
        config.bandwidth,
        spec_config_digital_frequency(config.xtal_frequency),
    ) {
        Err(Error::BadConfig { reason: BANDWIDTH_OUT_OF_RANGE })
    } else {
        Ok(())
    }
}

/// Check the configuration's base frequency, datarate, frequency deviation and channel
/// bandwidth, in that order. The bandwidth is checked against the digital clock the crystal
/// gives ([config_digital_frequency]). This is the first step of the init procedure and
/// touches neither pins nor bus.
pub fn validate_config<S, D, G>(config: &Config) -> (r: Result<(), Error<S, D, G>>)
    ensures
        r == spec_validate_config::<S, D, G>(*config),
{
    if !is_frequency_band(config.base_frequency) {
        return Err(Error::BadConfig { reason: BASE_FREQUENCY_OUT_OF_RANGE });
    }
    if !is_datarate(config.datarate, config.xtal_frequency) {
        return Err(Error::BadConfig { reason: DATARATE_OUT_OF_RANGE });
    }
    if !is_f_dev(config.frequency_deviation, config.xtal_frequency) {
        return Err(Error::BadConfig { reason: FREQUENCY_DEVIATION_OUT_OF_RANGE });
    }
    if !is_ch_bw(config.bandwidth, config_digital_frequency(config.xtal_frequency)) {
        return Err(Error::BadConfig { reason: BANDWIDTH_OUT_OF_RANGE });
    }
    Ok(())
}

/// Whether the clock divider must be toggled: a slow crystal drives the digital domain
/// directly (divider off, `pd_clkdiv` set), a fast one through the divider.
pub open spec fn spec_clock_divider_toggle(xtal_frequency: u32, pd_clkdiv: bool) -> bool {
    (xtal_frequency < DIG_DOMAIN_XTAL_THRESH && !pd_clkdiv) || (xtal_frequency
        > DIG_DOMAIN_XTAL_THRESH && pd_clkdiv)
}

/// Whether the clock divider (PD_CLKDIV of XO_RCO_CONF1) must be toggled
pub fn clock_divider_toggle(xtal_frequency: u32, pd_clkdiv: bool) -> (r: bool)
    ensures
        r == spec_clock_divider_toggle(xtal_frequency, pd_clkdiv),
{
    (xtal_frequency < DIG_DOMAIN_XTAL_THRESH && !pd_clkdiv) || (xtal_frequency
        > DIG_DOMAIN_XTAL_THRESH && pd_clkdiv)
}

pub open spec fn spec_digital_frequency(xtal_frequency: u32, pd_clkdiv: bool) -> u32 {
    if pd_clkdiv {
        xtal_frequency
    } else {
        (xtal_frequency / 2) as u32
    }
}

/// The digital clock: the crystal frequency, halved while the divider is on
pub fn digital_frequency(xtal_frequency: u32, pd_clkdiv: bool) -> (r: u32)
    ensures
        r == spec_digital_frequency(xtal_frequency, pd_clkdiv),
{
    xtal_frequency / if pd_clkdiv {
        1
    } else {
        2
    }
}

/// The intermediate frequency in Hz the chip is set to
pub const IF_FREQUENCY: u64 = 300_000;

/// The IF offset register value for a clock `f`: `(IF * 2^13 * 3 / f - 100) mod 256`
pub open spec fn spec_if_offset(f: u32) -> int {
    ((IF_FREQUENCY * 8192 * 3) as int / f as int - 100) % 256
}

/// The IF offset register value for the given clock (crystal for the analog register,
/// digital clock for the digital one)
pub fn if_offset(f: u32) -> (r: u8)
    requires
        f > 0,
    ensures
        r == spec_if_offset(f),
{
    let q: u64 = IF_FREQUENCY * 8192 * 3 / f as u64;
    proof {
        lemma_mod_add_multiples_vanish(q - 100, 256);
    }
    ((q + 156) % 256) as u8
}

/// The synthesizer word: `round(f_base * 2^20 * (B/2) * D / fXO)`, cut to 32 bits
pub open spec fn spec_synt(base_frequency: u32, xtal_frequency: u32, band_factor: u32, refdiv: u32) -> u32 {
    ((base_frequency * pow2(20) * (band_factor / 2) * refdiv + xtal_frequency as int / 2)
        / xtal_frequency as int) as u32
}

/// The synthesizer word for the carrier frequency
pub fn compute_synt(base_frequency: u32, xtal_frequency: u32, band_factor: u32, refdiv: u32) -> (r: u32)
    requires
        xtal_frequency > 0,
        valid_band_factor(band_factor),
        valid_refdiv(refdiv),
    ensures
        r == spec_synt(base_frequency, xtal_frequency, band_factor, refdiv),
{
    let p = pow2_u64(20);
    proof {
        lemma2_to64();
    }
    assert(base_frequency * p * (band_factor / 2) * refdiv <= 0xffff_ffff * 0x10_0000 * 4 * 2) by (nonlinear_arith)
        requires p == 0x10_0000, band_factor <= 8, refdiv <= 2;
    assert(base_frequency * p <= 0xffff_ffff * 0x10_0000) by (nonlinear_arith)
        requires p == 0x10_0000;
    assert(base_frequency * p * (band_factor / 2) <= 0xffff_ffff * 0x10_0000 * 4) by (nonlinear_arith)
        requires p == 0x10_0000, band_factor <= 8;
    let synt_target = base_frequency as u64 * p * (band_factor / 2) as u64 * refdiv as u64;
    let synt = (synt_target + xtal_frequency as u64 / 2) / xtal_frequency as u64;
    #[verifier::truncate]
    (synt as u32)
}

/// The charge pump current (PLL_CP_ISEL) and PFD split (PLL_PFD_SPLIT_EN) for a VCO
/// frequency and reference frequency
pub open spec fn spec_charge_pump(vco_freq: u64, f_ref: u32) -> (u8, bool) {
    if vco_freq >= VCO_CENTER_FREQ {
        if f_ref >= DIG_DOMAIN_XTAL_THRESH {
            (2, false)
        } else {
            (1, true)
        }
    } else {
        if f_ref >= DIG_DOMAIN_XTAL_THRESH {
            (3, false)
        } else {
            (2, true)
        }
    }
}

/// The charge pump setting for a VCO frequency and reference frequency
pub fn charge_pump(vco_freq: u64, f_ref: u32) -> (r: (u8, bool))
    ensures
        r == spec_charge_pump(vco_freq, f_ref),
{
    if vco_freq >= VCO_CENTER_FREQ {
        if f_ref >= DIG_DOMAIN_XTAL_THRESH {
            (2, false)
        } else {
            (1, true)
        }
    } else {
        if f_ref >= DIG_DOMAIN_XTAL_THRESH {
            (3, false)
        } else {
            (2, true)
        }
    }
}

pub open spec fn spec_pa_fc(datarate: u32) -> PaFc {
    if datarate < 16000 {
        PaFc::Khz12P5
    } else if datarate < 32000 {
        PaFc::Khz25
    } else if datarate < 62500 {
        PaFc::Khz50
    } else {
        PaFc::Khz100
    }
}

/// The PA filter bandwidth for a datarate
pub fn pa_fc(datarate: u32) -> (r: PaFc)
    ensures
        r == spec_pa_fc(datarate),
{
    if datarate < 16000 {
        PaFc::Khz12P5
    } else if datarate < 32000 {
        PaFc::Khz25
    } else if datarate < 62500 {
        PaFc::Khz50
    } else {
        PaFc::Khz100
    }
}

/// The RF register settings the init procedure programs
#[derive(Debug, Clone, Copy, PartialEq, Eq)]
pub struct RfSettings {
    /// The digital clock the settings were computed for
    pub digital_frequency: u32,
    /// IF_OFFSET_ANA
    pub if_offset_ana: u8,
    /// IF_OFFSET_DIG
    pub if_offset_dig: u8,
    /// DATARATE_M
    pub datarate_mantissa: u16,
    /// DATARATE_E
    pub datarate_exponent: u8,
    /// MOD_TYPE
    pub modulation: ModulationType,
    /// BS: set in the middle band
    pub band_select_middle: bool,
    /// FDEV_M
    pub fdev_mantissa: u8,
    /// FDEV_E
    pub fdev_exponent: u8,
    /// CHFLT_E and CHFLT_M
    pub ch_flt: ChFlt,
    /// DIG_SMOOTH_EN and FIR_EN: set for OOK
    pub ook: bool,
    /// PA_FC
    pub pa_fc: PaFc,
    /// SYNT
    pub synt: u32,
    /// PLL_CP_ISEL
    pub pll_cp_isel: u8,
    /// PLL_PFD_SPLIT_EN
    pub pll_pfd_split_en: bool,
}

/// The reference divider D for the REFDIV bit
pub open spec fn refdiv_factor(refdiv: bool) -> u32 {
    if refdiv {
        2
    } else {
        1
    }
}

/// What the RF parameter fitter computes for a configuration whose bandwidth and datarate
/// fit the digital clock
pub open spec fn is_rf_fit(config: Config, pd_clkdiv: bool, refdiv: bool, s: RfSettings) -> bool {
    let df = spec_digital_frequency(config.xtal_frequency, pd_clkdiv);
    let band_factor = spec_band_factor(config.base_frequency);
    let d = refdiv_factor(refdiv);
    &&& s.digital_frequency == df
    &&& s.if_offset_ana == spec_if_offset(config.xtal_frequency)
    &&& s.if_offset_dig == spec_if_offset(df)
    &&& is_datarate_encoding(df, config.datarate, s.datarate_mantissa, s.datarate_exponent)
    &&& s.modulation == config.modulation
    &&& s.band_select_middle == spec_is_frequency_band_middle(config.base_frequency)
    &&& is_fdev_encoding(
        config.xtal_frequency,
        config.frequency_deviation,
        band_factor,
        d,
        s.fdev_mantissa,
        s.fdev_exponent,
    )
    &&& s.ch_flt.ch_flt_m < 9
    &&& is_nearest_channel_filter(
        (s.ch_flt.ch_flt_e * 9 + s.ch_flt.ch_flt_m) as usize,
        config.bandwidth,
        df,
    )
    &&& s.ook == (config.modulation == ModulationType::AskOok)
    &&& s.pa_fc == spec_pa_fc(config.datarate)
    &&& s.synt == spec_synt(config.base_frequency, config.xtal_frequency, band_factor, d)
    &&& (s.pll_cp_isel, s.pll_pfd_split_en) == spec_charge_pump(
        (config.base_frequency * band_factor) as u64,
        (config.xtal_frequency / d) as u32,
    )
}

/// Run the RF parameter fitter for a configuration that passed [validate_config], with the
/// clock divider bit as it stands after the divider step and the chip's REFDIV bit.
///
/// Fails with `BadConfig` when the bandwidth lies out of the digital clock's range (which
/// can differ from the clock [validate_config] assumes only for a crystal of exactly 30 MHz,
/// where the divider is left as the chip has it), or when the datarate is beyond what any
/// exponent can encode at that clock.
#[verifier::rlimit(50)]
pub fn fit_rf_settings<S, D, G>(config: &Config, pd_clkdiv: bool, refdiv: bool) -> (r: Result<
    RfSettings,
    Error<S, D, G>,
>)
    requires
        spec_validate_config::<S, D, G>(*config) is Ok,
    ensures
        ({
            let df = spec_digital_frequency(config.xtal_frequency, pd_clkdiv);
            match r {
                Err(e) => e == (if !spec_is_ch_bw(config.bandwidth, df) {
                    Error::<S, D, G>::BadConfig { reason: BANDWIDTH_OUT_OF_RANGE }
                } else {
                    Error::<S, D, G>::BadConfig { reason: DATARATE_OUT_OF_RANGE }
                }) && (!spec_is_ch_bw(config.bandwidth, df) || config.datarate
                    > spec_compute_datarate(df, u16::MAX, 14)),
                Ok(s) => s.wf() && spec_is_ch_bw(config.bandwidth, df) && config.datarate
                    <= spec_compute_datarate(df, u16::MAX, 14) && is_rf_fit(
                    *config,
                    pd_clkdiv,
                    refdiv,
                    s,
                ),
            }
        }),
{
    let xtal = config.xtal_frequency;
    assert(xtal >= 2) by {
        if xtal < 2 {
            assert(MAXIMUM_DATARATE * xtal / 1000000 / 26 == 0);
        }
    }
    let df = digital_frequency(xtal, pd_clkdiv);
    if !is_ch_bw(config.bandwidth, df) {
        return Err(Error::BadConfig { reason: BANDWIDTH_OUT_OF_RANGE });
    }
    if config.datarate > compute_datarate(df, u16::MAX, 14) {
        return Err(Error::BadConfig { reason: DATARATE_OUT_OF_RANGE });
    }
    let if_offset_ana = if_offset(xtal);
    let if_offset_dig = if_offset(df);
    let (datarate_mantissa, datarate_exponent) = encode_datarate(df, config.datarate);
    let band_factor = get_band_factor(config.base_frequency);
    let d: u32 = if refdiv { 2 } else { 1 };
    let (fdev_mantissa, fdev_exponent) = encode_fdev(xtal, config.frequency_deviation, band_factor, d);
    let ch_flt = search_channel_filter_bandwidth(config.bandwidth, df);
    let synt = compute_synt(config.base_frequency, xtal, band_factor, d);
    assert(config.base_frequency * band_factor <= 0xffff_ffff * 8) by (nonlinear_arith)
        requires band_factor <= 8;
    let vco_freq = config.base_frequency as u64 * band_factor as u64;
    let (pll_cp_isel, pll_pfd_split_en) = charge_pump(vco_freq, xtal / d);
    let ook = match config.modulation {
        ModulationType::AskOok => true,
        _ => false,
    };
    Ok(RfSettings {
        digital_frequency: df,
        if_offset_ana,
        if_offset_dig,
        datarate_mantissa,
        datarate_exponent,
        modulation: config.modulation,
        band_select_middle: is_frequency_band_middle(config.base_frequency),
        fdev_mantissa,
        fdev_exponent,
        ch_flt,
        ook,
        pa_fc: pa_fc(config.datarate),
        synt,
        pll_cp_isel,
        pll_pfd_split_en,
    })
}

impl RfSettings {
    /// Whether every field fits its register field
    pub open spec fn wf(self) -> bool {
        &&& self.datarate_exponent < 16
        &&& self.fdev_exponent < 16
        &&& self.ch_flt.ch_flt_e < 16
        &&& self.ch_flt.ch_flt_m < 16
        &&& self.pll_cp_isel < 8
    }

    /// The register operations that program the settings, in the order of the datasheet's
    /// setup: IF offsets, datarate and modulation, band select, frequency deviation, channel
    /// filter, OOK smoothing, PA filter, AFC freeze on sync, then the synthesizer word with
    /// the charge pump
    pub open spec fn spec_register_ops(self) -> Seq<RegOp> {
        seq![
            RegOp::Write { address: IF_OFFSET_ANA, value: self.if_offset_ana },
            RegOp::Write { address: IF_OFFSET_DIG, value: self.if_offset_dig },
            RegOp::Write { address: MOD4, value: (self.datarate_mantissa / 256) as u8 },
            RegOp::Write { address: MOD3, value: (self.datarate_mantissa % 256) as u8 },
            RegOp::Write {
                address: MOD2,
                value: (self.modulation.spec_code() * 16 + self.datarate_exponent) as u8,
            },
            RegOp::Modify {
                address: SYNT3,
                mask: 0x10,
                value: if self.band_select_middle { 0x10 } else { 0 },
            },
            RegOp::Modify { address: MOD1, mask: 0x0F, value: self.fdev_exponent },
            RegOp::Write { address: MOD0, value: self.fdev_mantissa },
            RegOp::Write {
                address: CH_FLT,
                value: (self.ch_flt.ch_flt_m * 16 + self.ch_flt.ch_flt_e) as u8,
            },
            RegOp::Modify { address: PA_POWER0, mask: 0x80, value: if self.ook { 0x80 } else { 0 } },
            RegOp::Modify { address: PA_CONFIG1, mask: 0x02, value: if self.ook { 0x02 } else { 0 } },
            RegOp::Modify { address: PA_CONFIG0, mask: 0x03, value: self.pa_fc.spec_code() },
            RegOp::Modify { address: AFC2, mask: 0x80, value: 0x80 },
            RegOp::Modify {
                address: SYNTH_CONFIG2,
                mask: 0x04,
                value: if self.pll_pfd_split_en { 0x04 } else { 0 },
            },
            RegOp::Modify {
                address: SYNT3,
                mask: 0xEF,
                value: (self.pll_cp_isel * 32 + self.synt / 0x100_0000 % 16) as u8,
            },
            RegOp::Write { address: SYNT2, value: (self.synt / 0x1_0000 % 256) as u8 },
            RegOp::Write { address: SYNT1, value: (self.synt / 256 % 256) as u8 },
            RegOp::Write { address: SYNT0, value: (self.synt % 256) as u8 },
        ]
    }

    /// The register operations that program the settings
    pub fn register_ops(&self) -> (r: Vec<RegOp>)
        requires
            self.wf(),
        ensures
            r@ == self.spec_register_ops(),
    {
        let mut ops: Vec<RegOp> = Vec::new();
        ops.push(RegOp::Write { address: IF_OFFSET_ANA, value: self.if_offset_ana });
        ops.push(RegOp::Write { address: IF_OFFSET_DIG, value: self.if_offset_dig });
        ops.push(RegOp::Write { address: MOD4, value: (self.datarate_mantissa / 256) as u8 });
        ops.push(RegOp::Write { address: MOD3, value: (self.datarate_mantissa % 256) as u8 });
        ops.push(
            RegOp::Write { address: MOD2, value: self.modulation.code() * 16 + self.datarate_exponent },
        );
        let bs: u8 = if self.band_select_middle { 0x10 } else { 0 };
        ops.push(RegOp::Modify { address: SYNT3, mask: 0x10, value: bs });
        ops.push(RegOp::Modify { address: MOD1, mask: 0x0F, value: self.fdev_exponent });
        ops.push(RegOp::Write { address: MOD0, value: self.fdev_mantissa });
        ops.push(
            RegOp::Write { address: CH_FLT, value: self.ch_flt.ch_flt_m * 16 + self.ch_flt.ch_flt_e },
        );
        let smooth: u8 = if self.ook { 0x80 } else { 0 };
        let fir: u8 = if self.ook { 0x02 } else { 0 };
        ops.push(RegOp::Modify { address: PA_POWER0, mask: 0x80, value: smooth });
        ops.push(RegOp::Modify { address: PA_CONFIG1, mask: 0x02, value: fir });
        ops.push(RegOp::Modify { address: PA_CONFIG0, mask: 0x03, value: self.pa_fc.code() });
        ops.push(RegOp::Modify { address: AFC2, mask: 0x80, value: 0x80 });
        let split: u8 = if self.pll_pfd_split_en { 0x04 } else { 0 };
        ops.push(RegOp::Modify { address: SYNTH_CONFIG2, mask: 0x04, value: split });
        ops.push(
            RegOp::Modify {
                address: SYNT3,
                mask: 0xEF,
                value: self.pll_cp_isel * 32 + (self.synt / 0x100_0000 % 16) as u8,
            },
        );
        ops.push(RegOp::Write { address: SYNT2, value: (self.synt / 0x1_0000 % 256) as u8 });
        ops.push(RegOp::Write { address: SYNT1, value: (self.synt / 256 % 256) as u8 });
        ops.push(RegOp::Write { address: SYNT0, value: (self.synt % 256) as u8 });
        assert(ops@ =~= self.spec_register_ops());
        ops
    }
}

/// How the init procedure waits for the chip to boot after the reset pulse
#[derive(Clone, Copy, Debug, PartialEq, Eq)]
pub enum BootWait {
    /// Wait for the gpio pin to go high: gpio 0 gives the power-on-reset signal
    PowerOnReset,
    /// Wait the worst case boot time
    DelayMs(u32),
}

/// The worst case boot time of the chip in milliseconds
pub const BOOT_DELAY_MS: u32 = 2;

/// How long the shutdown pin is held high for the reset pulse, in microseconds
pub const RESET_PULSE_US: u32 = 1;

/// How to wait for the chip to boot when the driver's interrupt pin is the given one
pub fn boot_wait(gpio_number: GpioNumber) -> (r: BootWait)
    ensures
        r == (if gpio_number == GpioNumber::Gpio0 {
            BootWait::PowerOnReset
        } else {
            BootWait::DelayMs(BOOT_DELAY_MS)
        }),
{
    match gpio_number {
        GpioNumber::Gpio0 => BootWait::PowerOnReset,
        _ => BootWait::DelayMs(BOOT_DELAY_MS),
    }
}

/// Check the chip version read from DEVICE_INFO0 after the reset
pub fn check_chip_version<S, D, G>(version: u8) -> (r: Result<(), Error<S, D, G>>)
    ensures
        r == (if version == CHIP_VERSION {
            Ok(())
        } else {
            Err(Error::<S, D, G>::Init)
        }),
{
    if version == CHIP_VERSION {
        Ok(())
    } else {
        Err(Error::Init)
    }
}

/// The gpio setting of the driver's interrupt pin: a low power output carrying the IRQ
pub fn irq_pin_op(gpio_number: GpioNumber) -> (r: RegOp)
    ensures
        r == (RegOp::Write {
            address: (GPIO0_CONF + gpio_number.spec_index()) as u8,
            value: (GpioFunction::Output { high_power: false, select: GpioSelectOutput::Irq }).spec_conf(),
        }),
{
    set_gpio_function(gpio_number, GpioFunction::Output { high_power: false, select: GpioSelectOutput::Irq })
}

/// The PD_CLKDIV bit (bit 4) of XO_RCO_CONF1
pub fn pd_clkdiv_bit(xo_rco_conf_1: u8) -> (r: bool)
    ensures
        r == (xo_rco_conf_1 / 16 % 2 == 1),
{
    xo_rco_conf_1 / 16 % 2 == 1
}

/// The write of PD_CLKDIV
pub fn pd_clkdiv_op(pd_clkdiv: bool) -> (r: RegOp)
    ensures
        r == (RegOp::Modify { address: XO_RCO_CONF1, mask: 0x10, value: if pd_clkdiv { 0x10 } else { 0 } }),
{
    RegOp::Modify { address: XO_RCO_CONF1, mask: 0x10, value: if pd_clkdiv { 0x10 } else { 0 } }
}

/// The REFDIV bit (bit 3) of XO_RCO_CONF0
pub fn refdiv_bit(xo_rco_conf_0: u8) -> (r: bool)
    ensures
        r == (xo_rco_conf_0 / 8 % 2 == 1),
{
    xo_rco_conf_0 / 8 % 2 == 1
}

/// Turn the RC oscillator calibration on (RCO_CALIBRATION, bit 0 of XO_RCO_CONF0)
pub fn rco_calibration_op() -> (r: RegOp)
    ensures
        r == (RegOp::Modify { address: XO_RCO_CONF0, mask: 0x01, value: 0x01 }),
{
    RegOp::Modify { address: XO_RCO_CONF0, mask: 0x01, value: 0x01 }
}

/// Keep the FIFO contents in sleep (SLEEP_MODE_SEL of PM_CONF0), which CSMA/CA needs
pub fn fifo_retention_op() -> (r: RegOp)
    ensures
        r == (RegOp::Modify { address: PM_CONF0, mask: 0x01, value: 0x01 }),
{
    RegOp::Modify { address: PM_CONF0, mask: 0x01, value: 0x01 }
}

/// The name given when MC_STATE0 holds no known state
pub const STATE_NAME: &'static str = "State";

/// Whether an MC_STATE0 value shows the state the caller waits for; an unknown state is an
/// error
pub fn state_reached<S, D, G>(mc_state_0: u8, target: State) -> (r: Result<bool, Error<S, D, G>>)
    ensures
        r == (match State::spec_from_code(mc_state_0 / 2) {
            Some(state) => Ok(state == target),
            None => Err(Error::<S, D, G>::ConversionError { name: STATE_NAME }),
        }),
{
    match State::from_mc_state_0(mc_state_0) {
        Some(state) => Ok(state == target),
        None => Err(Error::ConversionError { name: STATE_NAME }),
    }
}

/// The outcome of the RC oscillator calibration from an MC_STATE1 value: done when RCO_CAL_OK
/// (bit 4) is set, failed when ERROR_LOCK (bit 0) is, still running otherwise
pub fn rco_calibration_status<S, D, G>(mc_state_1: u8) -> (r: Option<Result<(), Error<S, D, G>>>)
    ensures
        r == (if mc_state_1 / 16 % 2 == 1 {
            Some(Ok(()))
        } else if mc_state_1 % 2 == 1 {
            Some(Err(Error::<S, D, G>::RcoLockError))
        } else {
            None
        }),
{
    if mc_state_1 / 16 % 2 == 1 {
        Some(Ok(()))
    } else if mc_state_1 % 2 == 1 {
        Some(Err(Error::RcoLockError))
    } else {
        None
    }
}

impl Shutdown {
    /// The radio in shutdown
    pub fn new() -> (r: Shutdown) {
        Shutdown
    }

    /// Leave shutdown once the init procedure has programmed the RF settings
    pub fn into_ready(self, settings: &RfSettings) -> (r: Ready<Uninitialized>)
        ensures
            r.spec_digital_frequency() == settings.digital_frequency,
    {
        Ready::new(settings.digital_frequency)
    }
}

} // verus!

//! Baud-rate divisor encoding for the FTDI chip generations.
//!
//! The chips derive the line rate from a base clock through a divisor with
//! three fractional bits. The fractional eighth is sent as a 3-bit code that
//! sits above the 14-bit integer part of the divisor.
use vstd::prelude::*;
use vstd::arithmetic::div_mod::{
    lemma_div_by_multiple, lemma_div_is_ordered, lemma_div_is_ordered_by_denominator,
    lemma_fundamental_div_mod,
};
use vstd::arithmetic::mul::lemma_mul_strict_inequality_converse;
use crate::constants::ftdi_chip_type;

verus! {

/// Base clock of the high-speed chips, in Hz.
pub const H_CLK: i32 = 120000000;

/// Base clock of the full-speed path, in Hz.
pub const C_CLK: i32 = 48000000;

/// The 3-bit code sent for each fractional eighth of a divisor.
pub open spec fn frac_code(k: int) -> int {
    if k == 0 {
        0
    } else if k == 1 {
        3
    } else if k == 2 {
        2
    } else if k == 3 {
        4
    } else if k == 4 {
        1
    } else if k == 5 {
        5
    } else if k == 6 {
        6
    } else {
        7
    }
}

/// The divisor `d`, counted in eighths, as the chip reads it: the integer
/// part `d >> 3` in the low 14 bits and the fraction code from bit 14 on.
pub open spec fn pack_divisor(d: int) -> int {
    d / 8 + frac_code(d % 8) * 0x4000
}

/// How far an AM divisor is lowered to reach a fraction the AM chip supports.
pub open spec fn am_adjust_dn(k: int) -> int {
    if k == 3 {
        1
    } else if k == 5 {
        1
    } else if k == 6 {
        2
    } else if k == 7 {
        3
    } else {
        0
    }
}

/// How far an AM divisor is raised to reach a fraction the AM chip supports.
pub open spec fn am_adjust_up(k: int) -> int {
    if k == 3 {
        1
    } else if k == 5 {
        3
    } else if k == 6 {
        2
    } else if k == 7 {
        1
    } else {
        0
    }
}

/// `24 MHz / baud` in eighths, rounded down to a supported fraction.
pub open spec fn am_base_divisor(baud: int) -> int {
    let d = 24000000int / baud;
    d - am_adjust_dn(d % 8)
}

/// The `i`-th divisor tried from `base`: raised to a supported value, with
/// 9 to 15 (unsupported on AM) taken as 16 and the result kept in `[8, 0x1FFF8]`.
pub open spec fn am_candidate(base: int, i: int) -> int {
    let t = base + i;
    if t <= 8 {
        8
    } else if base < 16 {
        16
    } else if t + am_adjust_up(t % 8) > 0x1FFF8 {
        0x1FFF8
    } else {
        t + am_adjust_up(t % 8)
    }
}

/// The baud rate that an AM divisor gives, rounded to the nearest integer.
pub open spec fn am_estimate(d: int) -> int {
    (24000000 + d / 2) / d
}

pub open spec fn abs_diff(a: int, b: int) -> int {
    if a < b {
        b - a
    } else {
        a - b
    }
}

/// The better of the two AM candidates: the second wins only when it is
/// strictly closer to the request.
pub open spec fn am_best_divisor(baud: int) -> int {
    let base = am_base_divisor(baud);
    let c0 = am_candidate(base, 0);
    let c1 = am_candidate(base, 1);
    if abs_diff(am_estimate(c1), baud) < abs_diff(am_estimate(c0), baud) {
        c1
    } else {
        c0
    }
}

/// The two encodings that the chip reads specially: 1 is sent as 0
/// (3 000 000 baud) and 0x4001 as 1 (2 000 000 baud, BM and later).
pub open spec fn am_special_case(e: int) -> int {
    if e == 1 {
        0
    } else if e == 0x4001 {
        1
    } else {
        e
    }
}

/// The encoded divisor that the AM algorithm sends for `baud`.
pub open spec fn am_encoded_divisor(baud: int) -> int {
    am_special_case(pack_divisor(am_best_divisor(baud)))
}

/// The baud rate that the AM algorithm reaches for `baud`.
pub open spec fn am_achieved(baud: int) -> int {
    am_estimate(am_best_divisor(baud))
}

/// `x / 2`, rounded half up.
pub open spec fn round_half(x: int) -> int {
    if x % 2 == 1 {
        x / 2 + 1
    } else {
        x / 2
    }
}

/// The general high-speed divisor in eighths: `clk*16/clk_div/baud` halved,
/// rounded half up, and held to at most 0x1FFFF.
pub open spec fn hs_best_divisor(baud: int, clk: int, clk_div: int) -> int {
    let d = round_half(clk * 16 / clk_div / baud);
    if d > 0x20000 {
        0x1ffff
    } else {
        d
    }
}

/// The encoded divisor of the high-speed algorithm: clk/1, clk/1.5 and clk/2
/// are sent as 0, 1 and 2; any slower rate as a packed divisor.
pub open spec fn hs_encoded_divisor(baud: int, clk: int, clk_div: int) -> int {
    if baud >= clk / clk_div {
        0
    } else if baud >= clk / (clk_div + clk_div / 2) {
        1
    } else if baud >= clk / (2 * clk_div) {
        2
    } else {
        pack_divisor(hs_best_divisor(baud, clk, clk_div))
    }
}

/// The baud rate that the high-speed algorithm reaches for `baud`.
pub open spec fn hs_achieved(baud: int, clk: int, clk_div: int) -> int {
    if baud >= clk / clk_div {
        clk / clk_div
    } else if baud >= clk / (clk_div + clk_div / 2) {
        clk / (clk_div + clk_div / 2)
    } else if baud >= clk / (2 * clk_div) {
        clk / (2 * clk_div)
    } else {
        round_half(clk * 16 / clk_div / hs_best_divisor(baud, clk, clk_div))
    }
}

fn frac_code_of(k: i64) -> (r: i64)
    requires
        0 <= k < 8,
    ensures
        r == frac_code(k as int),
{
    match k {
        0 => 0,
        1 => 3,
        2 => 2,
        3 => 4,
        4 => 1,
        5 => 5,
        6 => 6,
        _ => 7,
    }
}

fn am_adjust_dn_of(k: i64) -> (r: i64)
    requires
        0 <= k < 8,
    ensures
        r == am_adjust_dn(k as int),
{
    match k {
        3 => 1,
        5 => 1,
        6 => 2,
        7 => 3,
        _ => 0,
    }
}

fn am_adjust_up_of(k: i64) -> (r: i64)
    requires
        0 <= k < 8,
    ensures
        r == am_adjust_up(k as int),
{
    match k {
        3 => 1,
        5 => 3,
        6 => 2,
        7 => 1,
        _ => 0,
    }
}

/// Packs a divisor counted in eighths.
fn pack_divisor_of(d: i64) -> (r: i64)
    requires
        0 <= d <= 0x20000,
    ensures
        r == pack_divisor(d as int),
        0 <= r <= 0x1FFFF,
{
    d / 8 + frac_code_of(d % 8) * 0x4000
}

fn am_candidate_of(base: i64, i: i64) -> (r: i64)
    requires
        0 <= base <= 24000000,
        0 <= i <= 1,
    ensures
        r == am_candidate(base as int, i as int),
        8 <= r <= 0x1FFF8,
{
    let t = base + i;
    if t <= 8 {
        8
    } else if base < 16 {
        16
    } else {
        let u = t + am_adjust_up_of(t % 8);
        if u > 0x1FFF8 {
            0x1FFF8
        } else {
            u
        }
    }
}

fn am_estimate_of(d: i64) -> (r: i64)
    requires
        8 <= d <= 0x1FFF8,
    ensures
        r == am_estimate(d as int),
        0 <= r <= 3000000,
{
    let r = (24000000 + d / 2) / d;
    assert(r <= 3000000) by (nonlinear_arith)
        requires
            8 <= d <= 0x1FFF8,
            r as int == (24000000int + d as int / 2) / d as int,
    ;
    r
}

/// Converts a requested baud rate for an AM chip (and the other chips of the
/// 3 MHz family) into an encoded divisor and the baud rate that it reaches.
/// The first value is the encoded divisor, the second the reached rate.
pub fn ftdi_to_clkbits_am(baudrate: i32) -> (r: (u32, i32))
    requires
        baudrate > 0,
    ensures
        r.0 as int == am_encoded_divisor(baudrate as int),
        r.1 as int == am_achieved(baudrate as int),
        0 <= r.0 <= 0x1FFFF,
{
    let baud = baudrate as i64;
    let d = 24000000i64 / baud;
    assert(0 <= d <= 24000000) by (nonlinear_arith)
        requires
            baud >= 1,
            d as int == 24000000int / baud as int,
    ;
    let base = d - am_adjust_dn_of(d % 8);
    let c0 = am_candidate_of(base, 0);
    let c1 = am_candidate_of(base, 1);
    let e0 = am_estimate_of(c0);
    let e1 = am_estimate_of(c1);
    let diff0 = if e0 < baud { baud - e0 } else { e0 - baud };
    let diff1 = if e1 < baud { baud - e1 } else { e1 - baud };
    let (best, best_baud) = if diff1 < diff0 { (c1, e1) } else { (c0, e0) };
    let packed = pack_divisor_of(best);
    let encoded = if packed == 1 {
        0
    } else if packed == 0x4001 {
        1
    } else {
        packed
    };
    (encoded as u32, best_baud as i32)
}

/// Converts a requested baud rate, given a base clock and clock divider,
/// into an encoded divisor and the baud rate that it reaches. The clock
/// times 16 must fit in an `i32`.
pub fn ftdi_to_clkbits(baudrate: i32, clk: i32, clk_div: i32) -> (r: (u32, i32))
    requires
        baudrate > 0,
        clk > 0,
        clk_div > 0,
        clk * 16 <= i32::MAX,
    ensures
        r.0 as int == hs_encoded_divisor(baudrate as int, clk as int, clk_div as int),
        r.1 as int == hs_achieved(baudrate as int, clk as int, clk_div as int),
        0 <= r.0 <= 0x1FFFF,
{
    let baud = baudrate as i64;
    let clk = clk as i64;
    let clk_div = clk_div as i64;
    let q1 = clk / clk_div;
    let q15 = clk / (clk_div + clk_div / 2);
    let q2 = clk / (2 * clk_div);
    assert(q1 <= clk && q15 <= clk && q2 <= clk) by {
        lemma_div_is_ordered_by_denominator(clk as int, 1, clk_div as int);
        lemma_div_is_ordered_by_denominator(clk as int, 1, clk_div + clk_div / 2);
        lemma_div_is_ordered_by_denominator(clk as int, 1, 2 * clk_div);
    }
    if baud >= q1 {
        (0, q1 as i32)
    } else if baud >= q15 {
        (1, q15 as i32)
    } else if baud >= q2 {
        (2, q2 as i32)
    } else {
        let k = clk * 16 / clk_div;
        let ghost cd = clk_div as int;
        proof {
            lemma_fundamental_div_mod(clk as int, 2 * cd);
            lemma_fundamental_div_mod(clk * 16, cd);
            assert(0 <= (clk as int) % (2 * cd) && 0 <= (clk * 16) % cd < cd);
            assert((baud + 1) * (2 * cd) <= clk) by (nonlinear_arith)
                requires
                    baud + 1 <= q2,
                    clk == (2 * cd) * q2 + (clk as int) % (2 * cd),
                    0 <= (clk as int) % (2 * cd),
                    cd > 0,
            ;
            assert((32 * (baud + 1)) * cd < (k + 1) * cd) by (nonlinear_arith)
                requires
                    (baud + 1) * (2 * cd) <= clk,
                    clk * 16 == cd * k + (clk * 16) % cd,
                    (clk * 16) % cd < cd,
            ;
            lemma_mul_strict_inequality_converse(32 * (baud + 1), k + 1, cd);
            lemma_div_is_ordered(32 * baud, k as int, baud as int);
            lemma_div_by_multiple(32, baud as int);
            assert(32 * baud == 32int * baud);
            lemma_div_is_ordered_by_denominator(k as int, 1, baud as int);
            lemma_div_is_ordered_by_denominator(clk * 16, 1, cd);
        }
        let divisor = k / baud;
        assert(32 <= divisor <= k);
        let mut best_divisor = if divisor % 2 == 1 { divisor / 2 + 1 } else { divisor / 2 };
        if best_divisor > 0x20000 {
            best_divisor = 0x1ffff;
        }
        assert(16 <= best_divisor <= k);
        let b = k / best_divisor;
        proof {
            lemma_div_is_ordered_by_denominator(k as int, 1, best_divisor as int);
            lemma_div_is_ordered(best_divisor as int, k as int, best_divisor as int);
            lemma_div_by_multiple(1, best_divisor as int);
        }
        assert(1 <= b <= k);
        let best_baud = if b % 2 == 1 { b / 2 + 1 } else { b / 2 };
        assert(1 <= best_baud <= k <= i32::MAX);
        (pack_divisor_of(best_divisor) as u32, best_baud as i32)
    }
}

/// A baud-rate request as the chip takes it: the 16-bit `value` and `index`
/// of the set-baud-rate request, and the rate that they give.
#[derive(Copy, Clone, PartialEq, Eq, Structural, Debug)]
pub struct EncodedBaudRate {
    pub value: u16,
    pub index: u16,
    pub achieved: i32,
}

/// The chips with the 120 MHz clock and the divide-by-10 option.
pub open spec fn is_h_type(chip: ftdi_chip_type) -> bool {
    chip == ftdi_chip_type::TYPE_2232H || chip == ftdi_chip_type::TYPE_4232H || chip
        == ftdi_chip_type::TYPE_232H
}

/// A high-speed chip takes the 120 MHz clock over 10 when `baud * 10`
/// exceeds `H_CLK / 0x3fff`, and the 48 MHz clock over 16 otherwise.
pub open spec fn uses_clk_div10(baud: int) -> bool {
    baud * 10 > H_CLK as int / 0x3fff
}

/// The full divisor sent for `baud` on `chip`; bit 17 selects the clock over 10.
pub open spec fn encoded_divisor_for(baud: int, chip: ftdi_chip_type) -> int {
    if is_h_type(chip) {
        if uses_clk_div10(baud) {
            hs_encoded_divisor(baud, 120000000, 10) + 0x20000
        } else {
            hs_encoded_divisor(baud, 48000000, 16)
        }
    } else {
        am_encoded_divisor(baud)
    }
}

/// The baud rate that `chip` reaches when `baud` is requested.
pub open spec fn achieved_for(baud: int, chip: ftdi_chip_type) -> int {
    if is_h_type(chip) {
        if uses_clk_div10(baud) {
            hs_achieved(baud, 120000000, 10)
        } else {
            hs_achieved(baud, 48000000, 16)
        }
    } else {
        am_achieved(baud)
    }
}

/// The low 16 bits of the divisor travel as the request's value.
pub open spec fn divisor_value(e: int) -> int {
    e % 0x10000
}

/// Bits 16 and up of the divisor travel in the request's index: in its high
/// byte, beside the interface index, on the high-speed chips; alone otherwise.
pub open spec fn divisor_index(e: int, chip: ftdi_chip_type, interface_index: int) -> int {
    if is_h_type(chip) {
        (e / 0x10000) * 0x100 + interface_index
    } else {
        e / 0x10000
    }
}

/// Encodes `baudrate` for `chip`, with `interface_index` the index of the
/// selected interface. There is no encoding of a rate that is not positive.
pub fn ftdi_convert_baudrate(baudrate: i32, chip: ftdi_chip_type, interface_index: u8) -> (r:
    Option<EncodedBaudRate>)
    ensures
        r is None <==> baudrate <= 0,
        r matches Some(e) ==> {
            let d = encoded_divisor_for(baudrate as int, chip);
            &&& e.achieved as int == achieved_for(baudrate as int, chip)
            &&& e.value as int == divisor_value(d)
            &&& e.index as int == divisor_index(d, chip, interface_index as int)
        },
{
    if baudrate <= 0 {
        return None;
    }
    let h_type = match chip {
        ftdi_chip_type::TYPE_2232H | ftdi_chip_type::TYPE_4232H | ftdi_chip_type::TYPE_232H => true,
        _ => false,
    };
    let (encoded, achieved) = if h_type {
        if (baudrate as i64) * 10 > (H_CLK / 0x3fff) as i64 {
            let (e, a) = ftdi_to_clkbits(baudrate, H_CLK, 10);
            (e + 0x20000, a)
        } else {
            ftdi_to_clkbits(baudrate, C_CLK, 16)
        }
    } else {
        ftdi_to_clkbits_am(baudrate)
    };
    let value = (encoded % 0x10000) as u16;
    let index = if h_type {
        ((encoded / 0x10000) * 0x100 + interface_index as u32) as u16
    } else {
        (encoded / 0x10000) as u16
    };
    Some(EncodedBaudRate { value, index, achieved })
}

/// The tolerance test on a reached rate: positive, not below half the
/// request (which would mean an overflow), and within about 5% of the
/// request: `achieved * 21 >= requested * 20` from below,
/// `requested * 21 >= achieved * 20` from above.
pub open spec fn baudrate_accepted(requested: int, achieved: int) -> bool {
    &&& achieved > 0
    &&& achieved * 2 >= requested
    &&& if achieved < requested {
        achieved * 21 >= requested * 20
    } else {
        requested * 21 >= achieved * 20
    }
}

/// The reached rate is within 5% of the request.
pub open spec fn within_five_percent(requested: int, achieved: int) -> bool {
    abs_diff(achieved, requested) * 20 <= requested
}

/// Whether the rate `achieved` is close enough to `requested` to be set.
pub fn ftdi_baudrate_within_tolerance(requested: i32, achieved: i32) -> (r: bool)
    ensures
        r == baudrate_accepted(requested as int, achieved as int),
{
    let requested = requested as i64;
    let achieved = achieved as i64;
    if achieved <= 0 || achieved * 2 < requested {
        false
    } else if achieved < requested {
        achieved * 21 >= requested * 20
    } else {
        requested * 21 >= achieved * 20
    }
}

/// No rate outside 5% of the request passes the tolerance test: for every
/// chip generation and every request from 300 to 3 000 000 baud, the rate
/// that the encoder reaches is within 5%, or the test refuses it.
pub proof fn lemma_encoded_rate_tolerance(requested: int, chip: ftdi_chip_type)
    requires
        300 <= requested <= 3000000,
    ensures
        within_five_percent(requested, achieved_for(requested, chip)) || !baudrate_accepted(
            requested,
            achieved_for(requested, chip),
        ),
{
    lemma_accepted_is_within_five_percent(requested, achieved_for(requested, chip));
}

/// Any rate that passes the tolerance test is within 5% of the request.
pub proof fn lemma_accepted_is_within_five_percent(requested: int, achieved: int)
    requires
        requested > 0,
    ensures
        baudrate_accepted(requested, achieved) ==> within_five_percent(requested, achieved),
{
}

/// The AM encoding sends the divisor that packs to 1 as 0 (3 000 000 baud)
/// and the one that packs to 0x4001 as 1 (2 000 000 baud).
pub proof fn lemma_am_special_cases(baud: int)
    requires
        baud > 0,
    ensures
        pack_divisor(am_best_divisor(baud)) == 1 ==> am_encoded_divisor(baud) == 0,
        pack_divisor(am_best_divisor(baud)) == 0x4001 ==> am_encoded_divisor(baud) == 1,
{
}

} // verus!

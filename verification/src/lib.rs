//! Driver core for a combined pressure / humidity / temperature sensor that
//! sits behind a byte-addressable register interface.
//!
//! The crate decodes the factory calibration block, drives the device through
//! reset, identification, configuration and forced-mode measurement, and
//! converts raw ADC codes to physical values with the manufacturer's
//! fixed-point compensation formulas, reproduced operation for operation.
//! The byte transport and the delay provider are abstract: callers supply
//! them through the [`RegRead`], [`RegWrite`] and [`DelayProvider`] traits.
use vstd::prelude::*;

pub mod submodules;

pub use crate::submodules::registers::Oversampling;

use crate::submodules::registers::{
    Calib00_25, Calib26_41, CtrlHum, CtrlMeas, Id, Mode, RawMeasures, RegAddr, RegSize, Reset,
    Status,
};

verus! {

/// The 18 factory-programmed calibration coefficients, decoded from the two
/// raw calibration blocks.
pub struct CalibData {
    pub dig_t1: u16,
    pub dig_t2: i16,
    pub dig_t3: i16,
    pub dig_p1: u16,
    pub dig_p2: i16,
    pub dig_p3: i16,
    pub dig_p4: i16,
    pub dig_p5: i16,
    pub dig_p6: i16,
    pub dig_p7: i16,
    pub dig_p8: i16,
    pub dig_p9: i16,
    pub dig_h1: u8,
    pub dig_h2: i16,
    pub dig_h3: u8,
    pub dig_h4: i16,
    pub dig_h5: i16,
    pub dig_h6: i8,
}

/// The coefficients that the two calibration blocks decode to.
pub open spec fn spec_calib_data(c1: Calib00_25, c2: Calib26_41) -> CalibData {
    CalibData {
        dig_t1: c1.spec_dig_t1(),
        dig_t2: c1.spec_dig_t2(),
        dig_t3: c1.spec_dig_t3(),
        dig_p1: c1.spec_dig_p1(),
        dig_p2: c1.spec_dig_p2(),
        dig_p3: c1.spec_dig_p3(),
        dig_p4: c1.spec_dig_p4(),
        dig_p5: c1.spec_dig_p5(),
        dig_p6: c1.spec_dig_p6(),
        dig_p7: c1.spec_dig_p7(),
        dig_p8: c1.spec_dig_p8(),
        dig_p9: c1.spec_dig_p9(),
        dig_h1: c1.spec_dig_h1(),
        dig_h2: c2.spec_dig_h2(),
        dig_h3: c2.spec_dig_h3(),
        dig_h4: c2.spec_dig_h4(),
        dig_h5: c2.spec_dig_h5(),
        dig_h6: c2.spec_dig_h6(),
    }
}

impl CalibData {
    /// Decodes both calibration blocks into named coefficients. Every byte
    /// pattern decodes; plausibility of the coefficients is not checked.
    pub fn new(calib00_25: Calib00_25, calib26_41: Calib26_41) -> (r: Self)
        ensures
            r == spec_calib_data(calib00_25, calib26_41),
    {
        Self {
            dig_t1: calib00_25.get_dig_t1(),
            dig_t2: calib00_25.get_dig_t2(),
            dig_t3: calib00_25.get_dig_t3(),
            dig_p1: calib00_25.get_dig_p1(),
            dig_p2: calib00_25.get_dig_p2(),
            dig_p3: calib00_25.get_dig_p3(),
            dig_p4: calib00_25.get_dig_p4(),
            dig_p5: calib00_25.get_dig_p5(),
            dig_p6: calib00_25.get_dig_p6(),
            dig_p7: calib00_25.get_dig_p7(),
            dig_p8: calib00_25.get_dig_p8(),
            dig_p9: calib00_25.get_dig_p9(),
            dig_h1: calib00_25.get_dig_h1(),
            dig_h2: calib26_41.get_dig_h2(),
            dig_h3: calib26_41.get_dig_h3(),
            dig_h4: calib26_41.get_dig_h4(),
            dig_h5: calib26_41.get_dig_h5(),
            dig_h6: calib26_41.get_dig_h6(),
        }
    }
}

/// Register read capability: fills the buffer with consecutive bytes starting
/// at the given register address. Implemented by the surrounding environment
/// for the concrete bus (I2C, SPI, a test double).
pub trait RegRead {
    type Error;

    fn reg_read(&mut self, dev_addr: u8, reg_addr: u8, buf: &mut Vec<u8>) -> (r: Result<
        (),
        Self::Error,
    >)
        ensures
            final(buf).len() == old(buf).len(),
    ;
}

/// Register write capability: writes one byte to one register address.
pub trait RegWrite {
    type Error;

    fn reg_write(&mut self, dev_addr: u8, reg_addr: u8, data: u8) -> (r: Result<
        (),
        Self::Error,
    >);
}

/// Blocking delay capability, assumed infallible.
pub trait DelayProvider {
    fn delay_ms(&mut self, ms: u16);
}

/// Failures surfaced by the driver.
#[derive(Debug)]
pub enum Bme280Error<InterfaceE> {
    /// A transport call failed; the transport's own error is passed on
    /// verbatim, never interpreted or retried.
    Inteface(InterfaceE),
    /// The identity register did not hold the expected chip id.
    IdDoesNotMatch,
    /// The status register still reported a running conversion after the
    /// maximum number of polls. The device itself gives no completion bound,
    /// so the otherwise unbounded wait is cut off after a documented maximum
    /// number of attempts rather than left to spin forever.
    PollAttemptsExhausted,
}

} // verus!

verus! {

// ---------------------------------------------------------------------------
// Fixed-point values
// ---------------------------------------------------------------------------

/// The unsigned 32-bit word whose low 32 bits equal the two's-complement
/// pattern of `x`.
pub open spec fn spec_u32_of_i32(x: i32) -> u32 {
    if x < 0 {
        (x + 0x1_0000_0000) as u32
    } else {
        x as u32
    }
}

fn u32_of_i32(x: i32) -> (r: u32)
    ensures
        r == spec_u32_of_i32(x),
{
    if x < 0 {
        ((x as i64) + 0x1_0000_0000i64) as u32
    } else {
        x as u32
    }
}

/// The Q22.10 word that packing `int_part` into bits 31..10 and `frac` into
/// bits 9..0 produces; both fields are truncated to width, no rounding.
pub open spec fn spec_pack_q22f10(int_part: i32, frac: u32) -> u32 {
    ((spec_u32_of_i32(int_part) << 10u32) & 0xFFFF_FC00) | (frac & 0x3FF)
}

/// The Q24.8 word that packing `int_part` into bits 31..8 and `frac` into
/// bits 7..0 produces; both fields are truncated to width, no rounding.
pub open spec fn spec_pack_q24f8(int_part: i32, frac: u32) -> u32 {
    ((spec_u32_of_i32(int_part) << 8u32) & 0xFFFF_FF00) | (frac & 0xFF)
}

/// Signed Q22.10 fixed point: integer part in bits 31..10 (two's complement),
/// fraction in bits 9..0.
#[derive(PartialEq, Eq, Structural, Debug, Clone, Copy)]
pub struct I22F10(pub u32);

/// Signed Q24.8 fixed point: integer part in bits 31..8 (two's complement),
/// fraction in bits 7..0.
#[derive(PartialEq, Eq, Structural, Debug, Clone, Copy)]
pub struct I24F8(pub u32);

/// Bit pattern of the Q22.10 quotient: both operands' raw words are promoted
/// to 64 bits, the dividend is pre-scaled by 2^10, the integer quotient is
/// truncated back to 32 bits.
pub open spec fn spec_div_q22f10(a: u32, b: u32) -> u32 {
    ((a * 1024) / (b as int) % 0x1_0000_0000) as u32
}

/// Bit pattern of the Q24.8 quotient, pre-scaled by 2^8 in the same way.
pub open spec fn spec_div_q24f8(a: u32, b: u32) -> u32 {
    ((a * 256) / (b as int) % 0x1_0000_0000) as u32
}

impl I22F10 {
    /// Packs an integer part and a fraction; the integer part is truncated to
    /// 22 bits, the fraction to 10.
    pub fn new(int_part: i32, frac: u32) -> (r: Self)
        ensures
            r.0 == spec_pack_q22f10(int_part, frac),
    {
        let bits: u32 = u32_of_i32(int_part);
        proof {
            assert(((bits << 10u32) & 0xFFFF_FC00) == bits << 10u32) by (bit_vector);
        }
        I22F10((bits << 10) | (frac & 0x3FF))
    }

    /// Integer part: the two's-complement value of bits 31..10.
    pub fn get_int(&self) -> (r: i32)
        ensures
            r == (if self.0 / 0x400 >= 0x20_0000 {
                self.0 / 0x400 - 0x40_0000
            } else {
                (self.0 / 0x400) as int
            }),
    {
        let v: u32 = self.0 / 0x400;
        if v >= 0x20_0000 {
            ((v as i64) - 0x40_0000i64) as i32
        } else {
            v as i32
        }
    }

    /// Fractional part: bits 9..0, always read as unsigned.
    pub fn get_frac(&self) -> (r: u32)
        ensures
            r == self.0 % 0x400,
    {
        self.0 % 0x400
    }

    /// Fixed-point division; the divisor's raw word must not be zero, the
    /// caller is answerable for that just as for integer division.
    pub fn div(self, rhs: Self) -> (r: Self)
        requires
            rhs.0 != 0,
        ensures
            r.0 == spec_div_q22f10(self.0, rhs.0),
    {
        let q: u64 = ((self.0 as u64) * 1024) / (rhs.0 as u64);
        I22F10((q % 0x1_0000_0000u64) as u32)
    }
}

impl I24F8 {
    /// Packs an integer part and a fraction; the integer part is truncated to
    /// 24 bits, the fraction to 8.
    pub fn new(int_part: i32, frac: u32) -> (r: Self)
        ensures
            r.0 == spec_pack_q24f8(int_part, frac),
    {
        let bits: u32 = u32_of_i32(int_part);
        proof {
            assert(((bits << 8u32) & 0xFFFF_FF00) == bits << 8u32) by (bit_vector);
        }
        I24F8((bits << 8) | (frac & 0xFF))
    }

    /// Integer part: the two's-complement value of bits 31..8.
    pub fn get_int(&self) -> (r: i32)
        ensures
            r == (if self.0 / 0x100 >= 0x80_0000 {
                self.0 / 0x100 - 0x100_0000
            } else {
                (self.0 / 0x100) as int
            }),
    {
        let v: u32 = self.0 / 0x100;
        if v >= 0x80_0000 {
            ((v as i64) - 0x100_0000i64) as i32
        } else {
            v as i32
        }
    }

    /// Fractional part: bits 7..0, always read as unsigned.
    pub fn get_frac(&self) -> (r: u32)
        ensures
            r == self.0 % 0x100,
    {
        self.0 % 0x100
    }

    /// Fixed-point division; the divisor's raw word must not be zero.
    pub fn div(self, rhs: Self) -> (r: Self)
        requires
            rhs.0 != 0,
        ensures
            r.0 == spec_div_q24f8(self.0, rhs.0),
    {
        let q: u64 = ((self.0 as u64) * 256) / (rhs.0 as u64);
        I24F8((q % 0x1_0000_0000u64) as u32)
    }
}

/// Fixed-point division is true division within truncation error: as long as
/// the scaled quotient fits the 32-bit word, the Q24.8 quotient pattern `q`
/// of `a / b` satisfies `b*q <= 256*a < b*(q+1)`; read as rationals, the
/// result is within one unit in the last place below the exact ratio.
pub proof fn lemma_div_q24f8_within_one_ulp(a: u32, b: u32)
    requires
        b != 0,
        (a * 256) / (b as int) < 0x1_0000_0000,
    ensures
        b * spec_div_q24f8(a, b) <= a * 256,
        a * 256 < b * (spec_div_q24f8(a, b) + 1),
{
    let q = (a * 256) / (b as int);
    vstd::arithmetic::div_mod::lemma_fundamental_div_mod(a * 256, b as int);
    vstd::arithmetic::div_mod::lemma_mod_bound(a * 256, b as int);
    vstd::arithmetic::div_mod::lemma_div_of0(b as int);
    vstd::arithmetic::div_mod::lemma_div_is_ordered(0, a * 256, b as int);
    vstd::arithmetic::div_mod::lemma_small_mod(q as nat, 0x1_0000_0000nat);
    assert(spec_div_q24f8(a, b) == q);
    assert(b * (q + 1) == b * q + b) by (nonlinear_arith);
}

/// The same truncation law for the Q22.10 kind, with scale 1024.
pub proof fn lemma_div_q22f10_within_one_ulp(a: u32, b: u32)
    requires
        b != 0,
        (a * 1024) / (b as int) < 0x1_0000_0000,
    ensures
        b * spec_div_q22f10(a, b) <= a * 1024,
        a * 1024 < b * (spec_div_q22f10(a, b) + 1),
{
    let q = (a * 1024) / (b as int);
    vstd::arithmetic::div_mod::lemma_fundamental_div_mod(a * 1024, b as int);
    vstd::arithmetic::div_mod::lemma_mod_bound(a * 1024, b as int);
    vstd::arithmetic::div_mod::lemma_div_of0(b as int);
    vstd::arithmetic::div_mod::lemma_div_is_ordered(0, a * 1024, b as int);
    vstd::arithmetic::div_mod::lemma_small_mod(q as nat, 0x1_0000_0000nat);
    assert(spec_div_q22f10(a, b) == q);
    assert(b * (q + 1) == b * q + b) by (nonlinear_arith);
}

} // verus!

verus! {

// ---------------------------------------------------------------------------
// Compensation engine
// ---------------------------------------------------------------------------
//
// The three functions below reproduce the manufacturer's reference
// fixed-point algorithm operation for operation: same operation order, same
// intermediate widths, same shift amounts. Additions, subtractions and
// multiplications use two's-complement wrapping semantics, which agrees with
// the reference algorithm everywhere the intermediates stay in range; with
// implausible (garbage) calibration coefficients the wrapped values simply
// propagate silently, exactly as decoding places no plausibility bound on
// the coefficients.

/// The signed 32-bit value whose two's-complement pattern is `u`.
pub open spec fn spec_i32_of_u32(u: u32) -> i32 {
    if u >= 0x8000_0000 {
        (u - 0x1_0000_0000) as i32
    } else {
        u as i32
    }
}

fn i32_of_u32(u: u32) -> (r: i32)
    ensures
        r == spec_i32_of_u32(u),
{
    if u >= 0x8000_0000 {
        ((u as i64) - 0x1_0000_0000i64) as i32
    } else {
        u as i32
    }
}

/// The low 32 bits of a 64-bit word, as the unsigned pattern.
pub open spec fn spec_low32_of_i64(x: i64) -> u32 {
    (x & 0xFFFF_FFFFi64) as u32
}

fn low32_of_i64(x: i64) -> (r: u32)
    ensures
        r == spec_low32_of_i64(x),
{
    let m: i64 = x & 0xFFFF_FFFFi64;
    proof {
        assert(0i64 <= (x & 0xFFFF_FFFFi64) && (x & 0xFFFF_FFFFi64) < 0x1_0000_0000i64)
            by (bit_vector);
    }
    m as u32
}

/// Magnitude of a 64-bit signed value, as an unbounded integer.
pub open spec fn spec_abs_i64(x: i64) -> int {
    if x >= 0 {
        x as int
    } else {
        -(x as int)
    }
}

/// Quotient of 64-bit signed division, truncated toward zero as the machine
/// divides, with the one overflowing case (`i64::MIN / -1`) wrapped.
pub open spec fn spec_div_wrap_i64(a: i64, b: i64) -> i64 {
    if a == i64::MIN && b == -1 {
        i64::MIN
    } else {
        let q = spec_abs_i64(a) / spec_abs_i64(b);
        (if (a >= 0) == (b >= 0) {
            q
        } else {
            -q
        }) as i64
    }
}

/// Magnitude of a signed value as an unsigned word; well-defined even for
/// `i64::MIN`, whose magnitude does not fit the signed type.
fn abs_u64_of_i64(x: i64) -> (r: u64)
    ensures
        r as int == spec_abs_i64(x),
{
    if x >= 0 {
        x as u64
    } else {
        ((-(x + 1)) as u64) + 1
    }
}

/// Truncating 64-bit signed division, computed through unsigned magnitudes.
fn div_wrap_i64(a: i64, b: i64) -> (r: i64)
    requires
        b != 0,
    ensures
        r == spec_div_wrap_i64(a, b),
{
    if a == i64::MIN && b == -1 {
        i64::MIN
    } else {
        let ua: u64 = abs_u64_of_i64(a);
        let ub: u64 = abs_u64_of_i64(b);
        let uq: u64 = ua / ub;
        proof {
            vstd::arithmetic::div_mod::lemma_div_nonincreasing(ua as int, ub as int);
            if ua == 0x8000_0000_0000_0000 && ub >= 2 {
                vstd::arithmetic::div_mod::lemma_div_is_ordered_by_denominator(
                    ua as int,
                    2,
                    ub as int,
                );
            }
        }
        if (a >= 0) == (b >= 0) {
            uq as i64
        } else {
            if uq == 0x8000_0000_0000_0000u64 {
                i64::MIN
            } else {
                -(uq as i64)
            }
        }
    }
}

/// First temperature term of the reference algorithm.
pub open spec fn spec_t_var1(c: CalibData, adc_t: u32) -> i32 {
    ((adc_t >> 3u32) as i32).wrapping_sub((c.dig_t1 as i32) << 1u32).wrapping_mul(
        c.dig_t2 as i32,
    ) >> 11u32
}

/// Second temperature term of the reference algorithm.
pub open spec fn spec_t_var2(c: CalibData, adc_t: u32) -> i32 {
    let d = ((adc_t >> 4u32) as i32).wrapping_sub(c.dig_t1 as i32);
    (d.wrapping_mul(d) >> 12u32).wrapping_mul(c.dig_t3 as i32) >> 14u32
}

/// The temperature-compensation intermediate that pressure and humidity
/// compensation both take as an input.
pub open spec fn spec_t_fine(c: CalibData, adc_t: u32) -> i32 {
    spec_t_var1(c, adc_t).wrapping_add(spec_t_var2(c, adc_t))
}

/// Compensated temperature in centidegrees Celsius.
pub open spec fn spec_temperature(c: CalibData, adc_t: u32) -> i32 {
    spec_t_fine(c, adc_t).wrapping_mul(5).wrapping_add(128) >> 8u32
}

/// The pressure normalization term; a zero here short-circuits the whole
/// formula to a zero result, avoiding the division that follows.
pub open spec fn spec_p_var1(c: CalibData, t_fine: i32) -> i64 {
    let v = (t_fine as i64).wrapping_sub(128000);
    let w = (v.wrapping_mul(v).wrapping_mul(c.dig_p3 as i64) >> 8u32).wrapping_add(
        v.wrapping_mul(c.dig_p2 as i64) << 12u32,
    );
    // 140737488355328 is 2^47, the constant the reference algorithm adds
    (140737488355328i64.wrapping_add(w)).wrapping_mul(c.dig_p1 as i64) >> 33u32
}

/// The pressure offset term of the reference algorithm.
pub open spec fn spec_p_var2(c: CalibData, t_fine: i32) -> i64 {
    let v = (t_fine as i64).wrapping_sub(128000);
    v.wrapping_mul(v).wrapping_mul(c.dig_p6 as i64).wrapping_add(
        v.wrapping_mul(c.dig_p5 as i64) << 17u32,
    ).wrapping_add((c.dig_p4 as i64) << 35u32)
}

/// Compensated pressure as the raw Q24.8 word: the 32-bit truncation of the
/// 64-bit result, or zero when the normalization term is zero.
pub open spec fn spec_pressure(c: CalibData, t_fine: i32, adc_p: u32) -> u32 {
    let var1 = spec_p_var1(c, t_fine);
    if var1 == 0 {
        0u32
    } else {
        let var2 = spec_p_var2(c, t_fine);
        let p0 = (1048576i64).wrapping_sub(adc_p as i64);
        let p1 = spec_div_wrap_i64((p0 << 31u32).wrapping_sub(var2).wrapping_mul(3125), var1);
        let v1 = (c.dig_p9 as i64).wrapping_mul(p1 >> 13u32).wrapping_mul(p1 >> 13u32) >> 25u32;
        let v2 = (c.dig_p8 as i64).wrapping_mul(p1) >> 19u32;
        let pf = (p1.wrapping_add(v1).wrapping_add(v2) >> 8u32).wrapping_add(
            (c.dig_p7 as i64) << 4u32,
        );
        spec_low32_of_i64(pf)
    }
}

/// The humidity accumulator of the reference algorithm before clamping.
pub open spec fn spec_h_acc(c: CalibData, t_fine: i32, adc_h: u32) -> i32 {
    let v0 = t_fine.wrapping_sub(76800);
    let a = spec_i32_of_u32(adc_h << 14u32).wrapping_sub((c.dig_h4 as i32) << 20u32)
        .wrapping_sub((c.dig_h5 as i32).wrapping_mul(v0)).wrapping_add(16384) >> 15u32;
    let b = ((v0.wrapping_mul(c.dig_h6 as i32) >> 10u32).wrapping_mul(
        (v0.wrapping_mul(c.dig_h3 as i32) >> 11u32).wrapping_add(32768),
    ) >> 10u32).wrapping_add(2097152).wrapping_mul(c.dig_h2 as i32).wrapping_add(8192) >> 14u32;
    let val = a.wrapping_mul(b);
    val.wrapping_sub(
        ((val >> 15u32).wrapping_mul(val >> 15u32) >> 7u32).wrapping_mul(c.dig_h1 as i32)
            >> 4u32,
    )
}

/// The accumulator clamped into the closed range [0, 419430400], the
/// algorithm's internal scale for 0% and 100% relative humidity.
pub open spec fn spec_h_clamped(c: CalibData, t_fine: i32, adc_h: u32) -> i32 {
    let v = spec_h_acc(c, t_fine, adc_h);
    if v < 0 {
        0i32
    } else if v > 419430400 {
        419430400i32
    } else {
        v
    }
}

/// Compensated relative humidity as the raw Q22.10 word.
pub open spec fn spec_humidity(c: CalibData, t_fine: i32, adc_h: u32) -> u32 {
    (spec_h_clamped(c, t_fine, adc_h) >> 12u32) as u32
}

} // verus!

verus! {

/// Scaled temperature as handed out by a measurement: centidegrees packed
/// into Q22.10 and divided by 100 with the fixed-point division.
pub open spec fn spec_scaled_temperature(c: CalibData, adc_t: u32) -> I22F10 {
    I22F10(
        spec_div_q22f10(
            spec_pack_q22f10(spec_temperature(c, adc_t), 0),
            spec_pack_q22f10(100, 0),
        ),
    )
}

/// The full triple a measurement cycle returns for one set of raw ADC codes:
/// temperature is compensated first, and its `t_fine` intermediate feeds the
/// pressure and humidity formulas.
pub open spec fn spec_measurement(c: CalibData, adc_t: u32, adc_p: u32, adc_h: u32) -> (
    I22F10,
    I24F8,
    I22F10,
) {
    let t_fine = spec_t_fine(c, adc_t);
    (
        spec_scaled_temperature(c, adc_t),
        I24F8(spec_pressure(c, t_fine, adc_p)),
        I22F10(spec_humidity(c, t_fine, adc_h)),
    )
}

/// Oversampling selection for each measured quantity, applied once at
/// initialization.
pub struct Bme280Config {
    pub hum_oversampling: Oversampling,
    pub temp_oversampling: Oversampling,
    pub press_oversampling: Oversampling,
}

impl Default for Bme280Config {
    /// Every module disabled until the caller selects otherwise.
    fn default() -> (r: Self)
        ensures
            r.hum_oversampling == Oversampling::ModuleDisabled,
            r.temp_oversampling == Oversampling::ModuleDisabled,
            r.press_oversampling == Oversampling::ModuleDisabled,
    {
        Bme280Config {
            hum_oversampling: Oversampling::ModuleDisabled,
            temp_oversampling: Oversampling::ModuleDisabled,
            press_oversampling: Oversampling::ModuleDisabled,
        }
    }
}

/// A live device session: the transport, the device address, the decoded
/// calibration and the configuration applied at initialization.
pub struct Bme280<InterfaceT, DelayT> {
    interface: InterfaceT,
    dev_addr: u8,
    calib_data: CalibData,
    delay: DelayT,
    config: Bme280Config,
}

// The compensation formulas, from the manufacturer's reference algorithm.
impl<T1, T2> Bme280<T1, T2> {
    pub closed spec fn spec_dev_addr(&self) -> u8 {
        self.dev_addr
    }

    pub closed spec fn spec_calib(&self) -> CalibData {
        self.calib_data
    }

    pub closed spec fn spec_config(&self) -> Bme280Config {
        self.config
    }

    /// Temperature compensation: returns `(t_fine, centidegrees)`. Must run
    /// before pressure and humidity compensation, which both consume
    /// `t_fine`.
    pub fn compensate_t(calib_data: &CalibData, adc_t: u32) -> (r: (i32, i32))
        ensures
            r.0 == spec_t_fine(*calib_data, adc_t),
            r.1 == spec_temperature(*calib_data, adc_t),
    {
        proof {
            assert(adc_t >> 3u32 < 0x2000_0000u32) by (bit_vector);
            assert(adc_t >> 4u32 < 0x1000_0000u32) by (bit_vector);
        }
        let a3: i32 = (adc_t >> 3) as i32;
        let a4: i32 = (adc_t >> 4) as i32;
        let var1: i32 = a3.wrapping_sub((calib_data.dig_t1 as i32) << 1).wrapping_mul(
            calib_data.dig_t2 as i32,
        ) >> 11;
        let d: i32 = a4.wrapping_sub(calib_data.dig_t1 as i32);
        let var2: i32 = (d.wrapping_mul(d) >> 12).wrapping_mul(calib_data.dig_t3 as i32) >> 14;
        let t_fine: i32 = var1.wrapping_add(var2);
        let t: i32 = t_fine.wrapping_mul(5).wrapping_add(128) >> 8;
        (t_fine, t)
    }

    /// Pressure compensation in 64-bit arithmetic, returning the Q24.8 word.
    /// A zero normalization term short-circuits to a zero result before the
    /// division it would otherwise reach; this is the documented degenerate
    /// case, not an error.
    pub fn compensate_p(calib_data: &CalibData, t_fine: i32, adc_p: u32) -> (r: I24F8)
        ensures
            r.0 == spec_pressure(*calib_data, t_fine, adc_p),
            spec_p_var1(*calib_data, t_fine) == 0 ==> r.0 == 0,
    {
        let v: i64 = (t_fine as i64).wrapping_sub(128000);
        let mut var2: i64 = v.wrapping_mul(v).wrapping_mul(calib_data.dig_p6 as i64);
        var2 = var2.wrapping_add(v.wrapping_mul(calib_data.dig_p5 as i64) << 17);
        var2 = var2.wrapping_add((calib_data.dig_p4 as i64) << 35);
        let w: i64 = (v.wrapping_mul(v).wrapping_mul(calib_data.dig_p3 as i64) >> 8)
            .wrapping_add(v.wrapping_mul(calib_data.dig_p2 as i64) << 12);
        // 140737488355328 is 2^47, the constant the reference algorithm adds
        let var1: i64 = (140737488355328i64.wrapping_add(w)).wrapping_mul(
            calib_data.dig_p1 as i64,
        ) >> 33;
        if var1 == 0 {
            // avoid the division by zero further down
            return I24F8(0);
        }
        let p0: i64 = (1048576i64).wrapping_sub(adc_p as i64);
        let p1: i64 = div_wrap_i64((p0 << 31).wrapping_sub(var2).wrapping_mul(3125), var1);
        let v1: i64 = (calib_data.dig_p9 as i64).wrapping_mul(p1 >> 13).wrapping_mul(p1 >> 13)
            >> 25;
        let v2: i64 = (calib_data.dig_p8 as i64).wrapping_mul(p1) >> 19;
        let pf: i64 = (p1.wrapping_add(v1).wrapping_add(v2) >> 8).wrapping_add(
            (calib_data.dig_p7 as i64) << 4,
        );
        I24F8(low32_of_i64(pf))
    }

    /// Humidity compensation in 32-bit arithmetic, returning the Q22.10
    /// word. The accumulator is clamped into [0, 419430400] before the final
    /// shift, so the result never leaves [0, 102400].
    pub fn compensate_h(calib_data: &CalibData, t_fine: i32, adc_h: u32) -> (r: I22F10)
        ensures
            r.0 == spec_humidity(*calib_data, t_fine, adc_h),
            0 <= spec_h_clamped(*calib_data, t_fine, adc_h) <= 419430400,
            r.0 <= 102400,
    {
        let v0: i32 = t_fine.wrapping_sub(76800);
        let a: i32 = i32_of_u32(adc_h << 14).wrapping_sub((calib_data.dig_h4 as i32) << 20)
            .wrapping_sub((calib_data.dig_h5 as i32).wrapping_mul(v0)).wrapping_add(16384)
            >> 15;
        let b: i32 = ((v0.wrapping_mul(calib_data.dig_h6 as i32) >> 10).wrapping_mul(
            (v0.wrapping_mul(calib_data.dig_h3 as i32) >> 11).wrapping_add(32768),
        ) >> 10).wrapping_add(2097152).wrapping_mul(calib_data.dig_h2 as i32).wrapping_add(8192)
            >> 14;
        let val: i32 = a.wrapping_mul(b);
        let val2: i32 = val.wrapping_sub(
            ((val >> 15).wrapping_mul(val >> 15) >> 7).wrapping_mul(calib_data.dig_h1 as i32)
                >> 4,
        );
        let clamped: i32 = if val2 < 0 {
            0
        } else if val2 > 419430400 {
            419430400
        } else {
            val2
        };
        proof {
            assert(0i32 <= (clamped >> 12u32) && (clamped >> 12u32) <= 102400i32) by (bit_vector)
                requires
                    0i32 <= clamped && clamped <= 419430400i32,
            ;
        }
        let shifted: i32 = clamped >> 12;
        I22F10(shifted as u32)
    }
}

} // verus!

verus! {

// ---------------------------------------------------------------------------
// Device controller
// ---------------------------------------------------------------------------

/// How many times the measurement wait loop polls the status register before
/// giving up. The device offers no completion interrupt and no bound on
/// conversion time; a genuinely stuck device would otherwise block forever.
/// At the 10 ms poll interval this allows well over a minute, orders of
/// magnitude beyond the device-typical conversion time.
pub const MAX_MEASURE_POLLS: u32 = 10000;

/// A vector of `n` zero bytes, used as a read buffer.
fn zero_vec(n: usize) -> (r: Vec<u8>)
    ensures
        r.len() == n,
{
    let mut v: Vec<u8> = Vec::new();
    let mut i: usize = 0;
    while i < n
        invariant
            v.len() == i,
            i <= n,
        decreases n - i,
    {
        v.push(0);
        i = i + 1;
    }
    v
}

/// The first 26 bytes of a buffer as an array.
fn array26_from(v: &Vec<u8>) -> (r: [u8; 26])
    requires
        v.len() == 26,
    ensures
        forall|j: int| 0 <= j < 26 ==> r[j] == v[j],
{
    let mut r: [u8; 26] = [0;26];
    let mut i: usize = 0;
    while i < 26
        invariant
            i <= 26,
            v.len() == 26,
            forall|j: int| 0 <= j < i ==> r[j] == v[j],
        decreases 26 - i,
    {
        r[i] = v[i];
        i = i + 1;
    }
    r
}

/// The first 16 bytes of a buffer as an array.
fn array16_from(v: &Vec<u8>) -> (r: [u8; 16])
    requires
        v.len() == 16,
    ensures
        forall|j: int| 0 <= j < 16 ==> r[j] == v[j],
{
    let mut r: [u8; 16] = [0;16];
    let mut i: usize = 0;
    while i < 16
        invariant
            i <= 16,
            v.len() == 16,
            forall|j: int| 0 <= j < i ==> r[j] == v[j],
        decreases 16 - i,
    {
        r[i] = v[i];
        i = i + 1;
    }
    r
}

/// The first 8 bytes of a buffer as an array.
fn array8_from(v: &Vec<u8>) -> (r: [u8; 8])
    requires
        v.len() == 8,
    ensures
        forall|j: int| 0 <= j < 8 ==> r[j] == v[j],
{
    let mut r: [u8; 8] = [0;8];
    let mut i: usize = 0;
    while i < 8
        invariant
            i <= 8,
            v.len() == 8,
            forall|j: int| 0 <= j < i ==> r[j] == v[j],
        decreases 8 - i,
    {
        r[i] = v[i];
        i = i + 1;
    }
    r
}

impl<InterfaceT, InterfaceE, DelayT> Bme280<InterfaceT, DelayT> where
    InterfaceT: RegRead<Error = InterfaceE> + RegWrite<Error = InterfaceE>,
    DelayT: DelayProvider,
 {
    /// Decides the identity check: exactly the expected chip id passes, and
    /// a mismatch is its own error, distinct from a transport failure, so
    /// callers can tell a wrong or absent device from a broken bus.
    fn check_id(id: u8) -> (r: Result<(), Bme280Error<InterfaceE>>)
        ensures
            r matches Ok(v) <==> id == Id::BME280_STANDARD_ID,
            r matches Err(e) ==> e matches Bme280Error::IdDoesNotMatch,
    {
        if id == Id::BME280_STANDARD_ID {
            Ok(())
        } else {
            Err(Bme280Error::IdDoesNotMatch)
        }
    }

    /// Brings the device up: soft reset, identity check, calibration load,
    /// configuration write. A wrong identity byte aborts initialization
    /// before any calibration read; transport failures abort immediately.
    /// No other failure exists: an error is either the wrapped transport
    /// error or the identity mismatch.
    pub fn init(
        mut interface: InterfaceT,
        dev_addr: u8,
        mut delay: DelayT,
        config: Bme280Config,
    ) -> (r: Result<Self, Bme280Error<InterfaceE>>)
        ensures
            r matches Ok(b) ==> b.spec_dev_addr() == dev_addr && b.spec_config() == config
                && exists|c1: Calib00_25, c2: Calib26_41|
                b.spec_calib() == #[trigger] spec_calib_data(c1, c2),
            r matches Err(e) ==> e matches Bme280Error::Inteface(_) || e
                matches Bme280Error::IdDoesNotMatch,
    {
        match Self::reset(&mut interface, dev_addr, &mut delay) {
            Ok(()) => {},
            Err(e) => {
                return Err(e);
            },
        }
        let id: u8 = match Self::read_id(&mut interface, dev_addr) {
            Ok(v) => v,
            Err(e) => {
                return Err(e);
            },
        };
        match Self::check_id(id) {
            Ok(()) => {},
            Err(e) => {
                return Err(e);
            },
        }
        let calib_data: CalibData = match Self::read_calib(&mut interface, dev_addr) {
            Ok(c) => c,
            Err(e) => {
                return Err(e);
            },
        };
        let mut bme280: Bme280<InterfaceT, DelayT> = Self {
            calib_data,
            dev_addr,
            interface,
            delay,
            config,
        };
        match bme280.apply_cfg() {
            Ok(()) => {},
            Err(e) => {
                return Err(e);
            },
        }
        Ok(bme280)
    }

    /// Writes the oversampling selections into the two control registers.
    fn apply_cfg(&mut self) -> (r: Result<(), Bme280Error<InterfaceE>>)
        ensures
            final(self).spec_dev_addr() == old(self).spec_dev_addr(),
            final(self).spec_calib() == old(self).spec_calib(),
            final(self).spec_config() == old(self).spec_config(),
            r matches Err(e) ==> e matches Bme280Error::Inteface(_),
    {
        let mut ctrl_meas: CtrlMeas = CtrlMeas(0);
        let mut ctrl_hum: CtrlHum = CtrlHum(0);

        ctrl_meas.set_temp_oversampling(self.config.temp_oversampling.value());
        ctrl_meas.set_press_oversampling(self.config.press_oversampling.value());
        ctrl_hum.set_oversampling(self.config.hum_oversampling.value());

        match self.interface.reg_write(self.dev_addr, CtrlMeas::start_addr(), ctrl_meas.0) {
            Ok(()) => {},
            Err(e) => {
                return Err(Bme280Error::Inteface(e));
            },
        }
        match self.interface.reg_write(self.dev_addr, CtrlHum::start_addr(), ctrl_hum.0) {
            Ok(()) => {},
            Err(e) => {
                return Err(Bme280Error::Inteface(e));
            },
        }
        Ok(())
    }

    /// Read-modify-writes the mode field of the measurement control
    /// register, leaving the oversampling bits as they are on the device.
    fn set_mode(&mut self, mode: Mode) -> (r: Result<(), Bme280Error<InterfaceE>>)
        ensures
            final(self).spec_dev_addr() == old(self).spec_dev_addr(),
            final(self).spec_calib() == old(self).spec_calib(),
            final(self).spec_config() == old(self).spec_config(),
            r matches Err(e) ==> e matches Bme280Error::Inteface(_),
    {
        let mut buf: Vec<u8> = zero_vec(1);
        match self.interface.reg_read(self.dev_addr, CtrlMeas::start_addr(), &mut buf) {
            Ok(()) => {},
            Err(e) => {
                return Err(Bme280Error::Inteface(e));
            },
        }
        let mut ctrl_meas: CtrlMeas = CtrlMeas(buf[0]);
        ctrl_meas.set_mode(mode.value());
        match self.interface.reg_write(self.dev_addr, CtrlMeas::start_addr(), ctrl_meas.0) {
            Ok(()) => {},
            Err(e) => {
                return Err(Bme280Error::Inteface(e));
            },
        }
        Ok(())
    }

    /// Reads the two calibration blocks and decodes them.
    fn read_calib(interface: &mut InterfaceT, dev_addr: u8) -> (r: Result<
        CalibData,
        Bme280Error<InterfaceE>,
    >)
        ensures
            r matches Ok(c) ==> exists|c1: Calib00_25, c2: Calib26_41|
                c == #[trigger] spec_calib_data(c1, c2),
            r matches Err(e) ==> e matches Bme280Error::Inteface(_),
    {
        let mut buf1: Vec<u8> = zero_vec(Calib00_25::reg_size());
        match interface.reg_read(dev_addr, Calib00_25::start_addr(), &mut buf1) {
            Ok(()) => {},
            Err(e) => {
                return Err(Bme280Error::Inteface(e));
            },
        }
        let mut buf2: Vec<u8> = zero_vec(Calib26_41::reg_size());
        match interface.reg_read(dev_addr, Calib26_41::start_addr(), &mut buf2) {
            Ok(()) => {},
            Err(e) => {
                return Err(Bme280Error::Inteface(e));
            },
        }
        let calib00_25: Calib00_25 = Calib00_25(array26_from(&buf1));
        let calib26_41: Calib26_41 = Calib26_41(array16_from(&buf2));
        let c: CalibData = CalibData::new(calib00_25, calib26_41);
        proof {
            assert(c == spec_calib_data(calib00_25, calib26_41));
        }
        Ok(c)
    }

    /// Writes the soft-reset command, then blocks for the fixed settling
    /// delay; the device has no reset-complete status bit to poll.
    fn reset(interface: &mut InterfaceT, dev_addr: u8, delay: &mut DelayT) -> (r: Result<
        (),
        Bme280Error<InterfaceE>,
    >)
        ensures
            r matches Err(e) ==> e matches Bme280Error::Inteface(_),
    {
        let mut reset_reg: Reset = Reset(0);
        reset_reg.set_reset(Reset::RESET_BYTE);
        match interface.reg_write(dev_addr, Reset::start_addr(), reset_reg.0) {
            Ok(()) => {},
            Err(e) => {
                return Err(Bme280Error::Inteface(e));
            },
        }
        delay.delay_ms(10);
        Ok(())
    }

    /// Reads the identity register.
    fn read_id(interface: &mut InterfaceT, dev_addr: u8) -> (r: Result<
        u8,
        Bme280Error<InterfaceE>,
    >)
        ensures
            r matches Err(e) ==> e matches Bme280Error::Inteface(_),
    {
        let mut buf: Vec<u8> = zero_vec(1);
        match interface.reg_read(dev_addr, Id::start_addr(), &mut buf) {
            Ok(()) => {},
            Err(e) => {
                return Err(Bme280Error::Inteface(e));
            },
        }
        Ok(Id(buf[0]).get_id())
    }

    /// Runs one forced-mode measurement cycle: triggers a conversion, polls
    /// the status register until the measuring bit clears (sleeping between
    /// polls), then reads the raw block once and compensates it, temperature
    /// first so that its `t_fine` feeds pressure and humidity.
    ///
    /// On success the returned triple is exactly the compensation of the
    /// stored calibration and the raw codes the device handed back.
    pub fn do_measurement(&mut self) -> (r: Result<
        (I22F10, I24F8, I22F10),
        Bme280Error<InterfaceE>,
    >)
        ensures
            final(self).spec_dev_addr() == old(self).spec_dev_addr(),
            final(self).spec_calib() == old(self).spec_calib(),
            final(self).spec_config() == old(self).spec_config(),
            r matches Ok(m) ==> exists|adc_t: u32, adc_p: u32, adc_h: u32|
                adc_t < 0x100000 && adc_p < 0x100000 && adc_h < 0x10000 && m
                    == #[trigger] spec_measurement(old(self).spec_calib(), adc_t, adc_p, adc_h),
            r matches Err(e) ==> e matches Bme280Error::Inteface(_) || e
                matches Bme280Error::PollAttemptsExhausted,
    {
        // Trigger one conversion, keeping the configured oversampling bits.
        match self.set_mode(Mode::Forced) {
            Ok(()) => {},
            Err(e) => {
                return Err(e);
            },
        }
        let mut measuring: bool = true;
        let mut polls: u32 = 0;
        while measuring
            invariant
                self.dev_addr == old(self).dev_addr,
                self.calib_data == old(self).calib_data,
                self.config == old(self).config,
                polls <= MAX_MEASURE_POLLS,
            decreases MAX_MEASURE_POLLS - polls,
        {
            let mut buf: Vec<u8> = zero_vec(1);
            match self.interface.reg_read(self.dev_addr, Status::start_addr(), &mut buf) {
                Ok(()) => {},
                Err(e) => {
                    return Err(Bme280Error::Inteface(e));
                },
            }
            let status: Status = Status(buf[0]);
            measuring = status.get_measuring() == 1;
            self.delay.delay_ms(10);
            if polls == MAX_MEASURE_POLLS {
                break ;
            }
            polls = polls + 1;
        }
        if measuring {
            return Err(Bme280Error::PollAttemptsExhausted);
        }
        // The measuring bit was observed clear: read the raw block, once.
        let mut buf: Vec<u8> = zero_vec(RawMeasures::reg_size());
        match self.interface.reg_read(self.dev_addr, RawMeasures::start_addr(), &mut buf) {
            Ok(()) => {},
            Err(e) => {
                return Err(Bme280Error::Inteface(e));
            },
        }
        let raw_measures: RawMeasures = RawMeasures(array8_from(&buf));
        let adc_t: u32 = raw_measures.get_temp();
        let adc_p: u32 = raw_measures.get_press();
        let adc_h: u32 = raw_measures.get_hum();

        let (t_fine, temp): (i32, i32) = Self::compensate_t(&self.calib_data, adc_t);
        let pres: I24F8 = Self::compensate_p(&self.calib_data, t_fine, adc_p);
        let hum: I22F10 = Self::compensate_h(&self.calib_data, t_fine, adc_h);

        // Scale centidegrees to a Q22.10 degree value.
        proof {
            assert((((100u32 << 10u32) & 0xFFFF_FC00) | (0u32 & 0x3FF)) == 102400u32)
                by (bit_vector);
        }
        let temp_fp: I22F10 = I22F10::new(temp, 0).div(I22F10::new(100, 0));

        let m: (I22F10, I24F8, I22F10) = (temp_fp, pres, hum);
        proof {
            assert(m == spec_measurement(old(self).spec_calib(), adc_t, adc_p, adc_h));
        }
        Ok(m)
    }

    /// The calibration decoded at initialization; read-only, never
    /// recomputed.
    pub fn get_calib(&self) -> (r: &CalibData)
        ensures
            *r == self.spec_calib(),
    {
        &self.calib_data
    }
}

} // verus!

//! Small register-arithmetic helpers of the radio front-ends: frequency
//! to register conversions and the frequency-to-time drift coefficients.

use vstd::prelude::*;

use crate::error::HalError;
use crate::toa::{bw_getval_spec, is_lora_bw_spec, lgw_bw_getval};

verus! {

/// Command opcodes of the SX1250 radio.
#[derive(Clone, Copy, Debug, PartialEq, Eq, Structural)]
#[allow(non_camel_case_types)]
pub enum Sx1250OpCode {
    CALIBRATE,
    CALIBRATE_IMAGE,
    CLR_IRQ_STATUS,
    STOP_TIMER_ON_PREAMBLE,
    SET_RFSWITCHMODE,
    GET_IRQ_STATUS,
    GET_RX_BUFFER_STATUS,
    GET_PACKET_STATUS,
    READ_BUFFER,
    READ_REGISTER,
    SET_DIO_IRQ_PARAMS,
    SET_MODULATION_PARAMS,
    SET_PA_CONFIG,
    SET_PACKET_PARAMS,
    SET_PACKET_TYPE,
    SET_RF_FREQUENCY,
    SET_BUFFER_BASE_ADDRESS,
    SET_SLEEP,
    SET_STANDBY,
    SET_RX,
    SET_TX,
    SET_TX_PARAMS,
    WRITE_BUFFER,
    WRITE_REGISTER,
    SET_TXCONTINUOUSWAVE,
    SET_TXCONTINUOUSPREAMBLE,
    GET_STATUS,
    SET_REGULATORMODE,
    SET_FS,
    GET_DEVICE_ERRORS,
}

impl Sx1250OpCode {
    /// The wire code of the opcode.
    pub fn value(&self) -> (r: u8) {
        match self {
            Sx1250OpCode::CALIBRATE => 0x89,
            Sx1250OpCode::CALIBRATE_IMAGE => 0x98,
            Sx1250OpCode::CLR_IRQ_STATUS => 0x02,
            Sx1250OpCode::STOP_TIMER_ON_PREAMBLE => 0x9F,
            Sx1250OpCode::SET_RFSWITCHMODE => 0x9D,
            Sx1250OpCode::GET_IRQ_STATUS => 0x12,
            Sx1250OpCode::GET_RX_BUFFER_STATUS => 0x13,
            Sx1250OpCode::GET_PACKET_STATUS => 0x14,
            Sx1250OpCode::READ_BUFFER => 0x1E,
            Sx1250OpCode::READ_REGISTER => 0x1D,
            Sx1250OpCode::SET_DIO_IRQ_PARAMS => 0x08,
            Sx1250OpCode::SET_MODULATION_PARAMS => 0x8B,
            Sx1250OpCode::SET_PA_CONFIG => 0x95,
            Sx1250OpCode::SET_PACKET_PARAMS => 0x8C,
            Sx1250OpCode::SET_PACKET_TYPE => 0x8A,
            Sx1250OpCode::SET_RF_FREQUENCY => 0x86,
            Sx1250OpCode::SET_BUFFER_BASE_ADDRESS => 0x8F,
            Sx1250OpCode::SET_SLEEP => 0x84,
            Sx1250OpCode::SET_STANDBY => 0x80,
            Sx1250OpCode::SET_RX => 0x82,
            Sx1250OpCode::SET_TX => 0x83,
            Sx1250OpCode::SET_TX_PARAMS => 0x8E,
            Sx1250OpCode::WRITE_BUFFER => 0x0E,
            Sx1250OpCode::WRITE_REGISTER => 0x0D,
            Sx1250OpCode::SET_TXCONTINUOUSWAVE => 0xD1,
            Sx1250OpCode::SET_TXCONTINUOUSPREAMBLE => 0xD2,
            Sx1250OpCode::GET_STATUS => 0xC0,
            Sx1250OpCode::SET_REGULATORMODE => 0x96,
            Sx1250OpCode::SET_FS => 0xC1,
            Sx1250OpCode::GET_DEVICE_ERRORS => 0x17,
        }
    }
}

/// Quotient truncated toward zero, as hardware register scalings compute
/// it.
pub open spec fn div_trunc(a: int, d: int) -> int {
    if a >= 0 {
        a / d
    } else {
        -((-a) / d)
    }
}

/// Picks the register of chain 0 or chain 1.
pub fn reg_select(rf_chain: u8, a: u16, b: u16) -> (r: u16)
    ensures
        r == (if rf_chain == 0 { a } else { b }),
{
    if rf_chain == 0 { a } else { b }
}

/// Converts an IF frequency in Hz to the channelizer frequency register:
/// `f * 32 / 15625` (that is, `f / 488.28125` Hz per step), truncated
/// toward zero.
#[allow(non_snake_case)]
pub fn IF_HZ_TO_REG(f: i32) -> (r: i32)
    ensures
        r == div_trunc(32 * f, 15625),
{
    if f >= 0 {
        let q: u64 = (f as u64) * 32 / 15625;
        q as i32
    } else {
        let q: u64 = ((-(f as i64)) as u64) * 32 / 15625;
        proof {
            assert(q <= 0x80000000u64 * 32 / 15625) by (nonlinear_arith)
                requires q == ((-(f as i64)) as u64) * 32 / 15625 && ((-(f as i64)) as u64)
                    <= 0x80000000u64;
        }
        -(q as i32)
    }
}

/// Converts an RF frequency in Hz to the SX1250 frequency register:
/// `f * 2^25 / 32e6` steps.
pub fn sx1250_freq_to_reg(f: u32) -> (r: u32)
    requires
        f <= 1100000000,
    ensures
        r == (f as int) * 0x2000000 / 32000000,
{
    proof {
        assert((f as u64) * 0x2000000 <= 1100000000u64 * 0x2000000) by (nonlinear_arith)
            requires f <= 1100000000;
        assert((f as u64) * 0x2000000 / 32000000 <= 1100000000u64 * 0x2000000 / 32000000)
            by (nonlinear_arith)
            requires (f as u64) * 0x2000000 <= 1100000000u64 * 0x2000000;
    }
    (((f as u64) * 0x2000000) / 32000000) as u32
}

/// Powers of two, for small exponents.
pub open spec fn pow2i(n: int) -> int
    decreases n,
{
    if n <= 0 {
        1
    } else {
        2 * pow2i(n - 1)
    }
}

/// Powers of two are positive and grow with the exponent.
proof fn lemma_pow2i_mono(a: int, b: int)
    requires
        a <= b,
    ensures
        1 <= pow2i(a) <= pow2i(b),
    decreases b - a,
{
    if a < b {
        lemma_pow2i_mono(a, b - 1);
    } else {
        lemma_pow2i_mono_base(a);
    }
}

/// Powers of two are at least one.
proof fn lemma_pow2i_mono_base(a: int)
    ensures
        pow2i(a) >= 1,
    decreases a,
{
    if a > 0 {
        lemma_pow2i_mono_base(a - 1);
    }
}

/// Mantissa and exponent of the frequency-to-time drift coefficient: the
/// ratio of the channel bandwidth to the radio frequency, scaled by 2^20
/// and normalized into [2048, 4096) by doubling (mantissas already at or
/// above 2048 keep exponent zero). Fails on an invalid bandwidth code,
/// and exactly then.
pub fn calculate_freq_to_time_drift(freq_hz: u32, bw: u8) -> (r: Result<(u16, u8), HalError>)
    requires
        100000000 <= freq_hz <= 1100000000,
    ensures
        r.is_ok() == is_lora_bw_spec(bw),
        r.is_ok() ==> {
            let m0 = bw_getval_spec(bw) * 0x100000 / (freq_hz as int);
            let (mantissa, exponent) = r.unwrap();
            &&& mantissa as int == m0 * pow2i(exponent as int)
            &&& (m0 < 2048 ==> 2048 <= mantissa < 4096)
            &&& (m0 >= 2048 ==> exponent == 0)
        },
{
    let bw_hz: i32 = lgw_bw_getval(bw);
    if bw_hz < 0 {
        return Err(HalError::OutOfRangeMetadata);
    }

    let mut mantissa: u64 = (bw_hz as u64) * 0x100000 / (freq_hz as u64);
    let mut exponent: u8 = 0;
    proof {
        let m0 = bw_getval_spec(bw) * 0x100000 / (freq_hz as int);
        assert(mantissa == m0);
        assert(m0 >= 1 && m0 <= 5243) by (nonlinear_arith)
            requires m0 == bw_getval_spec(bw) * 0x100000 / (freq_hz as int)
                && 125000 <= bw_getval_spec(bw) <= 500000 && 100000000 <= freq_hz <= 1100000000;
        assert(pow2i(0) == 1);
    }

    let ghost m0 = bw_getval_spec(bw) * 0x100000 / (freq_hz as int);
    while mantissa < 2048
        invariant
            m0 == bw_getval_spec(bw) * 0x100000 / (freq_hz as int),
            1 <= m0 <= 5243,
            1 <= mantissa <= 5243,
            exponent <= 11,
            mantissa == m0 * pow2i(exponent as int),
            pow2i(exponent as int) <= mantissa,
            m0 >= 2048 ==> exponent == 0,
            exponent >= 1 ==> mantissa < 4096,
        decreases 4096 - mantissa,
    {
        proof {
            let e = exponent as int;
            reveal_with_fuel(pow2i, 13);
            if e >= 11 {
                lemma_pow2i_mono(11, e);
                assert(false);
            }
            assert(pow2i(e + 1) == 2 * pow2i(e));
            assert(m0 * pow2i(e + 1) == 2 * (m0 * pow2i(e))) by (nonlinear_arith)
                requires pow2i(e + 1) == 2 * pow2i(e);
            assert(m0 * pow2i(e) >= m0) by (nonlinear_arith)
                requires m0 >= 1 && pow2i(e) >= 1;
        }
        exponent = exponent + 1;
        mantissa = mantissa * 2;
    }
    proof {
        if m0 < 2048 && exponent == 0 {
            assert(mantissa == m0 * pow2i(0));
            assert(mantissa == m0);
        }
    }

    Ok((mantissa as u16, exponent))
}

} // verus!

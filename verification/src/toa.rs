//! The shared LoRa time-on-air formula and the parameter-validation
//! helpers around it.

use vstd::prelude::*;

use crate::config::{
    Modulation, LgwPktTx, BW_125KHZ, BW_250KHZ, BW_500KHZ, CR_LORA_4_5, CR_LORA_4_6, CR_LORA_4_7,
    CR_LORA_4_8, DR_FSK_MAX, DR_FSK_MIN, DR_LORA_SF10, DR_LORA_SF11, DR_LORA_SF12, DR_LORA_SF5,
    DR_LORA_SF6, DR_LORA_SF7, DR_LORA_SF8, DR_LORA_SF9,
};
use crate::error::HalError;

verus! {

/// Whether a bandwidth code denotes a valid LoRa bandwidth.
pub open spec fn is_lora_bw_spec(bw: u8) -> bool {
    bw == BW_125KHZ || bw == BW_250KHZ || bw == BW_500KHZ
}

/// Whether a bandwidth code denotes a valid LoRa bandwidth.
pub fn is_lora_bw(bw: u8) -> (r: bool)
    ensures
        r == is_lora_bw_spec(bw),
{
    bw == BW_125KHZ || bw == BW_250KHZ || bw == BW_500KHZ
}

/// Whether a datarate denotes a valid LoRa spreading factor (5 to 12).
pub open spec fn is_lora_dr_spec(dr: u32) -> bool {
    DR_LORA_SF5 <= dr <= DR_LORA_SF12
}

/// Whether a datarate denotes a valid LoRa spreading factor (5 to 12).
pub fn is_lora_dr(dr: u32) -> (r: bool)
    ensures
        r == is_lora_dr_spec(dr),
{
    dr == DR_LORA_SF5 || dr == DR_LORA_SF6 || dr == DR_LORA_SF7 || dr == DR_LORA_SF8
        || dr == DR_LORA_SF9 || dr == DR_LORA_SF10 || dr == DR_LORA_SF11 || dr == DR_LORA_SF12
}

/// Whether a coding-rate code denotes a valid LoRa coding rate.
pub open spec fn is_lora_cr_spec(cr: u8) -> bool {
    cr == CR_LORA_4_5 || cr == CR_LORA_4_6 || cr == CR_LORA_4_7 || cr == CR_LORA_4_8
}

/// Whether a coding-rate code denotes a valid LoRa coding rate.
pub fn is_lora_cr(cr: u8) -> (r: bool)
    ensures
        r == is_lora_cr_spec(cr),
{
    cr == CR_LORA_4_5 || cr == CR_LORA_4_6 || cr == CR_LORA_4_7 || cr == CR_LORA_4_8
}

/// Whether a bandwidth code denotes a valid FSK bandwidth.
pub fn is_fsk_bw(bw: u8) -> (r: bool)
    ensures
        r == (1 <= bw <= 7),
{
    bw >= 1 && bw <= 7
}

/// Whether a datarate denotes a valid FSK baudrate.
pub fn is_fsk_dr(dr: u32) -> (r: bool)
    ensures
        r == (DR_FSK_MIN <= dr <= DR_FSK_MAX),
{
    dr >= DR_FSK_MIN && dr <= DR_FSK_MAX
}

/// Bandwidth in Hz for a bandwidth code, `-1` for an invalid code.
pub open spec fn bw_getval_spec(bw: u8) -> i32 {
    if bw == BW_500KHZ {
        500000
    } else if bw == BW_250KHZ {
        250000
    } else if bw == BW_125KHZ {
        125000
    } else {
        -1i32
    }
}

/// Bandwidth in Hz for a bandwidth code, `-1` for an invalid code.
pub fn lgw_bw_getval(bw: u8) -> (r: i32)
    ensures
        r == bw_getval_spec(bw),
{
    if bw == BW_500KHZ {
        500000
    } else if bw == BW_250KHZ {
        250000
    } else if bw == BW_125KHZ {
        125000
    } else {
        -1
    }
}

/// The divider a bandwidth code applies to the 125 kHz reference:
/// 1, 2 or 4; zero for an invalid code.
pub open spec fn bw_pow_spec(bw: u8) -> int {
    if bw == BW_125KHZ {
        1
    } else if bw == BW_250KHZ {
        2
    } else if bw == BW_500KHZ {
        4
    } else {
        0
    }
}

/// Whether the low-datarate optimization (2 bits of ppm offset) is forced
/// on for a bandwidth/spreading-factor pair.
pub open spec fn set_ppm_on_spec(bw: u8, dr: u32) -> bool {
    (bw == BW_125KHZ && (dr == DR_LORA_SF11 || dr == DR_LORA_SF12))
        || (bw == BW_250KHZ && dr == DR_LORA_SF12)
}

/// Whether the low-datarate optimization (2 bits of ppm offset) is forced
/// on for a bandwidth/spreading-factor pair.
#[allow(non_snake_case)]
pub fn SET_PPM_ON(bw: u8, dr: u32) -> (r: bool)
    ensures
        r == set_ppm_on_spec(bw, dr),
{
    (bw == BW_125KHZ && (dr == DR_LORA_SF11 || dr == DR_LORA_SF12))
        || (bw == BW_250KHZ && dr == DR_LORA_SF12)
}

/// Powers of two for spreading factors 5 to 12.
pub open spec fn two_to_sf(sf: u8) -> int {
    if sf == 5 {
        32
    } else if sf == 6 {
        64
    } else if sf == 7 {
        128
    } else if sf == 8 {
        256
    } else if sf == 9 {
        512
    } else if sf == 10 {
        1024
    } else if sf == 11 {
        2048
    } else if sf == 12 {
        4096
    } else {
        0
    }
}

/// `2^sf` for a valid spreading factor.
pub fn pow2_sf(sf: u8) -> (r: u32)
    requires
        5 <= sf <= 12,
    ensures
        r == two_to_sf(sf),
{
    if sf == 5 {
        32
    } else if sf == 6 {
        64
    } else if sf == 7 {
        128
    } else if sf == 8 {
        256
    } else if sf == 9 {
        512
    } else if sf == 10 {
        1024
    } else if sf == 11 {
        2048
    } else {
        4096
    }
}

/// Duration of one symbol in microseconds: `2^sf * 8` divided by the
/// bandwidth divider.
pub open spec fn t_symbol_spec(bw: u8, sf: u8) -> int {
    two_to_sf(sf) * 8 / bw_pow_spec(bw)
}

/// Number of payload symbols: the payload bits left after the part carried
/// by the header block, grouped into codewords of `4 * (sf - 2 * de)` bits
/// and weighted by the coding rate.
pub open spec fn payload_symbols_spec(sf: u8, cr: u8, size: u8, no_header: bool, no_crc: bool) -> int {
    let h: int = if !no_header { 1 } else { 0 };
    let de: int = if sf >= 11 { 1 } else { 0 };
    let n_bit_crc: int = if !no_crc { 16 } else { 0 };
    let num = 8 * size + n_bit_crc + (if sf >= 7 { 8int } else { 0 }) + 20 * h - 4 * sf;
    if num <= 0 {
        0
    } else {
        ((num + 4 * (sf - 2 * de) - 1) / (4 * (sf - 2 * de))) * (cr + 4)
    }
}

/// Total symbol count of the packet, in quarter symbols: preamble, the
/// 4.25 (6.25 below SF7) synchronization symbols, 8 header symbols, and
/// the payload symbols.
pub open spec fn quarter_symbols_spec(
    sf: u8,
    cr: u8,
    size: u8,
    no_header: bool,
    no_crc: bool,
    n_symbol_preamble: u16,
) -> int {
    4 * n_symbol_preamble + (if sf >= 7 { 17int } else { 25 }) + 32
        + 4 * payload_symbols_spec(sf, cr, size, no_header, no_crc)
}

/// Packet duration in microseconds, saturated to 32 bits.
pub open spec fn toa_us_spec(
    bw: u8,
    sf: u8,
    cr: u8,
    size: u8,
    no_header: bool,
    no_crc: bool,
    n_symbol_preamble: u16,
) -> int {
    let t = quarter_symbols_spec(sf, cr, size, no_header, no_crc, n_symbol_preamble)
        * t_symbol_spec(bw, sf) / 4;
    if t > u32::MAX {
        u32::MAX as int
    } else {
        t
    }
}

/// Time-on-air figures of a LoRa packet.
#[derive(Clone, Copy, Debug, PartialEq, Eq, Structural)]
pub struct LoraToa {
    /// Packet duration in microseconds.
    pub toa_us: u32,
    /// Total symbol count, in quarter symbols.
    pub n_symbol_x4: u32,
    /// Number of payload symbols.
    pub n_symbol_payload: u32,
    /// Duration of one symbol in microseconds.
    pub t_symbol_us: u16,
}

/// Time on air of a LoRa packet. Fails on an invalid bandwidth, spreading
/// factor or coding rate, and exactly then.
pub fn lora_packet_time_on_air(
    bw: u8,
    sf: u8,
    cr: u8,
    n_symbol_preamble: u16,
    no_header: bool,
    no_crc: bool,
    size: u8,
) -> (r: Result<LoraToa, HalError>)
    ensures
        r.is_ok() == (is_lora_dr_spec(sf as u32) && is_lora_bw_spec(bw) && is_lora_cr_spec(cr)),
        r.is_err() ==> r == Err::<LoraToa, HalError>(HalError::OutOfRangeMetadata),
        r.is_ok() ==> {
            let toa = r.unwrap();
            &&& toa.t_symbol_us == t_symbol_spec(bw, sf)
            &&& toa.n_symbol_payload == payload_symbols_spec(sf, cr, size, no_header, no_crc)
            &&& toa.n_symbol_x4 == quarter_symbols_spec(sf, cr, size, no_header, no_crc, n_symbol_preamble)
            &&& toa.toa_us == toa_us_spec(bw, sf, cr, size, no_header, no_crc, n_symbol_preamble)
        },
{
    if !is_lora_dr(sf as u32) {
        return Err(HalError::OutOfRangeMetadata);
    }
    if !is_lora_bw(bw) {
        return Err(HalError::OutOfRangeMetadata);
    }
    if !is_lora_cr(cr) {
        return Err(HalError::OutOfRangeMetadata);
    }

    let bw_pow: u16 = if bw == BW_125KHZ { 1 } else if bw == BW_250KHZ { 2 } else { 4 };

    /* Duration of 1 symbol */
    let t_symbol_us: u16 = ((pow2_sf(sf) as u16) * 8) / bw_pow;

    /* Packet parameters */
    let h: u32 = if !no_header { 1 } else { 0 };
    let de: u32 = if sf >= 11 { 1 } else { 0 };
    let n_bit_crc: u32 = if !no_crc { 16 } else { 0 };

    /* Number of symbols in the payload */
    let num: i32 = 8 * size as i32 + n_bit_crc as i32 + (if sf >= 7 { 8i32 } else { 0i32 })
        + 20 * h as i32 - 4 * sf as i32;
    let n_symbol_payload: u32 = if num <= 0 {
        0
    } else {
        let denom: i32 = 4 * (sf as i32 - 2 * de as i32);
        let q: i32 = (num + denom - 1) / denom;
        proof {
            assert(num <= 2104);
            assert(denom >= 12);
            assert(q <= num) by (nonlinear_arith)
                requires q == (num + denom - 1) / (denom as int) && 12 <= denom <= 48 && 1 <= num <= 2104;
            assert((q as u32) * (cr as u32 + 4) <= 2104 * 8) by (nonlinear_arith)
                requires 0 <= q <= 2104 && 1 <= cr <= 4;
        }
        (q as u32) * (cr as u32 + 4)
    };
    proof {
        assert(n_symbol_payload <= 16832);
    }

    /* Number of symbols in the packet, in quarter symbols */
    let n_symbol_x4: u32 = 4 * n_symbol_preamble as u32 + (if sf >= 7 { 17 } else { 25 }) + 32
        + 4 * n_symbol_payload;

    /* Duration of the packet in microseconds */
    proof {
        assert((n_symbol_x4 as u64) * (t_symbol_us as u64) <= 600000u64 * 65535u64)
            by (nonlinear_arith)
            requires n_symbol_x4 <= 600000 && t_symbol_us <= 65535;
    }
    let toa64: u64 = (n_symbol_x4 as u64) * (t_symbol_us as u64) / 4;
    let toa_us: u32 = if toa64 > u32::MAX as u64 { u32::MAX } else { toa64 as u32 };

    Ok(LoraToa { toa_us, n_symbol_x4, n_symbol_payload, t_symbol_us })
}

/// Time on air of a packet in milliseconds: rounded for LoRa, padded by a
/// margin of one for FSK, zero for anything else or invalid parameters.
pub fn lgw_time_on_air(packet: &LgwPktTx, sync_word_size: u32) -> (r: u32)
    requires
        packet.modulation == Modulation::FSK ==> packet.datarate >= 1,
    ensures
        packet.modulation == Modulation::LORA ==> r == lora_toa_ms_spec(*packet),
        packet.modulation == Modulation::FSK ==> r == fsk_toa_ms_spec(*packet, sync_word_size),
        packet.modulation != Modulation::LORA && packet.modulation != Modulation::FSK ==> r == 0,
{
    if packet.modulation == Modulation::LORA {
        match lora_packet_time_on_air(
            packet.bandwidth,
            #[verifier::truncate] (packet.datarate as u8),
            packet.coderate,
            packet.preamble,
            packet.no_header,
            packet.no_crc,
            #[verifier::truncate] (packet.size as u8),
        ) {
            Ok(toa) => (((toa.toa_us as u64) + 500) / 1000) as u32,
            Err(_) => 0,
        }
    } else if packet.modulation == Modulation::FSK {
        /* PREAMBLE + SYNC_WORD + PKT_LEN + PKT_PAYLOAD + CRC */
        let bits: u64 = 8 * (packet.preamble as u64 + sync_word_size as u64 + 1
            + packet.size as u64 + (if packet.no_crc { 0 } else { 2 }));
        let t_fsk_ms: u64 = bits * 1000 / packet.datarate as u64;
        if t_fsk_ms >= u32::MAX as u64 {
            u32::MAX
        } else {
            t_fsk_ms as u32 + 1
        }
    } else {
        0
    }
}

/// LoRa time on air in milliseconds, rounded to the nearest; zero when the
/// packet's parameters are invalid.
pub open spec fn lora_toa_ms_spec(packet: LgwPktTx) -> int {
    if is_lora_dr_spec((packet.datarate as u8) as u32) && is_lora_bw_spec(packet.bandwidth)
        && is_lora_cr_spec(packet.coderate) {
        (toa_us_spec(
            packet.bandwidth,
            packet.datarate as u8,
            packet.coderate,
            packet.size as u8,
            packet.no_header,
            packet.no_crc,
            packet.preamble,
        ) + 500) / 1000
    } else {
        0
    }
}

/// FSK time on air in milliseconds, with a one-millisecond rounding margin,
/// saturated to 32 bits.
pub open spec fn fsk_toa_ms_spec(packet: LgwPktTx, sync_word_size: u32) -> int {
    let bits = 8 * (packet.preamble + sync_word_size + 1 + packet.size
        + (if packet.no_crc { 0int } else { 2 }));
    let t = bits * 1000 / packet.datarate as int;
    if t >= u32::MAX {
        u32::MAX as int
    } else {
        t + 1
    }
}

} // verus!

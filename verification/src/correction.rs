//! Coarse timestamp-correction models: the legacy closed-form pipeline
//! model and the precision model built on the shared time-on-air formula.

use vstd::prelude::*;

use crate::config::{LgwContext, BW_125KHZ, BW_250KHZ, BW_500KHZ};
use crate::toa::{
    bw_pow_spec, is_lora_bw, is_lora_bw_spec, is_lora_cr, is_lora_cr_spec, is_lora_dr,
    is_lora_dr_spec, lora_packet_time_on_air, payload_symbols_spec, pow2_sf, set_ppm_on_spec,
    t_symbol_spec, two_to_sf, SET_PPM_ON,
};

verus! {

/// Demodulation mode of the DFT peak block: disabled.
pub const RX_DFT_PEAK_MODE_DISABLED: u8 = 0x00;

/// Demodulation mode of the DFT peak block: full.
pub const RX_DFT_PEAK_MODE_FULL: u8 = 0x01;

/// Demodulation mode of the DFT peak block: tracking.
pub const RX_DFT_PEAK_MODE_TRACK: u8 = 0x02;

/// Demodulation mode of the DFT peak block: automatic.
pub const RX_DFT_PEAK_MODE_AUTO: u8 = 0x03;

/// The legacy correction, in microseconds, negated by the caller-facing
/// function: the cumulative filtering, FFT, demapping and decoding delays
/// of the receive pipeline for the final block of the packet.
pub open spec fn legacy_correction_spec(
    bandwidth: u8,
    sf: u8,
    cr: u8,
    crc_en: bool,
    payload_length: u8,
    dft_peak_mode: u8,
) -> int {
    if !is_lora_bw_spec(bandwidth) {
        0
    } else {
        let ppm: int = if set_ppm_on_spec(bandwidth, sf as u32) { 1 } else { 0 };
        let bw_pow = bw_pow_spec(bandwidth);
        let clk_period = 250000int / bw_pow;
        let p2sf = two_to_sf(sf);
        let crc_bytes: int = if crc_en { 2 } else { 0 };
        let nb_nibble = (payload_length + crc_bytes) * 2 + 5;
        let nb_nibble_in_hdr: int = if sf == 5 || sf == 6 { sf as int } else { sf - 2 };
        let fits = 2 * (payload_length + crc_bytes) - (sf - 7) <= 0
            || (payload_length == 0 && !crc_en);
        let dft_peak_en: int = if fits || dft_peak_mode == RX_DFT_PEAK_MODE_DISABLED { 0 } else { 1 };
        let cr_local: int = if fits { 4 } else { cr as int };
        let nb_nibble_in_last_block: int = if fits {
            if sf > 6 { sf - 2 } else { sf as int }
        } else {
            let d = sf - 2 * ppm;
            let rem = (nb_nibble - nb_nibble_in_hdr) - d * ((nb_nibble - nb_nibble_in_hdr) / d);
            if rem == 0 { d } else { rem }
        };
        let nb_iter = (sf + 1) as int / 2;
        let filtering_delay = 16000000int / bw_pow + 2031250;
        let demap_delay = if fits {
            clk_period + p2sf * clk_period * 3 / 4 + 3 * clk_period + (sf - 2) * clk_period
        } else {
            clk_period + p2sf * clk_period + 3 * clk_period + (sf - 2 * ppm) * clk_period
        };
        let fft_delay_state3 = clk_period * ((p2sf - 6) + 2 * (p2sf * (nb_iter - 1) + 6))
            + 4 * clk_period;
        let fft_delay = if dft_peak_en != 0 {
            (5 - 2 * ppm) * (p2sf * clk_period + 7 * clk_period) + 2 * clk_period
        } else {
            p2sf * 2 * clk_period + 3 * clk_period
        };
        let decode_delay = 5 * clk_period + (9 * clk_period + clk_period * cr_local)
            * nb_nibble_in_last_block + 3 * clk_period;
        (filtering_delay + fft_delay_state3 + fft_delay + demap_delay + decode_delay + 500000)
            / 1000000
    }
}

/// Legacy coarse timestamp correction: the (negative) number of
/// microseconds by which the end-of-packet timestamp trails the event it
/// stands for, accumulated over the demodulation pipeline stages.
#[verifier::rlimit(60)]
pub fn legacy_timestamp_correction(
    bandwidth: u8,
    sf: u8,
    cr: u8,
    crc_en: bool,
    payload_length: u8,
    dft_peak_mode: u8,
) -> (r: i32)
    requires
        is_lora_dr_spec(sf as u32),
        is_lora_cr_spec(cr),
    ensures
        r == -legacy_correction_spec(bandwidth, sf, cr, crc_en, payload_length, dft_peak_mode),
        -30000 <= r <= 0,
{
    if !is_lora_bw(bandwidth) {
        return 0;
    }

    let ppm: u64 = if SET_PPM_ON(bandwidth, sf as u32) { 1 } else { 0 };
    let bw_pow: u64 = if bandwidth == BW_125KHZ { 1 } else if bandwidth == BW_250KHZ { 2 } else { 4 };
    let clk_period: u64 = 250000 / bw_pow;
    let p2sf: u64 = pow2_sf(sf) as u64;
    let crc_bytes: u64 = if crc_en { 2 } else { 0 };
    let nb_nibble: u64 = (payload_length as u64 + crc_bytes) * 2 + 5;
    let nb_nibble_in_hdr: u64 = if sf == 5 || sf == 6 { sf as u64 } else { sf as u64 - 2 };

    /* Does the payload fit entirely in the first 8 (header) symbols? */
    let fits: bool = 2 * (payload_length as i32 + crc_bytes as i32) - (sf as i32 - 7) <= 0
        || (payload_length == 0 && !crc_en);

    let dft_peak_en: u64 = if fits || dft_peak_mode == RX_DFT_PEAK_MODE_DISABLED { 0 } else { 1 };
    let cr_local: u64 = if fits { 4 } else { cr as u64 };
    let nb_nibble_in_last_block: u64 = if fits {
        if sf > 6 { sf as u64 - 2 } else { sf as u64 }
    } else {
        let d: u64 = sf as u64 - 2 * ppm;
        let num: u64 = nb_nibble - nb_nibble_in_hdr;
        proof {
            assert(nb_nibble >= nb_nibble_in_hdr + 1);
            assert(num - d * (num / d) == num % d) by (nonlinear_arith)
                requires d >= 1;
        }
        let rem: u64 = num - d * (num / d);
        if rem == 0 { d } else { rem }
    };
    let nb_iter: u64 = (sf as u64 + 1) / 2;

    /* Filtering delay: I/Q 32 MHz -> 4 MHz */
    let filtering_delay: u64 = 16000000 / bw_pow + 2031250;

    /* Demap delay */
    proof {
        assert(p2sf * clk_period <= 4096 * 250000) by (nonlinear_arith)
            requires p2sf <= 4096 && clk_period <= 250000;
        assert((sf as u64 - 2) * clk_period <= 12 * 250000) by (nonlinear_arith)
            requires 5 <= sf <= 12 && clk_period <= 250000;
        assert((sf as u64 - 2 * ppm) * clk_period <= 12 * 250000) by (nonlinear_arith)
            requires 5 <= sf <= 12 && ppm <= 1 && clk_period <= 250000;
    }
    let demap_delay: u64 = if fits {
        clk_period + p2sf * clk_period * 3 / 4 + 3 * clk_period + (sf as u64 - 2) * clk_period
    } else {
        clk_period + p2sf * clk_period + 3 * clk_period + (sf as u64 - 2 * ppm) * clk_period
    };

    /* FFT delays */
    proof {
        assert(p2sf * (nb_iter - 1) <= 4096 * 6) by (nonlinear_arith)
            requires p2sf <= 4096 && nb_iter <= 7 && nb_iter >= 1;
        assert(clk_period * ((p2sf - 6) + 2 * (p2sf * (nb_iter - 1) + 6)) <= 250000 * 53264)
            by (nonlinear_arith)
            requires clk_period <= 250000 && p2sf >= 32 && p2sf <= 4096
                && 0 <= p2sf * (nb_iter - 1) <= 24576;
    }
    let fft_delay_state3: u64 = clk_period * ((p2sf - 6) + 2 * (p2sf * (nb_iter - 1) + 6))
        + 4 * clk_period;

    proof {
        assert((5 - 2 * ppm) * (p2sf * clk_period + 7 * clk_period) <= 5 * (4096 * 250000u64 + 7 * 250000))
            by (nonlinear_arith)
            requires ppm <= 1 && p2sf * clk_period <= 4096 * 250000u64 && clk_period <= 250000;
        assert(p2sf * 2 * clk_period <= 4096 * 2 * 250000u64) by (nonlinear_arith)
            requires p2sf <= 4096 && clk_period <= 250000;
    }
    let fft_delay: u64 = if dft_peak_en != 0 {
        (5 - 2 * ppm) * (p2sf * clk_period + 7 * clk_period) + 2 * clk_period
    } else {
        p2sf * 2 * clk_period + 3 * clk_period
    };

    /* Decode delay */
    proof {
        assert(clk_period * cr_local <= 250000 * 4) by (nonlinear_arith)
            requires clk_period <= 250000 && cr_local <= 4;
        assert((9 * clk_period + clk_period * cr_local) * nb_nibble_in_last_block
            <= (9 * 250000u64 + 1000000) * 12) by (nonlinear_arith)
            requires clk_period <= 250000 && clk_period * cr_local <= 1000000
                && nb_nibble_in_last_block <= 12;
    }
    let decode_delay: u64 = 5 * clk_period + (9 * clk_period + clk_period * cr_local)
        * nb_nibble_in_last_block + 3 * clk_period;

    /* Cumulated delays, rounded to microseconds */
    let total_delay: u64 = (filtering_delay + fft_delay_state3 + fft_delay + demap_delay
        + decode_delay + 500000) / 1000000;
    proof {
        assert(total_delay <= 30000);
    }

    -(total_delay as i32)
}

/// The precision correction, in microseconds: the distance from the
/// end-of-header timestamp latched by the chip to the end of the packet,
/// minus the front-end filtering delay.
pub open spec fn precision_correction_spec(
    bandwidth: u8,
    sf: u8,
    cr: u8,
    crc_en: bool,
    payload_length: u8,
) -> int {
    if !is_lora_bw_spec(bandwidth) {
        0
    } else {
        let filtering_delay = 16000000int / bw_pow_spec(bandwidth) + 2031250;
        payload_symbols_spec(sf, cr, payload_length, false, !crc_en) * t_symbol_spec(bandwidth, sf)
            - (filtering_delay + 500000) / 1000000
    }
}

/// Bound on the payload symbol count for valid parameters.
proof fn lemma_payload_symbols_bound(sf: u8, cr: u8, size: u8, no_header: bool, no_crc: bool)
    requires
        5 <= sf <= 12,
        1 <= cr <= 4,
    ensures
        0 <= payload_symbols_spec(sf, cr, size, no_header, no_crc) <= 16832,
{
    let h: int = if !no_header { 1 } else { 0 };
    let de: int = if sf >= 11 { 1 } else { 0 };
    let n_bit_crc: int = if !no_crc { 16 } else { 0 };
    let num = 8 * size + n_bit_crc + (if sf >= 7 { 8int } else { 0 }) + 20 * h - 4 * sf;
    if num > 0 {
        let d = 4 * (sf - 2 * de);
        let q = (num + d - 1) / d;
        assert(1 <= num <= 2104);
        assert(12 <= d <= 48);
        assert(0 <= q <= num) by (nonlinear_arith)
            requires q == (num + d - 1) / d && 12 <= d <= 48 && 1 <= num <= 2104;
        assert(q * (cr + 4) <= 2104 * 8) by (nonlinear_arith)
            requires 0 <= q <= 2104 && 1 <= cr <= 4;
        assert(q * (cr + 4) >= 0) by (nonlinear_arith)
            requires q >= 0 && cr >= 1;
    }
}

/// Precision coarse timestamp correction: shifts the end-of-header
/// timestamp to the end of the packet (payload symbols times symbol
/// duration) and compensates the front-end filtering delay.
pub fn precision_timestamp_correction(
    bandwidth: u8,
    datarate: u8,
    coderate: u8,
    crc_en: bool,
    payload_length: u8,
) -> (r: i32)
    requires
        is_lora_dr_spec(datarate as u32),
        is_lora_cr_spec(coderate),
    ensures
        r == precision_correction_spec(bandwidth, datarate, coderate, crc_en, payload_length),
        -20 <= r <= 551550976,
{
    if !is_lora_bw(bandwidth) {
        return 0;
    }

    let bw_pow: u32 = if bandwidth == BW_125KHZ { 1 } else if bandwidth == BW_250KHZ { 2 } else { 4 };
    let filtering_delay: u32 = 16000000 / bw_pow + 2031250;

    /* Only the payload duration is needed, not the preamble */
    match lora_packet_time_on_air(bandwidth, datarate, coderate, 0, false, !crc_en, payload_length) {
        Ok(toa) => {
            proof {
                lemma_payload_symbols_bound(datarate, coderate, payload_length, false, !crc_en);
                assert(toa.n_symbol_payload * toa.t_symbol_us <= 16832 * 32768)
                    by (nonlinear_arith)
                    requires toa.n_symbol_payload <= 16832 && toa.t_symbol_us <= 32768;
            }
            let shift: u32 = toa.n_symbol_payload * toa.t_symbol_us as u32;
            shift as i32 - ((filtering_delay + 500000) / 1000000) as i32
        },
        Err(_) => 0,
    }
}

/// Dispatches to the legacy or the precision correction model, depending
/// on whether fine timestamping is enabled; zero for invalid parameters.
pub fn timestamp_counter_correction(
    context: &LgwContext,
    bandwidth: u8,
    datarate: u8,
    coderate: u8,
    crc_en: bool,
    payload_length: u8,
    dft_peak_mode: u8,
) -> (r: i32)
    ensures
        r == correction_spec(
            context.ftime_cfg.enable,
            bandwidth,
            datarate,
            coderate,
            crc_en,
            payload_length,
            dft_peak_mode,
        ),
        -30000 <= r <= 551550976,
{
    if !is_lora_dr(datarate as u32) {
        return 0;
    }
    if !is_lora_bw(bandwidth) {
        return 0;
    }
    if !is_lora_cr(coderate) {
        return 0;
    }

    if !context.ftime_cfg.enable {
        legacy_timestamp_correction(bandwidth, datarate, coderate, crc_en, payload_length, dft_peak_mode)
    } else {
        precision_timestamp_correction(bandwidth, datarate, coderate, crc_en, payload_length)
    }
}

/// The applied coarse correction: zero for invalid parameters, else the
/// legacy model (negated delay) or the precision model, chosen by the
/// fine-timestamping flag.
pub open spec fn correction_spec(
    ftime_enable: bool,
    bandwidth: u8,
    datarate: u8,
    coderate: u8,
    crc_en: bool,
    payload_length: u8,
    dft_peak_mode: u8,
) -> int {
    if !(is_lora_dr_spec(datarate as u32) && is_lora_bw_spec(bandwidth)
        && is_lora_cr_spec(coderate)) {
        0
    } else if !ftime_enable {
        -legacy_correction_spec(bandwidth, datarate, coderate, crc_en, payload_length, dft_peak_mode)
    } else {
        precision_correction_spec(bandwidth, datarate, coderate, crc_en, payload_length)
    }
}

} // verus!

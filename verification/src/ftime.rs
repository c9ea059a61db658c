//! The fine-timestamp engine: computes a nanosecond-resolution arrival
//! time relative to the last PPS edge from per-symbol timing metrics, the
//! PPS history, and a crystal-drift estimate.
//!
//! All arithmetic is exact: fractional factors (the 31.25 ns per 32 MHz
//! tick, the DC-notch polynomial, the crystal-error ratio) are carried as
//! integer numerators over fixed denominators and reduced in one final
//! 128-bit division, so every intermediate value is a plain integer.

use vstd::prelude::*;

use crate::error::HalError;
use crate::timestamp::{history_wf, save_spec, PpsHistoryModel, TimestampPpsHistory};
use crate::toa::two_to_sf;

verus! {

/// Largest number of fine-timing metrics requested from the chip.
pub const PRECISION_TIMESTAMP_TS_METRICS_MAX: u8 = 32;

/// Number of symbols per fine-timing metric requested from the chip.
pub const PRECISION_TIMESTAMP_NB_SYMBOLS: u8 = 0;

/// Denominator of the DC-notch delay numerator: the polynomial
/// coefficients have at most 19 decimal places once the kHz scaling of
/// the argument is folded in.
pub const NOTCH_DEN: i128 = 10_000_000_000_000_000_000;

/// Subtraction on the wrapping 32-bit counter domain.
pub open spec fn wsub32(a: u32, b: u32) -> u32 {
    if a - b < 0 {
        (a - b + 0x100000000) as u32
    } else {
        (a - b) as u32
    }
}

/// Coarse offset from the end-of-packet timestamp convention back to the
/// end of the preamble, in 32 MHz ticks: 12 symbols (14 below SF7) plus
/// the quarter-symbol sync allowance, at 256 ticks per 125 kHz chip.
pub open spec fn preamble_offset_base(sf: u8) -> int {
    256 * two_to_sf(sf) * (12 + (if sf == 5 || sf == 6 { 2int } else { 0 })) + 256 * (two_to_sf(sf)
        / 4 - 1)
}

/// The offset scaled by the packet's frequency-error ratio
/// `freq_offset_hz / freq_hz`, rounded half up.
pub open spec fn freq_error_adj(base: int, freq_offset_hz: i32, freq_hz: u32) -> int {
    (2 * base * freq_offset_hz + freq_hz) / (2 * freq_hz as int)
}

/// The packet timestamp aligned to the end of the preamble: offset and
/// frequency-error adjustment subtracted, the fixed 2138-tick group delay
/// of the decimation and filtering chain added back, on the wrapping
/// 32-bit counter.
pub open spec fn aligned_ts(ts: u32, sf: u8, freq_offset_hz: i32, freq_hz: u32) -> u32 {
    let base = preamble_offset_base(sf);
    let adj = freq_error_adj(base, freq_offset_hz, freq_hz);
    ((ts - (base + adj) + 2138) % 0x100000000) as u32
}

/// How many metrics the estimate may use at each spreading factor, to
/// stabilize it against packet-duration-dependent variance.
pub open spec fn clip_cap(sf: u8) -> int {
    if sf == 12 {
        4
    } else if sf == 11 {
        8
    } else if sf == 10 {
        16
    } else {
        32
    }
}

/// Twice the clipped metric count: the number of metric bytes folded into
/// the estimate.
pub open spec fn clipped_count2(sf: u8, nb: u8) -> int {
    if nb <= clip_cap(sf) {
        2 * nb
    } else {
        2 * clip_cap(sf)
    }
}

/// Sum of the first `i` metric deltas.
pub open spec fn prefix_sum(m: Seq<i8>, i: int) -> int
    decreases i,
{
    if i <= 0 {
        0
    } else {
        prefix_sum(m, i - 1) + m[i - 1]
    }
}

/// Sum of the running cumulative sums of the first `n` metric deltas;
/// divided by `n` it is the arithmetic mean the estimate uses.
pub open spec fn cumsum_total(m: Seq<i8>, n: int) -> int
    decreases n,
{
    if n <= 0 {
        0
    } else {
        cumsum_total(m, n - 1) + prefix_sum(m, n)
    }
}

/// First history slot whose entry lies within one second before the
/// aligned timestamp, `-1` when none does.
pub open spec fn find_ref(h: Seq<u32>, aligned: u32, i: int) -> int
    decreases 16 - i,
{
    if i >= 16 {
        -1
    } else if wsub32(aligned, h[i]) < 32000000 {
        i
    } else {
        find_ref(h, aligned, i + 1)
    }
}

/// Whether the interval between two adjacent PPS snapshots yields a
/// plausible crystal-error ratio: `0.8 <= 32e6 / den <= 1.2`, stated
/// exactly over the integer interval.
pub open spec fn xtal_den_ok(den: u32) -> bool {
    26666667 <= den <= 40000000
}

/// Numerator of the DC-notch filtering delay over [`NOTCH_DEN`], as a
/// function of the IF frequency in Hz: a quartic polynomial of the
/// frequency in kHz, zero outside +-75 kHz.
pub open spec fn notch_num(f: i32) -> int {
    if f < -75000 || f > 75000 {
        0
    } else {
        17 * (f * f * f * f) + 24000 * (f * f * f) - 101000000000 * (f * f)
            - 127500000000000 * f + 102922000000000000000
    }
}

/// The fine timestamp in nanoseconds: the tick distance to the PPS
/// reference plus the mean metric and the notch delay, times 31.25 ns per
/// tick, times the crystal-error ratio `32e6 / den` — as one exact
/// quotient, clamped below at zero.
pub open spec fn ftime_value(diff: u32, n2: int, sum: int, f: i32, den: u32) -> int {
    let num = ((diff * n2 + sum) * (NOTCH_DEN as int) + n2 * notch_num(f)) * 125 * 32000000;
    if num < 0 {
        0
    } else {
        num / (n2 * (NOTCH_DEN as int) * 4 * den)
    }
}

/// The complete outcome of the engine on given inputs: which error it
/// reports, or the fine timestamp it computes.
pub open spec fn ftime_outcome(
    hist: PpsHistoryModel,
    metrics: Seq<i8>,
    nb: u8,
    ts: u32,
    sf: u8,
    if_freq_hz: i32,
    freq_hz: u32,
    freq_offset_hz: i32,
    live_pps: u32,
) -> Result<u32, HalError> {
    if hist.size < 16 {
        Err(HalError::InsufficientHistory)
    } else {
        let aligned = aligned_ts(ts, sf, freq_offset_hz, freq_hz);
        let n2 = clipped_count2(sf, nb);
        let sum = cumsum_total(metrics, n2);
        let h2 = save_spec(hist, live_pps);
        if wsub32(aligned, live_pps) > 32000000 {
            let i = find_ref(h2.history, aligned, 0);
            if i == -1 {
                Err(HalError::InsufficientHistory)
            } else {
                let next = if i + 1 == 16 { 0 } else { i + 1 };
                let den = wsub32(h2.history[next], h2.history[i]);
                if !xtal_den_ok(den) {
                    Err(HalError::CrystalErrorOutOfRange)
                } else {
                    let v = ftime_value(wsub32(aligned, h2.history[i]), n2, sum, if_freq_hz, den);
                    if v >= 1000000000 {
                        Err(HalError::FineTimestampOverflow)
                    } else {
                        Ok(v as u32)
                    }
                }
            }
        } else {
            let prev = if h2.idx == 0 { 15int } else { h2.idx - 1 };
            let den = wsub32(h2.history[h2.idx], h2.history[prev]);
            if !xtal_den_ok(den) {
                Err(HalError::CrystalErrorOutOfRange)
            } else {
                let v = ftime_value(wsub32(aligned, live_pps), n2, sum, if_freq_hz, den);
                if v >= 1000000000 {
                    Err(HalError::FineTimestampOverflow)
                } else {
                    Ok(v as u32)
                }
            }
        }
    }
}

/// `find_ref` skips over slots whose entries lie too far from the
/// timestamp.
proof fn lemma_find_ref_skip(h: Seq<u32>, aligned: u32, i: int)
    requires
        0 <= i <= 16,
        forall|p: int| 0 <= p < i ==> wsub32(aligned, #[trigger] h[p]) >= 32000000,
    ensures
        find_ref(h, aligned, 0) == find_ref(h, aligned, i),
    decreases i,
{
    if i > 0 {
        lemma_find_ref_skip(h, aligned, i - 1);
        assert(find_ref(h, aligned, i - 1) == find_ref(h, aligned, i));
    }
}

/// A product is bounded in magnitude by the product of the magnitudes'
/// bounds.
pub proof fn lemma_abs_mul_bound(a: int, amax: int, b: int, bmax: int)
    requires
        -amax <= a <= amax,
        -bmax <= b <= bmax,
        0 <= amax,
        0 <= bmax,
    ensures
        -(amax * bmax) <= a * b <= amax * bmax,
{
    broadcast use vstd::arithmetic::mul::lemma_mul_unary_negation;
    if a >= 0 && b >= 0 {
        vstd::arithmetic::mul::lemma_mul_upper_bound(a, amax, b, bmax);
        vstd::arithmetic::mul::lemma_mul_nonnegative(a, b);
    } else if a >= 0 && b < 0 {
        vstd::arithmetic::mul::lemma_mul_upper_bound(a, amax, -b, bmax);
        vstd::arithmetic::mul::lemma_mul_nonnegative(a, -b);
        assert(a * b == -(a * (-b)));
    } else if a < 0 && b >= 0 {
        vstd::arithmetic::mul::lemma_mul_upper_bound(-a, amax, b, bmax);
        vstd::arithmetic::mul::lemma_mul_nonnegative(-a, b);
        assert(a * b == -((-a) * b));
    } else {
        vstd::arithmetic::mul::lemma_mul_upper_bound(-a, amax, -b, bmax);
        vstd::arithmetic::mul::lemma_mul_nonnegative(-a, -b);
        assert((-a) * (-b) == -(a * (-b)));
        assert(a * (-b) == -(a * b));
    }
}

/// Numerator of the DC-notch filtering delay over [`NOTCH_DEN`]: the
/// quartic group-delay polynomial of the IF frequency, evaluated exactly.
pub fn sx1302_dc_notch_delay(if_freq_hz: i32) -> (r: i128)
    ensures
        r == notch_num(if_freq_hz),
        -1300000000000000000000 <= r <= 1300000000000000000000,
{
    if if_freq_hz < -75000 || if_freq_hz > 75000 {
        0
    } else {
        let f: i128 = if_freq_hz as i128;
        proof {
            lemma_abs_mul_bound(f as int, 75000, f as int, 75000);
            if f >= 0 {
                vstd::arithmetic::mul::lemma_mul_nonnegative(f as int, f as int);
            } else {
                broadcast use vstd::arithmetic::mul::lemma_mul_unary_negation;
                vstd::arithmetic::mul::lemma_mul_nonnegative(-(f as int), -(f as int));
                assert((-(f as int)) * (-(f as int)) == (f as int) * (f as int));
            }
        }
        let f2: i128 = f * f;
        proof {
            lemma_abs_mul_bound(f2 as int, 5625000000, f as int, 75000);
        }
        let f3: i128 = f2 * f;
        proof {
            lemma_abs_mul_bound(f3 as int, 421875000000000, f as int, 75000);
        }
        let f4: i128 = f3 * f;
        17 * f4 + 24000 * f3 - 101000000000 * f2 - 127500000000000 * f + 102922000000000000000
    }
}

/// Computes the nanosecond fine timestamp of a packet since the last PPS
/// edge.
///
/// `ts_metrics` holds two signed deltas per stored metric;
/// `timestamp_cnt` is the packet's raw timestamp in the 32 MHz domain;
/// `freq_offset_hz / freq_hz` is the packet's frequency-error ratio; and
/// `timestamp_pps_reg` is a fresh read of the live PPS counter register,
/// which is also folded into the history.
///
/// Fails with [`HalError::InsufficientHistory`] until the history holds
/// its full 16 entries, and when no history entry lies within one second
/// of the packet; with [`HalError::CrystalErrorOutOfRange`] when the PPS
/// interval at the reference implies a crystal-error ratio outside
/// [0.8, 1.2]; and with [`HalError::FineTimestampOverflow`] when the
/// result would reach one full second. A returned timestamp is always
/// below 1 000 000 000 ns.
#[verifier::rlimit(100)]
pub fn precise_timestamp_calculate(
    history: &mut TimestampPpsHistory,
    ts_metrics: &Vec<i8>,
    ts_metrics_nb: u8,
    timestamp_cnt: u32,
    sf: u8,
    if_freq_hz: i32,
    freq_hz: u32,
    freq_offset_hz: i32,
    timestamp_pps_reg: u32,
) -> (r: Result<u32, HalError>)
    requires
        history_wf(*old(history)),
        ts_metrics_nb >= 1,
        ts_metrics@.len() >= clipped_count2(sf, ts_metrics_nb),
        5 <= sf <= 12,
        100000000 <= freq_hz <= 1002000000,
        -4000000 <= freq_offset_hz <= 4000000,
    ensures
        history_wf(*final(history)),
        old(history)@.size < 16 ==> *final(history) == *old(history),
        old(history)@.size >= 16 ==> final(history)@ == save_spec(
            old(history)@,
            timestamp_pps_reg,
        ),
        r == ftime_outcome(
            old(history)@,
            ts_metrics@,
            ts_metrics_nb,
            timestamp_cnt,
            sf,
            if_freq_hz,
            freq_hz,
            freq_offset_hz,
            timestamp_pps_reg,
        ),
        r.is_ok() ==> 0 <= r.unwrap() < 1000000000,
{
    /* A fine timestamp needs a fully populated PPS history */
    if history.size < 16 {
        return Err(HalError::InsufficientHistory);
    }

    /* Align the coarse timestamp from end of packet to end of preamble */
    let p2sf: u32 = crate::toa::pow2_sf(sf);
    let base: u32 = 256 * p2sf * (if sf == 5 || sf == 6 { 14 } else { 12 }) + 256 * (p2sf / 4 - 1);
    proof {
        assert(base == preamble_offset_base(sf));
        assert(base <= 15000000);
        lemma_abs_mul_bound(2 * (base as int), 30000000, freq_offset_hz as int, 4000000);
    }

    /* Fold in the packet frequency error, rounding half up */
    let numer: i64 = 2 * (base as i64) * (freq_offset_hz as i64) + freq_hz as i64;
    let denom: i64 = 2 * (freq_hz as i64);
    let adj: i64 = div_floor_i64(numer, denom);
    proof {
        let d = denom as int;
        let q = adj as int;
        if q > 605000 {
            vstd::arithmetic::mul::lemma_mul_inequality(200000000, d, q);
            vstd::arithmetic::mul::lemma_mul_left_inequality(200000000, 605001, q);
            assert(false);
        }
        if q + 1 < -605000 {
            let z = -(q + 1);
            broadcast use vstd::arithmetic::mul::lemma_mul_unary_negation;
            vstd::arithmetic::mul::lemma_mul_inequality(200000000, d, z);
            vstd::arithmetic::mul::lemma_mul_left_inequality(200000000, 605001, z);
            assert(d * (q + 1) == -(d * z));
            assert(false);
        }
        assert(-1100000 <= adj <= 1100000);
    }
    let total: i64 = base as i64 + adj;
    let aligned: u32 = if total >= 0 {
        timestamp_cnt.wrapping_sub(total as u32).wrapping_add(2138)
    } else {
        timestamp_cnt.wrapping_add((-total) as u32).wrapping_add(2138)
    };
    proof {
        lemma_aligned_wrap(timestamp_cnt, total as int, aligned);
        assert(aligned == aligned_ts(timestamp_cnt, sf, freq_offset_hz, freq_hz));
    }

    /* Clip the number of metrics by spreading factor */
    let cap: u8 = if sf == 12 { 4 } else if sf == 11 { 8 } else if sf == 10 { 16 } else { 32 };
    let nb_clipped: u8 = if ts_metrics_nb < cap { ts_metrics_nb } else { cap };
    let n2: usize = 2 * nb_clipped as usize;
    proof {
        assert(n2 == clipped_count2(sf, ts_metrics_nb));
    }

    /* Cumulative sum of the metric deltas, and its total */
    let mut cur: i32 = 0;
    let mut sum: i32 = 0;
    let mut i: usize = 0;
    while i < n2
        invariant
            n2 <= 64,
            n2 <= ts_metrics@.len(),
            i <= n2,
            cur == prefix_sum(ts_metrics@, i as int),
            sum == cumsum_total(ts_metrics@, i as int),
            -128 * i <= cur <= 128 * i,
            -8192 * i <= sum <= 8192 * i,
        decreases n2 - i,
    {
        cur = cur + ts_metrics[i] as i32;
        sum = sum + cur;
        i = i + 1;
    }

    /* Keep the history current with the live PPS register */
    let ghost h_old = history@;
    history.save(timestamp_pps_reg);
    let ghost h2 = history@;

    /* Choose the PPS reference for the packet */
    let ref_pps: u32;
    let den: u32;
    if aligned.wrapping_sub(timestamp_pps_reg) > 32000000 {
        /* The live value is past the packet: rewind through the history */
        let mut idx: usize = 0;
        let mut found: bool = false;
        while !found && idx < 16
            invariant
                history_wf(*history),
                history@ == h2,
                idx <= 16,
                !found ==> find_ref(h2.history, aligned, 0) == find_ref(
                    h2.history,
                    aligned,
                    idx as int,
                ),
                found ==> find_ref(h2.history, aligned, 0) == idx && idx < 16 && wsub32(
                    aligned,
                    h2.history[idx as int],
                ) < 32000000,
            decreases 16 - idx + (if found { 0int } else { 1 }),
        {
            if aligned.wrapping_sub(history.history[idx]) < 32000000 {
                found = true;
            } else {
                idx = idx + 1;
            }
        }
        if !found {
            return Err(HalError::InsufficientHistory);
        }
        ref_pps = history.history[idx];
        let next: usize = if idx + 1 == 16 { 0 } else { idx + 1 };
        den = history.history[next].wrapping_sub(history.history[idx]);
    } else {
        /* The live value is the reference */
        ref_pps = timestamp_pps_reg;
        let idx: usize = history.idx;
        let prev: usize = if idx == 0 { 15 } else { idx - 1 };
        den = history.history[idx].wrapping_sub(history.history[prev]);
    }

    /* The crystal-error ratio 32e6 / den must lie within [0.8, 1.2] */
    if den < 26666667 || den > 40000000 {
        return Err(HalError::CrystalErrorOutOfRange);
    }

    /* Ticks from the PPS reference to the end of the preamble */
    let diff: u32 = aligned.wrapping_sub(ref_pps);
    proof {
        assert(diff == wsub32(aligned, ref_pps));
        assert(diff <= 32000000);
    }

    /* Exact value: (diff + sum/n2 + notch/NOTCH_DEN) * 125/4 * 32e6/den */
    let notch: i128 = sx1302_dc_notch_delay(if_freq_hz);
    let diff_i: i128 = diff as i128;
    let n2i: i128 = n2 as i128;
    let sum_i: i128 = sum as i128;
    proof {
        vstd::arithmetic::mul::lemma_mul_upper_bound(diff_i as int, 32000000, n2i as int, 64);
        vstd::arithmetic::mul::lemma_mul_nonnegative(diff_i as int, n2i as int);
        lemma_abs_mul_bound((diff_i * n2i + sum_i) as int, 2049000000, NOTCH_DEN as int,
            10000000000000000000);
        lemma_abs_mul_bound(n2i as int, 64, notch as int, 1300000000000000000000);
        lemma_abs_mul_bound(
            ((diff_i * n2i + sum_i) * NOTCH_DEN + n2i * notch) as int,
            20496000000000000000000000000,
            125,
            125,
        );
        lemma_abs_mul_bound(
            (((diff_i * n2i + sum_i) * NOTCH_DEN + n2i * notch) * 125) as int,
            2562000000000000000000000000000,
            32000000,
            32000000,
        );
    }
    let num: i128 = ((diff_i * n2i + sum_i) * NOTCH_DEN + n2i * notch) * 125 * 32000000;
    proof {
        lemma_abs_mul_bound(n2i as int, 64, NOTCH_DEN as int, 10000000000000000000);
        lemma_abs_mul_bound((n2i * NOTCH_DEN) as int, 640000000000000000000, 4, 4);
        lemma_abs_mul_bound((n2i * NOTCH_DEN * 4) as int, 2560000000000000000000,
            den as int, 40000000);
        vstd::arithmetic::mul::lemma_mul_strictly_positive((n2i * NOTCH_DEN * 4) as int,
            den as int);
        assert(n2i * NOTCH_DEN * 4 > 0) by {
            vstd::arithmetic::mul::lemma_mul_strictly_positive(n2i as int, NOTCH_DEN as int);
            vstd::arithmetic::mul::lemma_mul_strictly_positive((n2i * NOTCH_DEN) as int, 4);
        }
    }
    let dtot: i128 = n2i * NOTCH_DEN * 4 * (den as i128);

    let value: u128 = if num < 0 {
        0
    } else {
        (num as u128) / (dtot as u128)
    };
    proof {
        if num >= 0 {
            vstd::arithmetic::div_mod::lemma_div_nonincreasing(num as int, dtot as int);
            vstd::arithmetic::div_mod::lemma_div_pos_is_pos(num as int, dtot as int);
        }
        assert(value == ftime_value(diff, n2 as int, sum as int, if_freq_hz, den));
    }

    /* The result must stay below one second */
    if value >= 1000000000 {
        return Err(HalError::FineTimestampOverflow);
    }

    Ok(value as u32)
}

/// Floor division on 64-bit integers (the quotient rounded toward
/// negative infinity).
fn div_floor_i64(a: i64, b: i64) -> (r: i64)
    requires
        b >= 1,
        -9223372036854775807 <= a,
    ensures
        r == a as int / b as int,
        b * r <= a < b * (r + 1),
{
    let r: i64 = if a >= 0 {
        ((a as u64) / (b as u64)) as i64
    } else {
        let n: u64 = (-a) as u64;
        let q: u64 = (n + (b as u64) - 1) / (b as u64);
        proof {
            let bi = b as int;
            let qi = q as int;
            let ni = n as int;
            vstd::arithmetic::div_mod::lemma_fundamental_div_mod(ni + bi - 1, bi);
            let rr = (ni + bi - 1) % bi;
            assert(ni + bi - 1 == bi * qi + rr);
            broadcast use vstd::arithmetic::mul::lemma_mul_unary_negation;
            assert(bi * (-qi) == -(bi * qi));
            vstd::arithmetic::div_mod::lemma_div_pos_is_pos(ni + bi - 1, bi);
            if qi > ni {
                vstd::arithmetic::mul::lemma_mul_left_inequality(bi, ni + 1, qi);
                vstd::arithmetic::mul::lemma_mul_is_distributive_add(bi, ni, 1);
                vstd::arithmetic::mul::lemma_mul_inequality(1, bi, ni);
                assert(false);
            }
            assert(-ni == bi * (-qi) + (bi - 1 - rr));
            vstd::arithmetic::div_mod::lemma_fundamental_div_mod_converse(
                -ni,
                bi,
                -qi,
                bi - 1 - rr,
            );
            assert((-ni) / bi == -qi);
        }
        -(q as i64)
    };
    proof {
        vstd::arithmetic::div_mod::lemma_fundamental_div_mod(a as int, b as int);
        vstd::arithmetic::mul::lemma_mul_is_distributive_add(b as int, r as int, 1);
        assert((b as int) * 1 == b as int);
        assert(b * r <= a < b * (r + 1));
    }
    r
}

/// Wrapped subtraction of a small signed offset followed by the 2138-tick
/// group delay lands on the modular alignment formula.
proof fn lemma_aligned_wrap(ts: u32, total: int, aligned: u32)
    requires
        -2000000 <= total <= 15000000,
        total >= 0 ==> aligned == vstd::wrapping::u32_specs::wrapping_add(
            vstd::wrapping::u32_specs::wrapping_sub(ts, total as u32),
            2138,
        ),
        total < 0 ==> aligned == vstd::wrapping::u32_specs::wrapping_add(
            vstd::wrapping::u32_specs::wrapping_add(ts, (-total) as u32),
            2138,
        ),
    ensures
        aligned == ((ts - total + 2138) % 0x100000000) as u32,
{
    let m: int = 0x100000000;
    let x: int = ts - total + 2138;
    assert(-m < x < 2 * m);
    if total >= 0 {
        let a1: int = vstd::wrapping::u32_specs::wrapping_sub(ts, total as u32) as int;
        assert(a1 == (if ts - total < 0 { ts - total + m } else { ts - total as int }));
        assert(aligned == (if a1 + 2138 > u32::MAX { a1 + 2138 - m } else { a1 + 2138 }));
    } else {
        let a1: int = vstd::wrapping::u32_specs::wrapping_add(ts, (-total) as u32) as int;
        assert(a1 == (if ts + (-total) > u32::MAX { ts - total - m } else { ts - total as int }));
        assert(aligned == (if a1 + 2138 > u32::MAX { a1 + 2138 - m } else { a1 + 2138 }));
    }
    if 0 <= x < m {
        vstd::arithmetic::div_mod::lemma_small_mod(x as nat, m as nat);
    } else if x < 0 {
        vstd::arithmetic::div_mod::lemma_mod_add_multiples_vanish(x, m);
        vstd::arithmetic::div_mod::lemma_small_mod((x + m) as nat, m as nat);
    } else {
        vstd::arithmetic::div_mod::lemma_mod_sub_multiples_vanish(x, m);
        vstd::arithmetic::div_mod::lemma_small_mod((x - m) as nat, m as nat);
    }
}

} // verus!

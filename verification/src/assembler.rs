//! The packet assembler: pops raw records, classifies their modem,
//! validates the payload CRC, maps raw codes to semantic channel
//! parameters, and merges the coarse and fine timestamps into the
//! externally visible record.

use vstd::prelude::*;

use crate::codec::{crc16_seq, sx1302_lora_payload_crc};
use crate::config::{
    context_wf, ifmod_config_spec, sx1302_get_ifmod_config, LgwContext, LgwPktRx, Modulation,
    BW_125KHZ, BW_250KHZ, BW_500KHZ, CR_UNDEFINED, DR_UNDEFINED, IF_LORA_MULTI, IF_LORA_STD,
    STAT_CRC_BAD, STAT_CRC_OK, STAT_NO_CRC,
};
use crate::correction::{correction_spec, timestamp_counter_correction, RX_DFT_PEAK_MODE_AUTO};
use crate::error::HalError;
use crate::ftime::{ftime_outcome, precise_timestamp_calculate};
use crate::radio::{div_trunc, IF_HZ_TO_REG};
use crate::rx_buffer::{
    chain_off, channel_at, coding_rate_at, crc16_at, crc_en_at, crc_error_at, datarate_at,
    fetch_post, find_sync, freq_offset_at, lemma_chain_pop, lemma_chain_scan, metrics_at,
    metrics_nb_at, modem_id_at, payload_at, payload_len_at, pop_err_kind, pop_ok, record_len_at,
    rssi_chan_at, rssi_sig_at, rx_buffer_empty, rx_buffer_wf, snr_average_at, sync_at,
    timestamp_at, timing_set_at, wellformed_chain, RxBuffer,
};
use crate::timestamp::{
    expanded, history_wf, info_wf, pkt_wrap, save_spec, wrap_after, TimestampCounter,
    TimestampPpsHistory,
};

verus! {

/// The receive-path state of one concentrator chip: the FIFO staging
/// buffer, the wrapping-counter domains, and the PPS history.
#[derive(Clone, Debug)]
pub struct Sx1302 {
    /// Staging buffer holding fetched FIFO data.
    pub rx_buffer: RxBuffer,
    /// The two expanded timestamp-counter domains.
    pub counter_us: TimestampCounter,
    /// History of recent PPS counter snapshots.
    pub timestamp_pps_history: TimestampPpsHistory,
}

/// The chip state is well formed when each part is.
pub open spec fn sx1302_wf(s: Sx1302) -> bool {
    &&& rx_buffer_wf(s.rx_buffer)
    &&& info_wf(s.counter_us.inst)
    &&& info_wf(s.counter_us.pps)
    &&& history_wf(s.timestamp_pps_history)
}

/// The PPS half of an 8-byte counter-pair read, big-endian.
pub open spec fn pps_raw_of(bu: Seq<u8>) -> int {
    (bu[0] as int) * 0x1000000 + (bu[1] as int) * 0x10000 + (bu[2] as int) * 0x100 + bu[3] as int
}

/// The instantaneous half of an 8-byte counter-pair read, big-endian.
pub open spec fn inst_raw_of(bu: Seq<u8>) -> int {
    (bu[4] as int) * 0x1000000 + (bu[5] as int) * 0x10000 + (bu[6] as int) * 0x100 + bu[7] as int
}

/// Whether two reads of the counter pair disagree on either MSB, so that
/// the pair must be read once more (a read may straddle a carry).
pub fn counter_read_needs_retry(b1: &[u8; 8], b2: &[u8; 8]) -> (r: bool)
    ensures
        r == (b1@[0] != b2@[0] || b1@[4] != b2@[4]),
{
    b1[0] != b2[0] || b1[4] != b2[4]
}

impl Sx1302 {
    /// Fresh chip state: empty buffer, zeroed counters, empty history.
    pub fn new() -> (r: Self)
        ensures
            sx1302_wf(r),
            rx_buffer_empty(r.rx_buffer),
            r.timestamp_pps_history@.size == 0,
    {
        Sx1302 {
            rx_buffer: RxBuffer::new(),
            counter_us: TimestampCounter::new(),
            timestamp_pps_history: TimestampPpsHistory::new(),
        }
    }

    /// Digests one 8-byte read of the counter pair: records the raw PPS
    /// snapshot in the history, steps the wrap state of both domains, and
    /// returns the expanded 32-bit (instantaneous, PPS) clocks in
    /// microseconds.
    pub fn timestamp_counter_get(&mut self, buff: &[u8; 8]) -> (r: (u32, u32))
        requires
            sx1302_wf(*old(self)),
        ensures
            sx1302_wf(*final(self)),
            final(self).rx_buffer == old(self).rx_buffer,
            final(self).timestamp_pps_history@ == save_spec(
                old(self).timestamp_pps_history@,
                pps_raw_of(buff@) as u32,
            ),
            final(self).counter_us.pps.counter_us_27bits_ref == pps_raw_of(buff@) / 32,
            final(self).counter_us.inst.counter_us_27bits_ref == inst_raw_of(buff@) / 32,
            final(self).counter_us.pps.counter_us_27bits_wrap == wrap_after(
                old(self).counter_us.pps,
                (pps_raw_of(buff@) / 32) as u32,
            ),
            final(self).counter_us.inst.counter_us_27bits_wrap == wrap_after(
                old(self).counter_us.inst,
                (inst_raw_of(buff@) / 32) as u32,
            ),
            r.0 == expanded(
                final(self).counter_us.inst.counter_us_27bits_wrap,
                (inst_raw_of(buff@) / 32) as u32,
            ),
            r.1 == expanded(
                final(self).counter_us.pps.counter_us_27bits_wrap,
                (pps_raw_of(buff@) / 32) as u32,
            ),
    {
        let pps_raw: u32 = (buff[0] as u32) * 0x1000000 + (buff[1] as u32) * 0x10000
            + (buff[2] as u32) * 0x100 + buff[3] as u32;
        let inst_raw: u32 = (buff[4] as u32) * 0x1000000 + (buff[5] as u32) * 0x10000
            + (buff[6] as u32) * 0x100 + buff[7] as u32;

        /* Keep the PPS history current, in the raw 32 MHz domain */
        self.timestamp_pps_history.save(pps_raw);

        /* Scale to 1 MHz */
        let pps_us: u32 = pps_raw / 32;
        let inst_us: u32 = inst_raw / 32;

        /* Step the wrap state and expand both domains */
        self.counter_us.update(pps_us, inst_us);
        let inst = self.counter_us.expand(false, inst_us);
        let pps = self.counter_us.expand(true, pps_us);
        (inst, pps)
    }

    /// Makes packets available for parsing: when none remain from the
    /// previous fetch, stages the given FIFO bytes; otherwise leaves the
    /// remaining packets in place. Returns how many packets are available.
    pub fn sx1302_fetch(&mut self, raw: &[u8]) -> (r: u8)
        requires
            sx1302_wf(*old(self)),
            raw@.len() <= 4096,
        ensures
            sx1302_wf(*final(self)),
            final(self).counter_us == old(self).counter_us,
            final(self).timestamp_pps_history == old(self).timestamp_pps_history,
            old(self).rx_buffer.buffer_pkt_nb > 0 ==> *final(self) == *old(self),
            old(self).rx_buffer.buffer_pkt_nb == 0 ==> fetch_post(final(self).rx_buffer, raw@),
            r == final(self).rx_buffer.buffer_pkt_nb,
    {
        if self.rx_buffer.buffer_pkt_nb == 0 {
            self.rx_buffer.clear();
            self.rx_buffer.fetch(raw);
        }
        self.rx_buffer.buffer_pkt_nb
    }
}

/// Whether the IF chain of the record at `c` carries a LoRa modem.
pub open spec fn is_lora_chain(b: Seq<u8>, c: int) -> bool {
    ifmod_config_spec(channel_at(b, c)) == IF_LORA_MULTI || ifmod_config_spec(channel_at(b, c))
        == IF_LORA_STD
}

/// Whether payload CRC checking applies to the record at `c`: the
/// transmitter enabled it, or the LoRa service channel is configured for
/// an implicit-header CRC.
pub open spec fn crc_used(ctx: LgwContext, b: Seq<u8>, c: int) -> bool {
    crc_en_at(b, c) || (ifmod_config_spec(channel_at(b, c)) == IF_LORA_STD
        && ctx.lora_service_cfg.implicit_crc_en)
}

/// CRC status reported for the record at `c`.
pub open spec fn status_spec(ctx: LgwContext, b: Seq<u8>, c: int) -> u8 {
    if is_lora_chain(b, c) {
        if crc_used(ctx, b, c) {
            if crc_error_at(b, c) {
                STAT_CRC_BAD
            } else {
                STAT_CRC_OK
            }
        } else {
            STAT_NO_CRC
        }
    } else {
        if crc_en_at(b, c) {
            if crc_error_at(b, c) {
                STAT_CRC_BAD
            } else {
                STAT_CRC_OK
            }
        } else {
            STAT_NO_CRC
        }
    }
}

/// Whether the record at `c` is rejected because its payload fails the
/// CRC16 carried in its tail.
pub open spec fn crc16_reject(ctx: LgwContext, b: Seq<u8>, c: int) -> bool {
    is_lora_chain(b, c) && crc_used(ctx, b, c) && !crc_error_at(b, c) && payload_len_at(b, c) > 0
        && crc16_seq(payload_at(b, c)) != crc16_at(b, c)
}

/// Bandwidth code reported for the record at `c`.
pub open spec fn bandwidth_spec(ctx: LgwContext, b: Seq<u8>, c: int) -> u8 {
    if is_lora_chain(b, c) {
        if ifmod_config_spec(channel_at(b, c)) == IF_LORA_MULTI {
            BW_125KHZ
        } else {
            ctx.lora_service_cfg.bandwidth
        }
    } else {
        ctx.fsk_cfg.bandwidth
    }
}

/// Datarate reported for the record at `c`: the spreading factor for
/// LoRa, the configured baudrate for FSK.
pub open spec fn datarate_spec(ctx: LgwContext, b: Seq<u8>, c: int) -> u32 {
    if is_lora_chain(b, c) {
        if 5 <= datarate_at(b, c) <= 12 {
            datarate_at(b, c) as u32
        } else {
            DR_UNDEFINED
        }
    } else {
        ctx.fsk_cfg.datarate
    }
}

/// Raw coding-rate code of the record at `c`, taking the implicit-header
/// configuration of the LoRa service channel into account.
pub open spec fn coderate_raw_spec(ctx: LgwContext, b: Seq<u8>, c: int) -> u8 {
    if ifmod_config_spec(channel_at(b, c)) == IF_LORA_MULTI || !ctx.lora_service_cfg.implicit_hdr {
        coding_rate_at(b, c)
    } else {
        ctx.lora_service_cfg.implicit_coderate
    }
}

/// Coding-rate code reported for the record at `c`.
pub open spec fn coderate_spec(ctx: LgwContext, b: Seq<u8>, c: int) -> u8 {
    if is_lora_chain(b, c) {
        if 1 <= coderate_raw_spec(ctx, b, c) <= 4 {
            coderate_raw_spec(ctx, b, c)
        } else {
            CR_UNDEFINED
        }
    } else {
        CR_UNDEFINED
    }
}

/// Center frequency of the record's channel: RF chain base frequency plus
/// configured IF offset, on the 32-bit unsigned range.
pub open spec fn freq_hz_spec(ctx: LgwContext, b: Seq<u8>, c: int) -> u32 {
    let ch = channel_at(b, c) as int;
    let rf = ctx.if_chain_cfg@[ch].rf_chain as int;
    ((ctx.rf_chain_cfg@[rf].freq_hz + ctx.if_chain_cfg@[ch].freq_hz) % 0x100000000) as u32
}

/// Per-LSB numerator/denominator of the frequency-offset register at each
/// bandwidth: `bw * 32 / 2^25` Hz per step.
pub open spec fn freq_offset_scale(bandwidth: u8) -> (int, int) {
    if bandwidth == BW_125KHZ {
        (15625, 131072)
    } else if bandwidth == BW_250KHZ {
        (15625, 65536)
    } else if bandwidth == BW_500KHZ {
        (15625, 32768)
    } else {
        (0, 1)
    }
}

/// Quantization error of the IF frequency register: how many Hz the
/// configured IF misses its register representation by.
pub open spec fn if_freq_error_spec(if_hz: int) -> int {
    if_hz - div_trunc(div_trunc(32 * if_hz, 15625) * 15625, 32)
}

/// Frequency offset in Hz reported for the record at `c`: the 20-bit
/// register scaled by the bandwidth-dependent step, corrected by the IF
/// register quantization error. Zero for FSK.
pub open spec fn freq_offset_hz_spec(ctx: LgwContext, b: Seq<u8>, c: int) -> int {
    if is_lora_chain(b, c) {
        let (num, den) = freq_offset_scale(bandwidth_spec(ctx, b, c));
        let ch = channel_at(b, c) as int;
        div_trunc(freq_offset_at(b, c) * num, den) + if_freq_error_spec(
            ctx.if_chain_cfg@[ch].freq_hz as int,
        )
    } else {
        0
    }
}

/// Coarse timestamp correction applied to the record at `c`, in
/// microseconds.
pub open spec fn pkt_correction_spec(ctx: LgwContext, b: Seq<u8>, c: int) -> int {
    if is_lora_chain(b, c) {
        correction_spec(
            ctx.ftime_cfg.enable,
            bandwidth_spec(ctx, b, c),
            datarate_spec(ctx, b, c) as u8,
            coderate_spec(ctx, b, c),
            crc_en_at(b, c),
            (payload_len_at(b, c)) as u8,
            RX_DFT_PEAK_MODE_AUTO,
        )
    } else {
        680000int / (ctx.fsk_cfg.datarate as int) - 20
    }
}

/// Expanded and corrected arrival timestamp of the record at `c`, in
/// microseconds on the wrapping 32-bit clock.
pub open spec fn count_us_spec(inst: crate::timestamp::TimestampInfo, b: Seq<u8>, c: int, corr: int) -> u32 {
    let ts = (timestamp_at(b, c) / 32) as u32;
    ((expanded(pkt_wrap(inst, ts), ts) + corr) % 0x100000000) as u32
}

/// Whether a fine timestamp is attempted for the record at `c`: a LoRa
/// record with stored metrics, its timing latched and its CRC good, a
/// plausible spreading factor, and channel frequency figures inside the
/// radio tuning range (the machine limits of the engine's arithmetic).
pub open spec fn ftime_eligible(ctx: LgwContext, b: Seq<u8>, c: int) -> bool {
    &&& is_lora_chain(b, c)
    &&& metrics_nb_at(b, c) >= 1
    &&& timing_set_at(b, c)
    &&& status_spec(ctx, b, c) == STAT_CRC_OK
    &&& 5 <= datarate_at(b, c) <= 12
    &&& 100000000 <= freq_hz_spec(ctx, b, c) <= 1002000000
    &&& -4000000 <= freq_offset_hz_spec(ctx, b, c) <= 4000000
}

/// The fine-timestamp outcome for the record at `c`, given the history
/// state and the live PPS register.
pub open spec fn pkt_ftime_outcome(
    ctx: LgwContext,
    b: Seq<u8>,
    c: int,
    hist: crate::timestamp::PpsHistoryModel,
    live_pps: u32,
) -> Result<u32, HalError> {
    ftime_outcome(
        hist,
        metrics_at(b, c),
        metrics_nb_at(b, c) as u8,
        timestamp_at(b, c) as u32,
        datarate_at(b, c),
        ctx.if_chain_cfg@[channel_at(b, c) as int].freq_hz,
        freq_hz_spec(ctx, b, c),
        freq_offset_hz_spec(ctx, b, c) as i32,
        live_pps,
    )
}

/// All fields of an assembled record except the fine timestamp.
pub open spec fn assembled_core_matches(
    p: LgwPktRx,
    ctx: LgwContext,
    b: Seq<u8>,
    c: int,
    inst: crate::timestamp::TimestampInfo,
) -> bool {
    &&& p.size as int == payload_len_at(b, c)
    &&& p.payload@ == payload_at(b, c)
    &&& p.modem_id == modem_id_at(b, c)
    &&& p.if_chain == channel_at(b, c)
    &&& p.rf_chain == ctx.if_chain_cfg@[channel_at(b, c) as int].rf_chain
    &&& p.freq_hz == freq_hz_spec(ctx, b, c)
    &&& p.status == status_spec(ctx, b, c)
    &&& p.modulation == (if is_lora_chain(b, c) {
        Modulation::LORA
    } else {
        Modulation::FSK
    })
    &&& p.bandwidth == bandwidth_spec(ctx, b, c)
    &&& p.datarate == datarate_spec(ctx, b, c)
    &&& p.coderate == coderate_spec(ctx, b, c)
    &&& p.freq_offset as int == freq_offset_hz_spec(ctx, b, c)
    &&& p.snr_raw == (if is_lora_chain(b, c) {
        snr_average_at(b, c)
    } else {
        -128i8
    })
    &&& p.rssic_raw == rssi_chan_at(b, c)
    &&& p.rssis_raw == (if is_lora_chain(b, c) {
        rssi_sig_at(b, c)
    } else {
        0u8
    })
    &&& p.crc as int == crc16_at(b, c)
    &&& p.count_us == count_us_spec(inst, b, c, pkt_correction_spec(ctx, b, c))
}

/// Whether assembly accepts the record at `c`: its channel exists and the
/// payload CRC16, where checked, matches.
pub open spec fn assembles_ok(ctx: LgwContext, b: Seq<u8>, c: int) -> bool {
    channel_at(b, c) < 10 && !crc16_reject(ctx, b, c)
}

/// The frequency-offset conversion for one record: register value scaled
/// by the per-LSB step of the bandwidth, plus the IF register
/// quantization error.
pub open spec fn freq_offset_conv_spec(err: int, bandwidth: u8, if_hz: int) -> int {
    let (num, den) = freq_offset_scale(bandwidth);
    div_trunc(err * num, den) + if_freq_error_spec(if_hz)
}

/// Quotient truncated toward zero, on 64-bit values.
fn div_trunc_i64(a: i64, d: u64) -> (r: i64)
    requires
        1 <= d <= 0x100000000,
        -0x1000000000000 <= a <= 0x1000000000000,
    ensures
        r == div_trunc(a as int, d as int),
        -0x1000000000000 <= r <= 0x1000000000000,
{
    if a >= 0 {
        proof {
            vstd::arithmetic::div_mod::lemma_div_nonincreasing(a as int, d as int);
            vstd::arithmetic::div_mod::lemma_div_pos_is_pos(a as int, d as int);
        }
        ((a as u64) / d) as i64
    } else {
        proof {
            vstd::arithmetic::div_mod::lemma_div_nonincreasing(-(a as int), d as int);
            vstd::arithmetic::div_mod::lemma_div_pos_is_pos(-(a as int), d as int);
        }
        -((((-a) as u64) / d) as i64)
    }
}

/// Converts the sign-extended frequency-offset register of a record to
/// Hz, and corrects it by the quantization error of the configured IF
/// frequency.
fn freq_offset_hz_convert(err: i32, bandwidth: u8, if_hz: i32) -> (r: i32)
    requires
        -524288 <= err <= 524287,
        -2000000 <= if_hz <= 2000000,
    ensures
        r as int == freq_offset_conv_spec(err as int, bandwidth, if_hz as int),
        -4250000 <= r <= 4250000,
{
    /* Scale the register by bw * 32 / 2^25 Hz per step */
    let den: u64 = if bandwidth == BW_125KHZ {
        131072
    } else if bandwidth == BW_250KHZ {
        65536
    } else if bandwidth == BW_500KHZ {
        32768
    } else {
        1
    };
    let num: i64 = if bandwidth == BW_125KHZ || bandwidth == BW_250KHZ || bandwidth == BW_500KHZ {
        15625
    } else {
        0
    };
    let conv: i64 = div_trunc_i64((err as i64) * num, den);
    proof {
        crate::ftime::lemma_abs_mul_bound(err as int, 524288, num as int, 15625);
        lemma_div_trunc_abs(err as int * num as int, 8192000000, den as int);
        if bandwidth == BW_125KHZ || bandwidth == BW_250KHZ || bandwidth == BW_500KHZ {
            assert(8192000000int / 32768 == 250000);
            vstd::arithmetic::div_mod::lemma_div_is_ordered_by_denominator(8192000000, 32768,
                den as int);
        } else {
            assert(num == 0);
            assert(err as int * 0 == 0) by (nonlinear_arith);
        }
        assert(-250000 <= conv <= 250000);
    }

    /* Quantization error of the IF frequency register */
    let reg: i64 = IF_HZ_TO_REG(if_hz) as i64;
    proof {
        lemma_div_trunc_abs(32 * (if_hz as int), 64000000, 15625);
        assert(64000000int / 15625 == 4096);
        assert(-4096 <= reg <= 4096);
    }
    let round_trip: i64 = div_trunc_i64(reg * 15625, 32);
    proof {
        crate::ftime::lemma_abs_mul_bound(reg as int, 4096, 15625, 15625);
        lemma_div_trunc_abs(reg as int * 15625, 64000000, 32);
        assert(64000000int / 32 == 2000000);
        assert(-2000000 <= round_trip <= 2000000);
    }
    let if_freq_error: i64 = if_hz as i64 - round_trip;

    (conv + if_freq_error) as i32
}

/// A truncating quotient is bounded in magnitude by the quotient of the
/// numerator's magnitude bound.
proof fn lemma_div_trunc_abs(a: int, amax: int, d: int)
    requires
        -amax <= a <= amax,
        0 <= amax,
        1 <= d,
    ensures
        -(amax / d) <= div_trunc(a, d) <= amax / d,
{
    if a >= 0 {
        vstd::arithmetic::div_mod::lemma_div_is_ordered(a, amax, d);
        vstd::arithmetic::div_mod::lemma_div_pos_is_pos(a, d);
        vstd::arithmetic::div_mod::lemma_div_pos_is_pos(amax, d);
    } else {
        vstd::arithmetic::div_mod::lemma_div_is_ordered(-a, amax, d);
        vstd::arithmetic::div_mod::lemma_div_pos_is_pos(-a, d);
        vstd::arithmetic::div_mod::lemma_div_pos_is_pos(amax, d);
    }
}

/// Reduces a small signed value onto the unsigned 32-bit range.
fn wrap_to_u32(x: i64) -> (r: u32)
    requires
        -0x80000000 <= x < 0x100000000,
    ensures
        r as int == x as int % 0x100000000,
{
    proof {
        let m: int = 0x100000000;
        if x >= 0 {
            vstd::arithmetic::div_mod::lemma_small_mod(x as nat, m as nat);
        } else {
            vstd::arithmetic::div_mod::lemma_mod_add_multiples_vanish(x as int, m);
            vstd::arithmetic::div_mod::lemma_small_mod((x + m) as nat, m as nat);
        }
    }
    if x >= 0 {
        x as u32
    } else {
        (x + 0x100000000) as u32
    }
}

impl Sx1302 {
    /// Pops the next raw record and assembles the externally visible
    /// packet: classifies the modem by IF chain, resolves the channel
    /// frequency, validates the payload CRC16 where one applies, maps raw
    /// codes to semantic parameters, expands and corrects the coarse
    /// timestamp, and attempts the fine timestamp where the record
    /// qualifies.
    ///
    /// A failed pop discards the rest of the buffer and reports the
    /// pop's cause; an out-of-range IF chain reports
    /// [`HalError::OutOfRangeMetadata`] and a payload failing its CRC16
    /// reports [`HalError::Crc16Mismatch`], both leaving the remaining
    /// records available. A failed fine timestamp is not an error: the
    /// packet is returned with its fine-timestamp flag cleared.
    #[verifier::rlimit(100)]
    pub fn sx1302_parse(&mut self, ctx: &LgwContext, live_pps_reg: u32) -> (r: Result<
        LgwPktRx,
        HalError,
    >)
        requires
            context_wf(*ctx),
            sx1302_wf(*old(self)),
        ensures
            sx1302_wf(*final(self)),
            final(self).counter_us == old(self).counter_us,
            ({
                let b = old(self).rx_buffer.buffer@;
                let c = old(self).rx_buffer.buffer_index as int;
                &&& (!pop_ok(b, c) ==> r == Err::<LgwPktRx, HalError>(pop_err_kind(b, c))
                    && rx_buffer_empty(final(self).rx_buffer)
                    && final(self).timestamp_pps_history == old(self).timestamp_pps_history)
                &&& (pop_ok(b, c) ==> {
                    &&& final(self).rx_buffer.buffer@ == b
                    &&& final(self).rx_buffer.buffer_size == old(self).rx_buffer.buffer_size
                    &&& final(self).rx_buffer.buffer_index == c + record_len_at(b, c)
                    &&& final(self).rx_buffer.buffer_pkt_nb == (
                        if old(self).rx_buffer.buffer_pkt_nb > 0 {
                            old(self).rx_buffer.buffer_pkt_nb - 1
                        } else {
                            0int
                        })
                    &&& (channel_at(b, c) >= 10 ==> r == Err::<LgwPktRx, HalError>(
                        HalError::OutOfRangeMetadata,
                    ) && final(self).timestamp_pps_history == old(self).timestamp_pps_history)
                    &&& (channel_at(b, c) < 10 && crc16_reject(*ctx, b, c) ==> r == Err::<
                        LgwPktRx,
                        HalError,
                    >(HalError::Crc16Mismatch) && final(self).timestamp_pps_history == old(
                        self,
                    ).timestamp_pps_history)
                    &&& (assembles_ok(*ctx, b, c) ==> {
                        &&& r.is_ok()
                        &&& assembled_core_matches(
                            r.unwrap(),
                            *ctx,
                            b,
                            c,
                            old(self).counter_us.inst,
                        )
                        &&& (!ftime_eligible(*ctx, b, c) ==> !r.unwrap().ftime_received
                            && r.unwrap().ftime == 0
                            && final(self).timestamp_pps_history == old(
                            self,
                        ).timestamp_pps_history)
                        &&& (ftime_eligible(*ctx, b, c) ==> {
                            let fo = pkt_ftime_outcome(
                                *ctx,
                                b,
                                c,
                                old(self).timestamp_pps_history@,
                                live_pps_reg,
                            );
                            &&& r.unwrap().ftime_received == fo.is_ok()
                            &&& r.unwrap().ftime == (if fo.is_ok() {
                                fo.unwrap() as int
                            } else {
                                0
                            })
                            &&& final(self).timestamp_pps_history@ == (
                                if old(self).timestamp_pps_history@.size >= 16 {
                                    save_spec(old(self).timestamp_pps_history@, live_pps_reg)
                                } else {
                                    old(self).timestamp_pps_history@
                                })
                        })
                    })
                })
            }),
    {
        let ghost b = self.rx_buffer.buffer@;
        let ghost c = self.rx_buffer.buffer_index as int;

        /* Get the next raw record; a bad buffer is discarded whole */
        let pkt = match self.rx_buffer.pop() {
            Ok(pkt) => pkt,
            Err(e) => {
                self.rx_buffer.del();
                return Err(e);
            },
        };

        let mut p = LgwPktRx::new();
        p.size = pkt.rxbytenb_modem as u16;
        p.payload = pkt.payload;
        p.modem_id = pkt.modem_id;
        p.if_chain = pkt.rx_channel_in;
        if p.if_chain >= 10 {
            return Err(HalError::OutOfRangeMetadata);
        }

        let ifmod: u8 = sx1302_get_ifmod_config(p.if_chain);
        p.rf_chain = ctx.if_chain_cfg[p.if_chain as usize].rf_chain;

        /* Channel center frequency: RF chain base plus IF offset */
        let if_hz: i32 = ctx.if_chain_cfg[p.if_chain as usize].freq_hz;
        let rf_hz: u32 = ctx.rf_chain_cfg[p.rf_chain as usize].freq_hz;
        p.freq_hz = wrap_to_u32(rf_hz as i64 + if_hz as i64);

        p.rssic_raw = pkt.rssi_chan_avg;
        p.rssis_raw = pkt.rssi_signal_avg;

        let correction: i32;
        if ifmod == IF_LORA_MULTI || ifmod == IF_LORA_STD {
            p.modulation = Modulation::LORA;

            /* CRC status, and a sanity check of the payload CRC16 */
            let crc_checked: bool = pkt.crc_en || (ifmod == IF_LORA_STD
                && ctx.lora_service_cfg.implicit_crc_en);
            if crc_checked {
                if pkt.payload_crc_error {
                    p.status = STAT_CRC_BAD;
                } else {
                    p.status = STAT_CRC_OK;
                    if p.size > 0 {
                        let crc16_calc = sx1302_lora_payload_crc(&p.payload, p.size as usize);
                        proof {
                            assert(p.payload@.subrange(0, p.size as int) =~= payload_at(b, c));
                        }
                        if crc16_calc != pkt.rx_crc16_value {
                            return Err(HalError::Crc16Mismatch);
                        }
                    }
                }
            } else {
                p.status = STAT_NO_CRC;
            }

            p.snr_raw = pkt.snr_average;

            /* Bandwidth: fixed for the multi-SF modems */
            if ifmod == IF_LORA_MULTI {
                p.bandwidth = BW_125KHZ;
            } else {
                p.bandwidth = ctx.lora_service_cfg.bandwidth;
            }

            /* Datarate: the spreading factor */
            if 5 <= pkt.rx_rate_sf && pkt.rx_rate_sf <= 12 {
                p.datarate = pkt.rx_rate_sf as u32;
            } else {
                p.datarate = DR_UNDEFINED;
            }

            /* Coding rate, from the header or the implicit configuration */
            let cr: u8 = if ifmod == IF_LORA_MULTI || !ctx.lora_service_cfg.implicit_hdr {
                pkt.coding_rate
            } else {
                ctx.lora_service_cfg.implicit_coderate
            };
            if 1 <= cr && cr <= 4 {
                p.coderate = cr;
            } else {
                p.coderate = CR_UNDEFINED;
            }

            /* Frequency offset in Hz, with the IF quantization error */
            proof {
                let v8 = crate::rx_buffer::byte_at(b, c + 8);
                assert(v8 & 0xF < 16) by (bit_vector);
                assert(-524288 <= pkt.frequency_offset_error <= 524287);
            }
            p.freq_offset = freq_offset_hz_convert(pkt.frequency_offset_error, p.bandwidth, if_hz);

            /* Coarse timestamp correction */
            correction = timestamp_counter_correction(
                ctx,
                p.bandwidth,
                #[verifier::truncate] (p.datarate as u8),
                p.coderate,
                pkt.crc_en,
                pkt.rxbytenb_modem,
                RX_DFT_PEAK_MODE_AUTO,
            );

            /* Fine timestamp, where the record qualifies */
            p.ftime_received = false;
            p.ftime = 0;
            if pkt.num_ts_metrics_stored > 0 && pkt.timing_set && p.status == STAT_CRC_OK
                && 5 <= pkt.rx_rate_sf && pkt.rx_rate_sf <= 12 && 100000000 <= p.freq_hz
                && p.freq_hz <= 1002000000 && -4000000 <= p.freq_offset && p.freq_offset
                <= 4000000 {
                match precise_timestamp_calculate(
                    &mut self.timestamp_pps_history,
                    &pkt.timestamp_avg,
                    pkt.num_ts_metrics_stored,
                    pkt.timestamp_cnt,
                    pkt.rx_rate_sf,
                    if_hz,
                    p.freq_hz,
                    p.freq_offset,
                    live_pps_reg,
                ) {
                    Ok(ftime) => {
                        p.ftime = ftime;
                        p.ftime_received = true;
                    },
                    Err(_) => {
                        p.ftime_received = false;
                        p.ftime = 0;
                    },
                }
            }
        } else {
            /* FSK modem */
            p.modulation = Modulation::FSK;
            if pkt.crc_en {
                if pkt.payload_crc_error {
                    p.status = STAT_CRC_BAD;
                } else {
                    p.status = STAT_CRC_OK;
                }
            } else {
                p.status = STAT_NO_CRC;
            }

            p.bandwidth = ctx.fsk_cfg.bandwidth;
            p.datarate = ctx.fsk_cfg.datarate;
            correction = (680000 / ctx.fsk_cfg.datarate) as i32 - 20;

            p.coderate = CR_UNDEFINED;
            p.snr_raw = -128;
            p.rssis_raw = 0;
            p.ftime_received = false;
            p.ftime = 0;
        }

        /* Scale the 32 MHz packet timestamp to microseconds and expand it */
        let count_raw: u32 = pkt.timestamp_cnt / 32;
        let expanded_us: u32 = self.counter_us.pkt_expand(count_raw);

        /* Apply the coarse correction on the wrapping clock */
        p.count_us = if correction >= 0 {
            expanded_us.wrapping_add(correction as u32)
        } else {
            expanded_us.wrapping_sub((-correction) as u32)
        };
        proof {
            lemma_wrap_correction(expanded_us, correction as int, p.count_us);
        }

        p.crc = pkt.rx_crc16_value;

        Ok(p)
    }
}

impl Sx1302 {
    /// One receive cycle: stages the FIFO bytes (unless packets remain
    /// from the last cycle), digests the counter-pair read, and parses
    /// every available record, collecting those that assemble cleanly.
    /// Rejected records are simply absent from the result; afterwards no
    /// packets remain counted.
    ///
    /// Law: when a fresh buffer holds exactly `k` well-formed,
    /// correctly checksummed, back-to-back records, each acceptable to
    /// assembly, the result holds exactly `k` packets, in their original
    /// order, each decoded from its record.
    pub fn fetch_and_parse(
        &mut self,
        ctx: &LgwContext,
        fifo: &[u8],
        counter_buff: &[u8; 8],
        live_pps_reg: u32,
    ) -> (r: Vec<LgwPktRx>)
        requires
            context_wf(*ctx),
            sx1302_wf(*old(self)),
            fifo@.len() <= 4096,
        ensures
            sx1302_wf(*final(self)),
            final(self).rx_buffer.buffer_pkt_nb == 0,
            forall|k: nat|
                (old(self).rx_buffer.buffer_pkt_nb == 0 && 1 <= k <= 255
                    && #[trigger] wellformed_chain(fifo@, 0, k)
                    && (forall|j: int|
                        0 <= j < k ==> assembles_ok(*ctx, fifo@, #[trigger] chain_off(fifo@, j))))
                    ==> r@.len() == k && (forall|j: int|
                    0 <= j < k ==> assembled_core_matches(
                        #[trigger] r@[j],
                        *ctx,
                        fifo@,
                        chain_off(fifo@, j),
                        final(self).counter_us.inst,
                    )),
    {
        let ghost old_nb = self.rx_buffer.buffer_pkt_nb;

        /* Stage FIFO data if the previous cycle is exhausted */
        let nb: u8 = self.sx1302_fetch(fifo);

        /* Keep the wrap state of the counters current */
        let _clocks = self.timestamp_counter_get(counter_buff);

        proof {
            assert forall|k: nat|
                old_nb == 0 && 1 <= k <= 255 && #[trigger] wellformed_chain(fifo@, 0, k)
                    implies self.rx_buffer.buffer@ == fifo@ && self.rx_buffer.buffer_index == 0
                && nb == k by {
                lemma_chain_pop(fifo@, 0, k);
                assert(fifo@.len() >= 23);
                assert(sync_at(fifo@, 0));
                assert(find_sync(fifo@, 0) == 0);
                assert(fifo@.skip(0) =~= fifo@);
                lemma_chain_scan(fifo@, 0, k);
            }
        }

        let ghost counter_after = self.counter_us;
        let mut pkts: Vec<LgwPktRx> = Vec::new();
        let mut i: u8 = 0;
        while i < nb
            invariant
                context_wf(*ctx),
                sx1302_wf(*self),
                i <= nb,
                self.counter_us == counter_after,
                self.rx_buffer.buffer_pkt_nb <= nb - i,
                forall|k: nat|
                    (old_nb == 0 && 1 <= k <= 255 && #[trigger] wellformed_chain(fifo@, 0, k)
                        && (forall|j: int|
                            0 <= j < k ==> assembles_ok(
                                *ctx,
                                fifo@,
                                #[trigger] chain_off(fifo@, j),
                            ))) ==> {
                        &&& nb == k
                        &&& self.rx_buffer.buffer@ == fifo@
                        &&& self.rx_buffer.buffer_size == fifo@.len()
                        &&& self.rx_buffer.buffer_index == chain_off(fifo@, i as int)
                        &&& self.rx_buffer.buffer_pkt_nb == k - i
                        &&& wellformed_chain(fifo@, chain_off(fifo@, i as int), (k - i) as nat)
                        &&& pkts@.len() == i
                        &&& (forall|j: int|
                            0 <= j < i ==> assembled_core_matches(
                                #[trigger] pkts@[j],
                                *ctx,
                                fifo@,
                                chain_off(fifo@, j),
                                counter_after.inst,
                            ))
                    },
            decreases nb - i,
        {
            let ghost pre = *self;
            let ghost pkts_pre = pkts@;
            match self.sx1302_parse(ctx, live_pps_reg) {
                Ok(p) => {
                    pkts.push(p);
                },
                Err(_) => {},
            }
            proof {
                assert forall|k: nat|
                    (old_nb == 0 && 1 <= k <= 255 && #[trigger] wellformed_chain(fifo@, 0, k)
                        && (forall|j: int|
                            0 <= j < k ==> assembles_ok(
                                *ctx,
                                fifo@,
                                #[trigger] chain_off(fifo@, j),
                            ))) implies {
                    &&& nb == k
                    &&& self.rx_buffer.buffer@ == fifo@
                    &&& self.rx_buffer.buffer_size == fifo@.len()
                    &&& self.rx_buffer.buffer_index == chain_off(fifo@, i + 1)
                    &&& self.rx_buffer.buffer_pkt_nb == k - (i + 1)
                    &&& wellformed_chain(fifo@, chain_off(fifo@, i + 1), (k - i - 1) as nat)
                    &&& pkts@.len() == i + 1
                    &&& (forall|j: int|
                        0 <= j < i + 1 ==> assembled_core_matches(
                            #[trigger] pkts@[j],
                            *ctx,
                            fifo@,
                            chain_off(fifo@, j),
                            counter_after.inst,
                        ))
                } by {
                    let coff = chain_off(fifo@, i as int);
                    lemma_chain_pop(fifo@, coff, (k - i) as nat);
                    assert(pop_ok(fifo@, coff));
                    assert(assembles_ok(*ctx, fifo@, coff));
                    assert(chain_off(fifo@, i + 1) == coff + record_len_at(fifo@, coff));
                }
            }
            i = i + 1;
        }
        pkts
    }
}

/// A wrapped signed correction lands on the modular sum.
proof fn lemma_wrap_correction(e: u32, corr: int, r: u32)
    requires
        -0x80000000 <= corr < 0x80000000,
        corr >= 0 ==> r == vstd::wrapping::u32_specs::wrapping_add(e, corr as u32),
        corr < 0 ==> r == vstd::wrapping::u32_specs::wrapping_sub(e, (-corr) as u32),
    ensures
        r as int == (e + corr) % 0x100000000,
{
    let m: int = 0x100000000;
    let x: int = e + corr;
    assert(-m < x < 2 * m);
    if 0 <= x < m {
        vstd::arithmetic::div_mod::lemma_small_mod(x as nat, m as nat);
    } else if x < 0 {
        vstd::arithmetic::div_mod::lemma_mod_add_multiples_vanish(x, m);
        vstd::arithmetic::div_mod::lemma_small_mod((x + m) as nat, m as nat);
    } else {
        vstd::arithmetic::div_mod::lemma_mod_sub_multiples_vanish(x, m);
        vstd::arithmetic::div_mod::lemma_small_mod((x - m) as nat, m as nat);
    }
}

} // verus!

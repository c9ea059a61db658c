//! Tests of the counter expansion, the PPS history, the correction
//! models, and the fine-timestamp engine.

use loragw::config::{LgwPktTx, Modulation, BW_125KHZ, BW_250KHZ, BW_500KHZ};
use loragw::correction::{
    legacy_timestamp_correction, precision_timestamp_correction, RX_DFT_PEAK_MODE_AUTO,
};
use loragw::error::HalError;
use loragw::ftime::precise_timestamp_calculate;
use loragw::timestamp::{TimestampCounter, TimestampPpsHistory};
use loragw::toa::{lgw_time_on_air, lora_packet_time_on_air};

#[test]
fn counter_expansion_is_monotonic_across_a_rollover() {
    // Feeding the raw sequence 0, 2^27 - 1, 5 produces strictly
    // increasing expanded values, with the wrap count stepping by one on
    // the third sample.
    let mut c = TimestampCounter::new();

    c.update(0, 0);
    let e1 = c.expand(false, 0);

    c.update(0x7FF_FFFF, 0x7FF_FFFF);
    let e2 = c.expand(false, 0x7FF_FFFF);
    assert_eq!(c.inst.counter_us_27bits_wrap, 0);

    c.update(5, 5);
    let e3 = c.expand(false, 5);
    assert_eq!(c.inst.counter_us_27bits_wrap, 1);
    assert_eq!(c.pps.counter_us_27bits_wrap, 1);

    assert!(e1 < e2);
    assert!(e2 < e3);
    assert_eq!(e2, 0x7FF_FFFF);
    assert_eq!(e3, 0x800_0005);
}

#[test]
fn pkt_expand_uses_previous_wrap_for_older_packets() {
    let mut c = TimestampCounter::new();
    // One rollover observed; reference now at 100.
    c.update(0, 0x7FF_FFFF);
    c.update(0, 100);
    assert_eq!(c.inst.counter_us_27bits_wrap, 1);
    // A packet older than the reference but above it numerically was
    // captured before the rollover.
    assert_eq!(c.pkt_expand(50), 0x800_0000 + 50);
    assert_eq!(c.pkt_expand(0x7FF_0000), 0x7FF_0000);
}

#[test]
fn saving_the_same_pps_value_counts_once() {
    // N saves of one value leave the fill count at 1 and the write index
    // where the first save put it.
    let mut h = TimestampPpsHistory::new();
    for _ in 0..7 {
        h.save(77);
    }
    assert_eq!(h.size, 1);
    assert_eq!(h.idx, 0);
    assert_eq!(h.history[0], 77);

    // A different value advances the ring again.
    h.save(99);
    assert_eq!(h.size, 2);
    assert_eq!(h.idx, 1);
}

#[test]
fn history_ring_wraps_at_capacity() {
    let mut h = TimestampPpsHistory::new();
    for k in 0..20u32 {
        h.save((k + 1) * 1000);
    }
    assert_eq!(h.size, 16);
    // 20 distinct saves: index walked 0..15, then wrapped to 3.
    assert_eq!(h.idx, 3);
    assert_eq!(h.history[3], 20_000);
}

#[test]
fn correction_models_match_reference_values() {
    // SF7, 125 kHz, coding rate 4/5, 16-byte payload with CRC.
    let legacy = legacy_timestamp_correction(BW_125KHZ, 7, 1, true, 16, RX_DFT_PEAK_MODE_AUTO);
    assert_eq!(legacy, -453);

    let precision = precision_timestamp_correction(BW_125KHZ, 7, 1, true, 16);
    assert_eq!(precision, 30_702);
}

#[test]
fn legacy_correction_handles_header_only_payloads() {
    // A zero-byte payload without CRC fits entirely in the header.
    let r = legacy_timestamp_correction(BW_125KHZ, 7, 1, false, 0, RX_DFT_PEAK_MODE_AUTO);
    assert!(r < 0);
    // SF5 and SF6 use their own header nibble count.
    let r5 = legacy_timestamp_correction(BW_500KHZ, 5, 4, true, 32, RX_DFT_PEAK_MODE_AUTO);
    assert!(r5 < 0);
    // The low-datarate optimization kicks in at SF12 / 125 kHz.
    let r12 = legacy_timestamp_correction(BW_125KHZ, 12, 2, true, 64, RX_DFT_PEAK_MODE_AUTO);
    assert!(r12 < 0);
}

#[test]
fn time_on_air_matches_reference_values() {
    // SF7, 125 kHz, CR 4/5, preamble 8, explicit header, CRC, 16 bytes.
    let toa = lora_packet_time_on_air(BW_125KHZ, 7, 1, 8, false, false, 16).unwrap();
    assert_eq!(toa.t_symbol_us, 1024);
    assert_eq!(toa.n_symbol_payload, 30);
    assert_eq!(toa.toa_us, 51_456);

    let mut pkt = LgwPktTx::default();
    pkt.modulation = Modulation::LORA;
    pkt.bandwidth = BW_125KHZ;
    pkt.datarate = 7;
    pkt.coderate = 1;
    pkt.preamble = 8;
    pkt.size = 16;
    assert_eq!(lgw_time_on_air(&pkt, 3), 51);
}

#[test]
fn time_on_air_rejects_invalid_parameters() {
    assert_eq!(
        lora_packet_time_on_air(BW_125KHZ, 4, 1, 8, false, false, 16),
        Err(HalError::OutOfRangeMetadata)
    );
    assert_eq!(
        lora_packet_time_on_air(0x42, 7, 1, 8, false, false, 16),
        Err(HalError::OutOfRangeMetadata)
    );
    assert_eq!(
        lora_packet_time_on_air(BW_250KHZ, 7, 9, 8, false, false, 16),
        Err(HalError::OutOfRangeMetadata)
    );
}

#[test]
fn fsk_time_on_air_has_rounding_margin() {
    let mut pkt = LgwPktTx::default();
    pkt.modulation = Modulation::FSK;
    pkt.datarate = 50_000;
    pkt.preamble = 5;
    pkt.size = 20;
    // 8 * (5 + 3 + 1 + 20 + 2) = 248 bits at 50 kbaud = 4.96 ms -> 4 + 1.
    assert_eq!(lgw_time_on_air(&pkt, 3), 5);
}

/// Fills a history ring with 16 distinct snapshots one nominal second
/// apart.
fn full_history() -> TimestampPpsHistory {
    let mut h = TimestampPpsHistory::new();
    for k in 1..=16u32 {
        h.save(k * 32_000_000);
    }
    h
}

#[test]
fn fine_timestamp_needs_a_full_history() {
    // The engine refuses to work until 16 distinct PPS entries exist;
    // once they do, its result lies within one second.
    let metrics: Vec<i8> = vec![1, -1, 2, 0];
    let mut h = TimestampPpsHistory::new();
    for k in 1..=15u32 {
        h.save(k * 32_000_000);
        let r = precise_timestamp_calculate(
            &mut h.clone(),
            &metrics,
            2,
            0,
            7,
            -200_000,
            923_600_000,
            0,
            k * 32_000_000,
        );
        assert_eq!(r, Err(HalError::InsufficientHistory));
    }

    let mut h = full_history();
    let live = 16 * 32_000_000;
    // Aligned timestamp lands 20e6 ticks past the live PPS.
    let ts: u32 = 532_399_014;
    let r = precise_timestamp_calculate(
        &mut h, &metrics, 2, ts, 7, -200_000, 923_600_000, 0, live,
    )
    .unwrap();
    assert!(r < 1_000_000_000);
    // (20e6 ticks + mean 1.25) * 31.25 ns, crystal ratio exactly 1.
    assert_eq!(r, 625_000_039);
}

#[test]
fn fine_timestamp_rejects_an_implausible_crystal_ratio() {
    // Snapshots 1000 ticks apart imply a crystal ratio of 32000 -- far
    // outside [0.8, 1.2].
    let metrics: Vec<i8> = vec![0, 0, 0, 0];
    let mut h = TimestampPpsHistory::new();
    for k in 1..=16u32 {
        h.save(k * 1000);
    }
    let live = 16_000;
    // Aligned lands just past the last snapshot, whose interval to its
    // predecessor is only 1000 ticks.
    let ts: u32 = 17_000 + 401_152 - 2138;
    let r = precise_timestamp_calculate(
        &mut h, &metrics, 2, ts, 7, 0, 923_600_000, 0, live,
    );
    assert_eq!(r, Err(HalError::CrystalErrorOutOfRange));
}

#[test]
fn fine_timestamp_overflow_is_an_error() {
    // A packet exactly one second past its PPS reference computes to
    // 1e9 ns, which is out of range.
    let metrics: Vec<i8> = vec![0, 0, 0, 0];
    let mut h = full_history();
    let live: u32 = 16 * 32_000_000;
    let base: u32 = 401_152;
    let ts = live.wrapping_add(32_000_000).wrapping_add(base).wrapping_sub(2138);
    let r = precise_timestamp_calculate(
        &mut h, &metrics, 2, ts, 7, 0, 923_600_000, 0, live,
    );
    assert_eq!(r, Err(HalError::FineTimestampOverflow));
}

#[test]
fn fine_timestamp_rewinds_into_history() {
    // The live PPS register is already past the packet: the engine scans
    // the history for the last edge before the packet instead.
    let metrics: Vec<i8> = vec![0, 0, 0, 0];
    let mut h = full_history();
    // Aligned lands 10e6 ticks past the 8th entry.
    let base: u32 = 401_152;
    let aligned_target: u32 = 8 * 32_000_000 + 10_000_000;
    let ts = aligned_target.wrapping_add(base).wrapping_sub(2138);
    // The live value is far ahead of the packet.
    let live: u32 = 20 * 32_000_000;
    let r = precise_timestamp_calculate(
        &mut h, &metrics, 2, ts, 7, 0, 923_600_000, 0, live,
    )
    .unwrap();
    // 10e6 ticks plus the 10.2922-tick DC-notch delay at IF zero,
    // times 31.25 ns, at crystal ratio 1.
    assert_eq!(r, 312_500_321);
}

#[test]
fn fine_timestamp_without_any_covering_entry_fails() {
    let metrics: Vec<i8> = vec![0, 0, 0, 0];
    let mut h = full_history();
    // The packet predates every history entry by far.
    let base: u32 = 401_152;
    let ts = 3_000_000_000u32.wrapping_add(base).wrapping_sub(2138);
    let live: u32 = 20 * 32_000_000;
    let r = precise_timestamp_calculate(
        &mut h, &metrics, 2, ts, 7, 0, 923_600_000, 0, live,
    );
    assert_eq!(r, Err(HalError::InsufficientHistory));
}

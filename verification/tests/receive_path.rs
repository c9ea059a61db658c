//! End-to-end tests of the FIFO buffer parser and the packet assembler.

use loragw::assembler::Sx1302;
use loragw::config::{
    LgwComType, LgwConfDebug, LgwConfDemod, LgwConfRxIf, LgwConfRxrf, LgwConfigBoard,
    LgwConfigFtime, LgwContext, LgwFtimeMode, LgwRadioType, LgwTxGainLut, Modulation, BW_125KHZ,
    STAT_CRC_OK, STAT_NO_CRC,
};
use loragw::error::HalError;
use loragw::rx_buffer::{RxBuffer, RxPacket};

/// Builds one raw FIFO record with a correct closing checksum.
#[allow(clippy::too_many_arguments)]
fn build_record(
    channel: u8,
    crc_en: bool,
    cr: u8,
    sf: u8,
    modem: u8,
    freq_off: u32,
    payload: &[u8],
    crc_err: bool,
    timing_set: bool,
    snr: i8,
    rssic: u8,
    rssis: u8,
    ts: u32,
    crc16: u16,
    metrics: &[i8],
) -> Vec<u8> {
    let mut rec: Vec<u8> = vec![
        0xA5,
        0xC0,
        payload.len() as u8,
        channel,
        (if crc_en { 1 } else { 0 }) | (cr << 1) | (sf << 4),
        modem,
        (freq_off & 0xFF) as u8,
        ((freq_off >> 8) & 0xFF) as u8,
        ((freq_off >> 16) & 0x0F) as u8,
    ];
    rec.extend_from_slice(payload);
    let flags = (if crc_err { 1u8 } else { 0 }) | ((if timing_set { 1u8 } else { 0 }) << 4);
    rec.push(flags);
    rec.push(snr as u8);
    rec.push(rssic);
    rec.push(rssis);
    rec.push(0);
    rec.push(0);
    rec.push((ts & 0xFF) as u8);
    rec.push(((ts >> 8) & 0xFF) as u8);
    rec.push(((ts >> 16) & 0xFF) as u8);
    rec.push(((ts >> 24) & 0xFF) as u8);
    rec.push((crc16 & 0xFF) as u8);
    rec.push(((crc16 >> 8) & 0xFF) as u8);
    rec.push((metrics.len() / 2) as u8);
    for m in metrics {
        rec.push(*m as u8);
    }
    let sum: u32 = rec.iter().map(|b| *b as u32).sum();
    rec.push((sum & 0xFF) as u8);
    rec
}

/// A receive configuration with one RF chain at 923.6 MHz and every IF
/// chain 200 kHz below it.
fn test_context() -> LgwContext {
    let rf = LgwConfRxrf {
        enable: true,
        freq_hz: 923_600_000,
        _type: LgwRadioType::LGW_RADIO_TYPE_SX1250,
        tx_enable: false,
        single_input_mode: false,
    };
    let mut ifc = LgwConfRxIf::default();
    ifc.enable = true;
    ifc.rf_chain = 0;
    ifc.freq_hz = -200_000;
    let mut fsk = LgwConfRxIf::default();
    fsk.rf_chain = 0;
    fsk.bandwidth = 2;
    fsk.datarate = 50_000;
    LgwContext {
        is_started: true,
        board_cfg: LgwConfigBoard {
            lorawan_public: false,
            clksrc: 0,
            full_duplex: false,
            com_type: LgwComType::LGW_COM_USB,
            com_path: String::new(),
        },
        rf_chain_cfg: [rf; 2],
        if_chain_cfg: [ifc; 10],
        demod_cfg: LgwConfDemod { multisf_datarate: 0xFF },
        lora_service_cfg: LgwConfRxIf::default(),
        fsk_cfg: fsk,
        tx_gain_lut: [LgwTxGainLut::default(); 2],
        ftime_cfg: LgwConfigFtime {
            enable: false,
            mode: LgwFtimeMode::LGW_FTIME_MODE_HIGH_CAPACITY,
        },
        debug_cfg: LgwConfDebug {
            nb_ref_payload: 0,
            ref_payload: Vec::new(),
            log_file_name: String::new(),
        },
    }
}

const COUNTER_BUFF: [u8; 8] = [0x01, 0, 0, 0, 0x40, 0, 0, 0];

#[test]
fn single_record_pops_with_exact_fields() {
    // A record with sync 0xA5 0xC0, five payload bytes, no fine-timing
    // metrics: the payload comes back unchanged and the cursor advances
    // by 9 + 5 + 14 = 28 bytes.
    let payload = [1u8, 2, 3, 4, 5];
    let rec = build_record(
        1, true, 1, 7, 0, 0, &payload, false, false, 40, 100, 90, 1_024_000, 0x6534, &[],
    );
    assert_eq!(rec.len(), 28);

    let mut rb = RxBuffer::new();
    rb.fetch(&rec);
    assert_eq!(rb.buffer_pkt_nb, 1);

    let pkt: RxPacket = rb.pop().expect("well-formed record must pop");
    assert_eq!(pkt.rxbytenb_modem, 5);
    assert_eq!(pkt.payload, payload.to_vec());
    assert_eq!(pkt.rx_channel_in, 1);
    assert!(pkt.crc_en);
    assert_eq!(pkt.coding_rate, 1);
    assert_eq!(pkt.rx_rate_sf, 7);
    assert_eq!(pkt.modem_id, 0);
    assert_eq!(pkt.snr_average, 40);
    assert_eq!(pkt.rssi_chan_avg, 100);
    assert_eq!(pkt.rssi_signal_avg, 90);
    assert_eq!(pkt.timestamp_cnt, 1_024_000);
    assert_eq!(pkt.rx_crc16_value, 0x6534);
    assert_eq!(pkt.num_ts_metrics_stored, 0);
    assert_eq!(rb.buffer_index, 28);
    assert_eq!(rb.buffer_pkt_nb, 0);
}

#[test]
fn three_records_come_back_in_order() {
    // Three well-formed, correctly checksummed, back-to-back records
    // yield exactly three packets in their original order, and no
    // packets remain counted afterwards.
    let p1 = [1u8, 2, 3, 4, 5];
    let p2 = [9u8, 8, 7];
    let p3 = [0xAAu8; 10];
    let mut fifo = Vec::new();
    fifo.extend(build_record(
        0, false, 1, 7, 0, 0, &p1, false, false, 10, 50, 40, 320_000, 0, &[],
    ));
    fifo.extend(build_record(
        1, false, 2, 9, 1, 0, &p2, false, false, 11, 51, 41, 640_000, 0, &[],
    ));
    fifo.extend(build_record(
        2, false, 3, 12, 2, 0, &p3, false, false, 12, 52, 42, 960_000, 0, &[],
    ));

    let ctx = test_context();
    let mut chip = Sx1302::new();
    let pkts = chip.fetch_and_parse(&ctx, &fifo, &COUNTER_BUFF, 0);

    assert_eq!(pkts.len(), 3);
    assert_eq!(pkts[0].payload, p1.to_vec());
    assert_eq!(pkts[1].payload, p2.to_vec());
    assert_eq!(pkts[2].payload, p3.to_vec());
    assert_eq!(pkts[0].datarate, 7);
    assert_eq!(pkts[1].datarate, 9);
    assert_eq!(pkts[2].datarate, 12);
    assert_eq!(pkts[0].status, STAT_NO_CRC);
    assert_eq!(chip.rx_buffer.buffer_pkt_nb, 0);
}

#[test]
fn corrupted_payload_byte_fails_checksum() {
    // Mutating any single payload byte of an otherwise valid record
    // makes pop fail with a checksum mismatch.
    let payload = [1u8, 2, 3, 4, 5];
    let rec = build_record(
        1, true, 1, 7, 0, 0, &payload, false, false, 40, 100, 90, 1_024_000, 0x6534, &[],
    );
    for j in 9..14 {
        let mut bad = rec.clone();
        bad[j] ^= 0x20;
        let mut rb = RxBuffer::new();
        rb.fetch(&bad);
        assert_eq!(rb.pop().unwrap_err(), HalError::ChecksumMismatch, "byte {}", j);
    }
}

#[test]
fn garbage_prefix_is_resynced() {
    // Garbage bytes before the first sync word are discarded and the
    // record behind them is recovered unchanged.
    let payload = [0x55u8, 0x66, 0x77];
    let rec = build_record(
        3, false, 1, 8, 0, 0, &payload, false, false, 0, 0, 0, 64_000, 0, &[],
    );
    let mut fifo: Vec<u8> = vec![0x13, 0x37, 0xA5, 0x00, 0xFF, 0x00, 0x42];
    fifo.extend(rec);

    let ctx = test_context();
    let mut chip = Sx1302::new();
    let pkts = chip.fetch_and_parse(&ctx, &fifo, &COUNTER_BUFF, 0);
    assert_eq!(pkts.len(), 1);
    assert_eq!(pkts[0].payload, payload.to_vec());
    assert_eq!(pkts[0].if_chain, 3);
}

#[test]
fn buffer_without_sync_is_discarded() {
    let fifo = vec![0x11u8; 64];
    let mut rb = RxBuffer::new();
    rb.fetch(&fifo);
    assert_eq!(rb.buffer_pkt_nb, 0);
    assert_eq!(rb.buffer_size, 0);
}

#[test]
fn short_buffer_is_discarded_silently() {
    let fifo = vec![0xA5u8, 0xC0, 0, 0, 0];
    let mut rb = RxBuffer::new();
    rb.fetch(&fifo);
    assert_eq!(rb.buffer_pkt_nb, 0);
    assert_eq!(rb.buffer_size, 0);
}

#[test]
fn bad_boundary_discards_whole_buffer() {
    // A second record boundary without a sync word invalidates the
    // entire fetch, including the valid first record.
    let rec = build_record(
        0, false, 1, 7, 0, 0, &[1, 2], false, false, 0, 0, 0, 0, 0, &[],
    );
    let mut fifo = rec;
    fifo.extend_from_slice(&[0x00u8; 30]);
    let mut rb = RxBuffer::new();
    rb.fetch(&fifo);
    assert_eq!(rb.buffer_pkt_nb, 0);
    assert_eq!(rb.buffer_size, 0);
}

#[test]
fn pop_on_empty_buffer_is_malformed() {
    let mut rb = RxBuffer::new();
    assert_eq!(rb.pop().unwrap_err(), HalError::MalformedBuffer);
}

#[test]
fn truncated_record_is_malformed() {
    let rec = build_record(
        1, true, 1, 7, 0, 0, &[1, 2, 3, 4, 5], false, false, 40, 100, 90, 0, 0x6534, &[],
    );
    let truncated = rec[..rec.len() - 3].to_vec();
    let rb = RxBuffer {
        buffer_size: truncated.len(),
        buffer: truncated,
        buffer_index: 0,
        buffer_pkt_nb: 1,
    };
    let mut rb = rb;
    assert_eq!(rb.pop().unwrap_err(), HalError::MalformedBuffer);
}

#[test]
fn out_of_range_modem_id_is_rejected() {
    let rec = build_record(
        1, false, 1, 7, 18, 0, &[1], false, false, 0, 0, 0, 0, 0, &[],
    );
    let mut rb = RxBuffer::new();
    rb.fetch(&rec);
    assert_eq!(rb.pop().unwrap_err(), HalError::OutOfRangeMetadata);
}

#[test]
fn out_of_range_sf_is_rejected() {
    let rec = build_record(
        1, false, 1, 3, 0, 0, &[1], false, false, 0, 0, 0, 0, 0, &[],
    );
    let mut rb = RxBuffer::new();
    rb.fetch(&rec);
    assert_eq!(rb.pop().unwrap_err(), HalError::OutOfRangeMetadata);
}

#[test]
fn wrong_payload_crc16_rejects_the_packet() {
    // The record is structurally sound, but the CRC16 in its tail does
    // not match the payload: assembly rejects just this packet.
    let rec = build_record(
        1, true, 1, 7, 0, 0, &[1, 2, 3, 4, 5], false, false, 0, 0, 0, 0, 0xBEEF, &[],
    );
    let ctx = test_context();
    let mut chip = Sx1302::new();
    chip.sx1302_fetch(&rec);
    assert_eq!(chip.sx1302_parse(&ctx, 0).unwrap_err(), HalError::Crc16Mismatch);
}

#[test]
fn assembled_lora_packet_has_channel_figures() {
    // Channel frequency is the RF base plus the IF offset; the frequency
    // offset carries the IF register quantization error (-293 Hz at an
    // IF of -200 kHz); the coarse timestamp is the expanded counter plus
    // the legacy correction.
    let payload = [1u8, 2, 3, 4, 5];
    let rec = build_record(
        1, true, 1, 7, 0, 0, &payload, false, false, 40, 100, 90, 1_024_000, 0x6534, &[],
    );
    let ctx = test_context();
    let mut chip = Sx1302::new();
    let pkts = chip.fetch_and_parse(&ctx, &rec, &COUNTER_BUFF, 0);
    assert_eq!(pkts.len(), 1);
    let p = &pkts[0];
    assert_eq!(p.freq_hz, 923_400_000);
    assert_eq!(p.freq_offset, -293);
    assert_eq!(p.modulation, Modulation::LORA);
    assert_eq!(p.bandwidth, BW_125KHZ);
    assert_eq!(p.datarate, 7);
    assert_eq!(p.coderate, 1);
    assert_eq!(p.status, STAT_CRC_OK);
    assert_eq!(p.rf_chain, 0);
    assert_eq!(p.snr_raw, 40);
    assert_eq!(p.rssic_raw, 100);
    assert_eq!(p.crc, 0x6534);
    // 1_024_000 ticks / 32 = 32_000 us, wrap 0; legacy correction -468
    assert_eq!(p.count_us, 32_000 - 468);
    assert!(!p.ftime_received);
}

#[test]
fn fsk_channel_uses_configured_datarate() {
    let payload = [7u8; 4];
    let rec = build_record(
        9, true, 0, 0, 17, 0, &payload, false, false, 0, 80, 0, 1_024_000, 0, &[],
    );
    let ctx = test_context();
    let mut chip = Sx1302::new();
    let pkts = chip.fetch_and_parse(&ctx, &rec, &COUNTER_BUFF, 0);
    assert_eq!(pkts.len(), 1);
    let p = &pkts[0];
    assert_eq!(p.modulation, Modulation::FSK);
    assert_eq!(p.datarate, 50_000);
    assert_eq!(p.bandwidth, 2);
    assert_eq!(p.status, STAT_CRC_OK);
    assert_eq!(p.snr_raw, -128);
    // FSK correction: 680000 / 50000 - 20 = -7
    assert_eq!(p.count_us, 32_000 - 7);
}

#[test]
fn remaining_packets_survive_a_crc16_reject() {
    // A CRC16 reject consumes only the offending record; the one after
    // it still parses.
    let good = [0x10u8, 0x20];
    let mut fifo = build_record(
        1, true, 1, 7, 0, 0, &[1, 2, 3, 4, 5], false, false, 0, 0, 0, 0, 0xBEEF, &[],
    );
    fifo.extend(build_record(
        2, false, 1, 7, 0, 0, &good, false, false, 0, 0, 0, 0, 0, &[],
    ));
    let ctx = test_context();
    let mut chip = Sx1302::new();
    let pkts = chip.fetch_and_parse(&ctx, &fifo, &COUNTER_BUFF, 0);
    assert_eq!(pkts.len(), 1);
    assert_eq!(pkts[0].payload, good.to_vec());
}

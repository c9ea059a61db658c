//! The raw buffer parser: slices the bytes fetched from the chip's FIFO
//! into validated packet records.
//!
//! A record is laid out as a 2-byte sync word and 7 further head-metadata
//! bytes, the payload, 13 tail-metadata bytes, two bytes per fine-timing
//! metric, and one closing checksum byte (the byte sum of everything
//! before it, modulo 256).

use vstd::prelude::*;

use crate::codec::{byte_sum, checksum_spec, compute_checksum, lemma_byte_sum_nonneg};
use crate::error::HalError;
use crate::{
    SX1302_FSK_MODEM_ID, SX1302_LORA_STD_MODEM_ID, SX1302_PKT_HEAD_METADATA,
    SX1302_PKT_SYNCWORD_BYTE_0, SX1302_PKT_SYNCWORD_BYTE_1, SX1302_PKT_TAIL_METADATA,
};

verus! {

/// Capacity of the FIFO staging buffer, in bytes.
pub const RX_BUFFER_CAPACITY: usize = 4096;

/// A byte of the staging buffer; positions past the fetched data read as
/// zero, as the chip's zero-filled buffer would.
pub open spec fn byte_at(b: Seq<u8>, i: int) -> u8 {
    if 0 <= i < b.len() {
        b[i]
    } else {
        0
    }
}

/// Whether the two sync bytes stand at position `i`.
pub open spec fn sync_at(b: Seq<u8>, i: int) -> bool {
    byte_at(b, i) == SX1302_PKT_SYNCWORD_BYTE_0 && byte_at(b, i + 1) == SX1302_PKT_SYNCWORD_BYTE_1
}

/// Payload length of the record at `i`.
pub open spec fn payload_len_at(b: Seq<u8>, i: int) -> int {
    byte_at(b, i + 2) as int
}

/// Number of fine-timing metrics of the record at `i`.
pub open spec fn metrics_nb_at(b: Seq<u8>, i: int) -> int {
    byte_at(b, i + payload_len_at(b, i) + 21) as int
}

/// Total length of the record at `i`: head and tail metadata, payload,
/// and two bytes per fine-timing metric.
pub open spec fn record_len_at(b: Seq<u8>, i: int) -> int {
    23 + payload_len_at(b, i) + 2 * metrics_nb_at(b, i)
}

/// Whether the record at `i` lies entirely within the buffer.
pub open spec fn contained_at(b: Seq<u8>, i: int) -> bool {
    i + record_len_at(b, i) <= b.len()
}

/// Whether the closing checksum byte of the record at `i` matches the byte
/// sum of the record.
pub open spec fn checksum_ok_at(b: Seq<u8>, i: int) -> bool {
    byte_at(b, i + record_len_at(b, i) - 1)
        == checksum_spec(b.subrange(i, i + record_len_at(b, i) - 1))
}

/// Modem id of the record at `i`.
pub open spec fn modem_id_at(b: Seq<u8>, i: int) -> u8 {
    byte_at(b, i + 5)
}

/// Receive channel of the record at `i`.
pub open spec fn channel_at(b: Seq<u8>, i: int) -> u8 {
    byte_at(b, i + 3)
}

/// CRC-enabled flag of the record at `i`.
pub open spec fn crc_en_at(b: Seq<u8>, i: int) -> bool {
    byte_at(b, i + 4) & 1 != 0
}

/// Coding-rate code of the record at `i`.
pub open spec fn coding_rate_at(b: Seq<u8>, i: int) -> u8 {
    (byte_at(b, i + 4) >> 1) & 0x7
}

/// Spreading-factor code of the record at `i`.
pub open spec fn datarate_at(b: Seq<u8>, i: int) -> u8 {
    (byte_at(b, i + 4) >> 4) & 0xF
}

/// Raw 20-bit frequency-offset register of the record at `i`.
pub open spec fn freq_offset_raw_at(b: Seq<u8>, i: int) -> int {
    ((byte_at(b, i + 8) & 0xF) as int) * 0x10000 + (byte_at(b, i + 7) as int) * 0x100
        + byte_at(b, i + 6) as int
}

/// Sign-extended frequency offset of the record at `i`, in register steps.
pub open spec fn freq_offset_at(b: Seq<u8>, i: int) -> int {
    if freq_offset_raw_at(b, i) >= 0x80000 {
        freq_offset_raw_at(b, i) - 0x100000
    } else {
        freq_offset_raw_at(b, i)
    }
}

/// First byte of the tail metadata of the record at `i`.
pub open spec fn tail_base(b: Seq<u8>, i: int) -> int {
    i + payload_len_at(b, i) + 9
}

/// CRC-error flag of the record at `i`.
pub open spec fn crc_error_at(b: Seq<u8>, i: int) -> bool {
    byte_at(b, tail_base(b, i)) & 1 != 0
}

/// Sync-error flag of the record at `i`.
pub open spec fn sync_error_at(b: Seq<u8>, i: int) -> bool {
    (byte_at(b, tail_base(b, i)) >> 2) & 1 != 0
}

/// Header-error flag of the record at `i`.
pub open spec fn header_error_at(b: Seq<u8>, i: int) -> bool {
    (byte_at(b, tail_base(b, i)) >> 3) & 1 != 0
}

/// Timing-set flag of the record at `i`.
pub open spec fn timing_set_at(b: Seq<u8>, i: int) -> bool {
    (byte_at(b, tail_base(b, i)) >> 4) & 1 != 0
}

/// Average SNR of the record at `i`, in quarter-dB steps.
pub open spec fn snr_average_at(b: Seq<u8>, i: int) -> i8 {
    byte_at(b, tail_base(b, i) + 1) as i8
}

/// Average channel RSSI of the record at `i`.
pub open spec fn rssi_chan_at(b: Seq<u8>, i: int) -> u8 {
    byte_at(b, tail_base(b, i) + 2)
}

/// Average signal RSSI of the record at `i`.
pub open spec fn rssi_sig_at(b: Seq<u8>, i: int) -> u8 {
    byte_at(b, tail_base(b, i) + 3)
}

/// Raw 32-bit timestamp of the record at `i` (32 MHz domain,
/// little-endian).
pub open spec fn timestamp_at(b: Seq<u8>, i: int) -> int {
    byte_at(b, tail_base(b, i) + 6) as int + (byte_at(b, tail_base(b, i) + 7) as int) * 0x100
        + (byte_at(b, tail_base(b, i) + 8) as int) * 0x10000
        + (byte_at(b, tail_base(b, i) + 9) as int) * 0x1000000
}

/// CRC16 carried in the tail of the record at `i`.
pub open spec fn crc16_at(b: Seq<u8>, i: int) -> int {
    byte_at(b, tail_base(b, i) + 10) as int + (byte_at(b, tail_base(b, i) + 11) as int) * 0x100
}

/// Payload bytes of the record at `i`.
pub open spec fn payload_at(b: Seq<u8>, i: int) -> Seq<u8> {
    Seq::new(payload_len_at(b, i) as nat, |j: int| byte_at(b, i + 9 + j))
}

/// Fine-timing metric bytes of the record at `i`, reinterpreted as signed
/// deltas; two per stored metric.
pub open spec fn metrics_at(b: Seq<u8>, i: int) -> Seq<i8> {
    Seq::new((2 * metrics_nb_at(b, i)) as nat, |j: int| byte_at(b, tail_base(b, i) + 13 + j) as i8)
}

/// Whether the metadata ranges of the record at `i` are plausible: the
/// modem id is known, and for LoRa modems the channel and the spreading
/// factor are in range.
pub open spec fn metadata_ok_at(b: Seq<u8>, i: int) -> bool {
    modem_id_at(b, i) <= SX1302_FSK_MODEM_ID && (modem_id_at(b, i) <= SX1302_LORA_STD_MODEM_ID
        ==> channel_at(b, i) <= 9 && 5 <= datarate_at(b, i) <= 12)
}

/// A record at `i` that `pop` accepts: synced, fully contained, correctly
/// checksummed, with plausible metadata.
pub open spec fn wellformed_record_at(b: Seq<u8>, i: int) -> bool {
    sync_at(b, i) && contained_at(b, i) && checksum_ok_at(b, i) && metadata_ok_at(b, i)
}

/// Exactly `k` well-formed records stand back to back from `i` to the end
/// of the buffer.
pub open spec fn wellformed_chain(b: Seq<u8>, i: int, k: nat) -> bool
    decreases k,
{
    if k == 0 {
        i == b.len()
    } else {
        wellformed_record_at(b, i) && wellformed_chain(b, i + record_len_at(b, i), (k - 1) as nat)
    }
}

/// Position of the first sync word at or after `i`, `-1` when none fits
/// before the end of the buffer.
pub open spec fn find_sync(b: Seq<u8>, i: int) -> int
    decreases b.len() - i,
{
    if i + 2 > b.len() {
        -1
    } else if sync_at(b, i) {
        i
    } else {
        find_sync(b, i + 1)
    }
}

/// The walk that counts records: `-1` when a record boundary carries no
/// sync word (the whole buffer is then discarded), else the number of
/// records started in the buffer — a final truncated record counts, and
/// is rejected later by `pop`.
pub open spec fn scan(b: Seq<u8>, i: int) -> int
    decreases b.len() - i,
{
    if i >= b.len() {
        0
    } else if !sync_at(b, i) {
        -1
    } else if i + record_len_at(b, i) >= b.len() {
        1
    } else {
        let rest = scan(b, i + record_len_at(b, i));
        if rest == -1 {
            -1
        } else {
            1 + rest
        }
    }
}

/// The walk never reports anything below `-1`.
pub proof fn lemma_scan_floor(b: Seq<u8>, i: int)
    ensures
        scan(b, i) >= -1,
    decreases b.len() - i,
{
    if i < b.len() && sync_at(b, i) && i + record_len_at(b, i) < b.len() {
        lemma_scan_floor(b, i + record_len_at(b, i));
    }
}

/// One unfolding step of the walk, valid whether or not the next record
/// starts within the buffer.
pub proof fn lemma_scan_unfold(b: Seq<u8>, i: int)
    requires
        0 <= i < b.len(),
        sync_at(b, i),
    ensures
        scan(b, i) == (if scan(b, i + record_len_at(b, i)) == -1 {
            -1int
        } else {
            1 + scan(b, i + record_len_at(b, i))
        }),
{
    if i + record_len_at(b, i) >= b.len() {
        assert(scan(b, i + record_len_at(b, i)) == 0);
    }
}

/// A chain of `k` well-formed records is counted as exactly `k` by the
/// walk.
pub proof fn lemma_chain_scan(b: Seq<u8>, i: int, k: nat)
    requires
        0 <= i <= b.len(),
        wellformed_chain(b, i, k),
    ensures
        scan(b, i) == k,
    decreases k,
{
    if k == 0 {
    } else {
        let next = i + record_len_at(b, i);
        lemma_chain_scan(b, next, (k - 1) as nat);
        lemma_scan_unfold(b, i);
    }
}

/// Offset of the `j`-th record of a chain that starts at the beginning
/// of the buffer.
pub open spec fn chain_off(b: Seq<u8>, j: int) -> int
    decreases j,
{
    if j <= 0 {
        0
    } else {
        chain_off(b, j - 1) + record_len_at(b, chain_off(b, j - 1))
    }
}

/// Law: in a chain of `k >= 1` well-formed back-to-back records, the
/// record under the cursor is accepted by `pop`, and what remains past it
/// is a chain of `k - 1` records — so `k` pops in a row decode exactly
/// the `k` records, in their original order.
pub proof fn lemma_chain_pop(b: Seq<u8>, i: int, k: nat)
    requires
        0 <= i <= b.len(),
        wellformed_chain(b, i, k),
        k >= 1,
    ensures
        pop_ok(b, i),
        i + record_len_at(b, i) <= b.len(),
        wellformed_chain(b, i + record_len_at(b, i), (k - 1) as nat),
{
}

/// Law: corrupting any single payload byte of an otherwise well-formed
/// record makes `pop` reject it with a checksum mismatch: the record is
/// still synced, sized and contained as before, but its byte sum no
/// longer matches the stored checksum byte.
pub proof fn lemma_payload_corruption(b: Seq<u8>, i: int, j: int, v: u8)
    requires
        0 <= i,
        wellformed_record_at(b, i),
        i + 9 <= j < i + 9 + payload_len_at(b, i),
        v != b[j],
    ensures
        !pop_ok(b.update(j, v), i),
        pop_err_kind(b.update(j, v), i) == HalError::ChecksumMismatch,
{
    let b2 = b.update(j, v);
    let plen = payload_len_at(b, i);
    let rl = record_len_at(b, i);
    let cs = i + rl - 1;

    /* The byte offsets pop reads to size the record all avoid `j` */
    assert(payload_len_at(b2, i) == plen);
    assert(metrics_nb_at(b2, i) == metrics_nb_at(b, i));
    assert(record_len_at(b2, i) == rl);
    assert(sync_at(b2, i));
    assert(contained_at(b2, i));
    assert(byte_at(b2, cs) == byte_at(b, cs));

    /* The byte sum over the record body moves by the difference */
    let body = b.subrange(i, cs);
    let body2 = b2.subrange(i, cs);
    assert(body2 =~= body.update(j - i, v));
    crate::codec::lemma_byte_sum_update(body, j - i, v);
    lemma_byte_sum_nonneg(body);
    lemma_byte_sum_nonneg(body2);
    crate::codec::lemma_checksum_differs(byte_sum(body), byte_sum(body2));
    assert(!checksum_ok_at(b2, i));
    assert(i < b2.len());
}

/// `find_sync` skips over a stretch known to hold no sync word.
pub proof fn lemma_find_sync_skip(b: Seq<u8>, i: int, m: int)
    requires
        0 <= i <= m,
        m + 2 <= b.len(),
        sync_at(b, m),
        forall|p: int| i <= p < m ==> !sync_at(b, p),
    ensures
        find_sync(b, i) == m,
    decreases m - i,
{
    if i < m {
        lemma_find_sync_skip(b, i + 1, m);
    }
}

/// Law: a buffer of garbage bytes (no sync word anywhere among them)
/// followed by a chain of `k >= 1` well-formed records is resynchronized:
/// the first sync word is found exactly where the chain starts, and the
/// walk behind it counts exactly the `k` records — the garbage is
/// discarded and the records recovered unchanged.
pub proof fn lemma_resync(b: Seq<u8>, m: int, k: nat)
    requires
        0 <= m <= b.len(),
        forall|p: int| 0 <= p < m ==> !sync_at(b, p),
        wellformed_chain(b.skip(m), 0, k),
        k >= 1,
    ensures
        find_sync(b, 0) == m,
        scan(b.skip(m), 0) == k,
{
    let c = b.skip(m);
    lemma_chain_scan(c, 0, k);
    assert(contained_at(c, 0));
    assert(c.len() >= 23);
    assert(byte_at(c, 0) == c[0] && c[0] == b[m]);
    assert(byte_at(c, 1) == c[1] && c[1] == b[m + 1]);
    assert(sync_at(b, m));
    lemma_find_sync_skip(b, 0, m);
}

/// The authoritative FIFO byte count from two reads of the byte-count
/// register: the register may be caught mid-update, so the larger of the
/// two reads is the one to trust.
pub fn fifo_buffer_length(nb_bytes_1: u16, nb_bytes_2: u16) -> (r: u16)
    ensures
        r == (if nb_bytes_2 > nb_bytes_1 { nb_bytes_2 } else { nb_bytes_1 }),
{
    if nb_bytes_2 > nb_bytes_1 {
        nb_bytes_2
    } else {
        nb_bytes_1
    }
}

/// Reads a staging-buffer byte; positions past the data read as zero.
fn buffer_byte(b: &Vec<u8>, i: usize) -> (r: u8)
    ensures
        r == byte_at(b@, i as int),
{
    if i < b.len() {
        b[i]
    } else {
        0
    }
}

/// A decoded raw packet record.
#[derive(Clone, Debug)]
pub struct RxPacket {
    /// Payload length in bytes.
    pub rxbytenb_modem: u8,
    /// Receive channel.
    pub rx_channel_in: u8,
    /// Whether the transmitter enabled the payload CRC.
    pub crc_en: bool,
    /// Coding-rate code (LoRa only).
    pub coding_rate: u8,
    /// Spreading-factor code (LoRa only).
    pub rx_rate_sf: u8,
    /// Modem that demodulated the record.
    pub modem_id: u8,
    /// Sign-extended 20-bit frequency-offset register (LoRa only).
    pub frequency_offset_error: i32,
    /// The payload bytes.
    pub payload: Vec<u8>,
    /// CRC-error flag reported by the modem.
    pub payload_crc_error: bool,
    /// Sync-error flag (LoRa only).
    pub sync_error: bool,
    /// Header-error flag (LoRa only).
    pub header_error: bool,
    /// Whether fine-timing metrics were latched (LoRa only).
    pub timing_set: bool,
    /// Average SNR in quarter-dB steps (LoRa only).
    pub snr_average: i8,
    /// Average channel RSSI.
    pub rssi_chan_avg: u8,
    /// Average signal RSSI (LoRa only).
    pub rssi_signal_avg: u8,
    /// Largest negative channel-RSSI deviation (unused by the parser).
    pub rssi_chan_max_neg_delta: u8,
    /// Largest positive channel-RSSI deviation (unused by the parser).
    pub rssi_chan_max_pos_delta: u8,
    /// Largest negative signal-RSSI deviation (unused by the parser).
    pub rssi_sig_max_neg_delta: u8,
    /// Largest positive signal-RSSI deviation (unused by the parser).
    pub rssi_sig_max_pos_delta: u8,
    /// Raw 32-bit timestamp, in the 32 MHz domain.
    pub timestamp_cnt: u32,
    /// CRC16 carried in the record (LoRa only).
    pub rx_crc16_value: u16,
    /// Number of fine-timing metrics stored.
    pub num_ts_metrics_stored: u8,
    /// Fine-timing deltas, two bytes per metric.
    pub timestamp_avg: Vec<i8>,
    /// Spread of the fine-timing deltas; all zero when the chip reports
    /// none.
    pub timestamp_stddev: Vec<i8>,
    /// The record's closing checksum byte.
    pub packet_checksum: u8,
}

impl RxPacket {
    /// An empty record with every field zeroed.
    pub fn new() -> (r: Self)
        ensures
            r.rxbytenb_modem == 0,
            r.payload@.len() == 0,
            r.timestamp_avg@.len() == 0,
            r.timestamp_stddev@.len() == 0,
    {
        RxPacket {
            rxbytenb_modem: 0,
            rx_channel_in: 0,
            crc_en: false,
            coding_rate: 0,
            rx_rate_sf: 0,
            modem_id: 0,
            frequency_offset_error: 0,
            payload: Vec::new(),
            payload_crc_error: false,
            sync_error: false,
            header_error: false,
            timing_set: false,
            snr_average: 0,
            rssi_chan_avg: 0,
            rssi_signal_avg: 0,
            rssi_chan_max_neg_delta: 0,
            rssi_chan_max_pos_delta: 0,
            rssi_sig_max_neg_delta: 0,
            rssi_sig_max_pos_delta: 0,
            timestamp_cnt: 0,
            rx_crc16_value: 0,
            num_ts_metrics_stored: 0,
            timestamp_avg: Vec::new(),
            timestamp_stddev: Vec::new(),
            packet_checksum: 0,
        }
    }
}

/// Whether `pop` succeeds on a buffer `b` with the cursor at `c`.
pub open spec fn pop_ok(b: Seq<u8>, c: int) -> bool {
    c < b.len() && wellformed_record_at(b, c)
}

/// The error `pop` reports on a buffer `b` with the cursor at `c`.
pub open spec fn pop_err_kind(b: Seq<u8>, c: int) -> HalError {
    if c >= b.len() {
        HalError::MalformedBuffer
    } else if !sync_at(b, c) {
        HalError::MalformedBuffer
    } else if !contained_at(b, c) {
        HalError::MalformedBuffer
    } else if !checksum_ok_at(b, c) {
        HalError::ChecksumMismatch
    } else {
        HalError::OutOfRangeMetadata
    }
}

/// The fields of a well-formed record at `c`, as `pop` decodes them.
pub open spec fn decoded_matches(pkt: RxPacket, b: Seq<u8>, c: int) -> bool {
    &&& pkt.rxbytenb_modem as int == payload_len_at(b, c)
    &&& pkt.rx_channel_in == channel_at(b, c)
    &&& pkt.crc_en == crc_en_at(b, c)
    &&& pkt.coding_rate == coding_rate_at(b, c)
    &&& pkt.rx_rate_sf == datarate_at(b, c)
    &&& pkt.modem_id == modem_id_at(b, c)
    &&& pkt.frequency_offset_error as int == freq_offset_at(b, c)
    &&& pkt.payload@ == payload_at(b, c)
    &&& pkt.payload_crc_error == crc_error_at(b, c)
    &&& pkt.sync_error == sync_error_at(b, c)
    &&& pkt.header_error == header_error_at(b, c)
    &&& pkt.timing_set == timing_set_at(b, c)
    &&& pkt.snr_average == snr_average_at(b, c)
    &&& pkt.rssi_chan_avg == rssi_chan_at(b, c)
    &&& pkt.rssi_signal_avg == rssi_sig_at(b, c)
    &&& pkt.rssi_chan_max_neg_delta == 0
    &&& pkt.rssi_chan_max_pos_delta == 0
    &&& pkt.rssi_sig_max_neg_delta == 0
    &&& pkt.rssi_sig_max_pos_delta == 0
    &&& pkt.timestamp_cnt as int == timestamp_at(b, c)
    &&& pkt.rx_crc16_value as int == crc16_at(b, c)
    &&& pkt.num_ts_metrics_stored as int == metrics_nb_at(b, c)
    &&& pkt.timestamp_avg@ == metrics_at(b, c)
    &&& pkt.timestamp_stddev@ == Seq::new((2 * metrics_nb_at(b, c)) as nat, |j: int| 0i8)
    &&& pkt.packet_checksum == byte_at(b, c + record_len_at(b, c) - 1)
}

/// What `fetch` leaves behind for given raw FIFO bytes: nothing for a
/// buffer too short, without a sync word, or failing the record walk;
/// otherwise the bytes from the first sync word on, with the records
/// counted.
pub open spec fn fetch_post(rb: RxBuffer, raw: Seq<u8>) -> bool {
    &&& rx_buffer_wf(rb)
    &&& rb.buffer_index == 0
    &&& (raw.len() < 23 || find_sync(raw, 0) == -1 ==> rx_buffer_empty(rb))
    &&& (raw.len() >= 23 && find_sync(raw, 0) >= 0 ==> {
        let c = raw.skip(find_sync(raw, 0));
        if scan(c, 0) == -1 {
            rx_buffer_empty(rb)
        } else {
            rb.buffer@ == c && rb.buffer_size == c.len() && rb.buffer_pkt_nb == scan(c, 0)
        }
    })
}

/// The staging buffer for FIFO data, consumed record by record.
#[derive(Clone, Debug)]
pub struct RxBuffer {
    /// The fetched bytes, starting at the first sync word.
    pub buffer: Vec<u8>,
    /// Number of valid bytes in the buffer.
    pub buffer_size: usize,
    /// Offset of the next unparsed record.
    pub buffer_index: usize,
    /// Number of records known to remain in the buffer.
    pub buffer_pkt_nb: u8,
}

/// The staging buffer is well formed when its size field matches the data
/// it holds, within capacity, and the cursor has not run past the end.
pub open spec fn rx_buffer_wf(rb: RxBuffer) -> bool {
    rb.buffer_size == rb.buffer@.len() && rb.buffer_size <= RX_BUFFER_CAPACITY
        && rb.buffer_index <= rb.buffer_size
}

/// An emptied staging buffer.
pub open spec fn rx_buffer_empty(rb: RxBuffer) -> bool {
    rb.buffer@.len() == 0 && rb.buffer_size == 0 && rb.buffer_index == 0 && rb.buffer_pkt_nb == 0
}

impl RxBuffer {
    /// An empty staging buffer.
    pub fn new() -> (r: Self)
        ensures
            rx_buffer_wf(r),
            rx_buffer_empty(r),
    {
        RxBuffer { buffer: Vec::new(), buffer_size: 0, buffer_index: 0, buffer_pkt_nb: 0 }
    }

    /// Discards all content and resets the parse state.
    pub fn clear(&mut self)
        ensures
            rx_buffer_wf(*final(self)),
            rx_buffer_empty(*final(self)),
    {
        self.buffer = Vec::new();
        self.buffer_size = 0;
        self.buffer_index = 0;
        self.buffer_pkt_nb = 0;
    }

    /// Resets the parse state, declaring the buffer consumed.
    pub fn del(&mut self)
        ensures
            rx_buffer_wf(*final(self)),
            rx_buffer_empty(*final(self)),
    {
        self.buffer = Vec::new();
        self.buffer_size = 0;
        self.buffer_index = 0;
        self.buffer_pkt_nb = 0;
    }

    /// Accepts the bytes read from the chip FIFO and prepares them for
    /// parsing: discards anything before the first sync word, then walks
    /// the records to count how many are present. A buffer too short for
    /// one record, without any sync word, or with a boundary that carries
    /// no sync word is discarded whole.
    pub fn fetch(&mut self, raw: &[u8])
        requires
            raw@.len() <= RX_BUFFER_CAPACITY,
        ensures
            fetch_post(*final(self), raw@),
    {
        self.clear();

        let n: usize = raw.len();
        if n < (SX1302_PKT_HEAD_METADATA + SX1302_PKT_TAIL_METADATA) as usize {
            return;
        }

        /* Find the first sync word; discard everything if there is none */
        let mut idx: usize = 0;
        let mut found: bool = false;
        while !found && idx + 2 <= n
            invariant
                n == raw@.len(),
                n <= RX_BUFFER_CAPACITY,
                idx <= n,
                !found ==> find_sync(raw@, 0) == find_sync(raw@, idx as int),
                found ==> 0 <= idx && idx + 2 <= n && sync_at(raw@, idx as int)
                    && find_sync(raw@, 0) == idx,
            decreases n - idx + (if found { 0int } else { 1 }),
        {
            if raw[idx] == SX1302_PKT_SYNCWORD_BYTE_0 && raw[idx + 1] == SX1302_PKT_SYNCWORD_BYTE_1 {
                found = true;
            } else {
                idx = idx + 1;
            }
        }
        if !found {
            return;
        }

        /* Shift so the data starts at the sync word */
        let mut data: Vec<u8> = Vec::new();
        let mut k: usize = idx;
        while k < n
            invariant
                n == raw@.len(),
                idx <= k <= n,
                data@ == raw@.subrange(idx as int, k as int),
            decreases n - k,
        {
            data.push(raw[k]);
            k = k + 1;
        }
        proof {
            assert(data@ =~= raw@.skip(idx as int));
        }
        let data_len: usize = data.len();
        self.buffer = data;
        self.buffer_size = data_len;
        self.buffer_index = 0;

        /* Walk the records to count them */
        let ghost c = self.buffer@;
        let ghost s = idx as int;
        let mut pos: usize = 0;
        let mut cnt: u8 = 0;
        proof {
            assert(c == raw@.skip(s));
        }
        while pos < data_len
            invariant
                rx_buffer_wf(*self),
                self.buffer@ == c,
                self.buffer_size == data_len,
                self.buffer_index == 0,
                c.len() == data_len,
                data_len <= RX_BUFFER_CAPACITY,
                raw@.len() >= 23,
                find_sync(raw@, 0) == s,
                s >= 0,
                c == raw@.skip(s),
                pos <= data_len + 788,
                23 * cnt <= pos + 23,
                scan(c, 0) == (if scan(c, pos as int) == -1 {
                    -1int
                } else {
                    cnt + scan(c, pos as int)
                }),
            decreases data_len + 788 - pos,
        {
            if !(buffer_byte(&self.buffer, pos) == SX1302_PKT_SYNCWORD_BYTE_0
                && buffer_byte(&self.buffer, pos + 1) == SX1302_PKT_SYNCWORD_BYTE_1) {
                self.del();
                return;
            }

            let payload_len: usize = buffer_byte(&self.buffer, pos + 2) as usize;
            let metrics_nb: usize = buffer_byte(&self.buffer, pos + payload_len + 21) as usize;
            let rec_len: usize = 23 + payload_len + 2 * metrics_nb;
            proof {
                assert(sync_at(c, pos as int));
                assert(rec_len == record_len_at(c, pos as int));
                lemma_scan_unfold(c, pos as int);
                lemma_scan_floor(c, pos as int + rec_len);
            }
            cnt = cnt + 1;
            pos = pos + rec_len;
        }
        self.buffer_pkt_nb = cnt;
    }

    /// Validates and decodes the record under the cursor, advances past
    /// it, and counts it off. Fails — leaving the state unchanged — when
    /// no data remains or the sync word is missing or the record is
    /// truncated ([`HalError::MalformedBuffer`]), when the closing
    /// checksum does not match ([`HalError::ChecksumMismatch`]), and when
    /// a metadata field is out of range
    /// ([`HalError::OutOfRangeMetadata`]), and exactly then.
    pub fn pop(&mut self) -> (r: Result<RxPacket, HalError>)
        requires
            rx_buffer_wf(*old(self)),
        ensures
            rx_buffer_wf(*final(self)),
            r.is_ok() == pop_ok(old(self).buffer@, old(self).buffer_index as int),
            r.is_err() ==> *final(self) == *old(self) && r == Err::<RxPacket, HalError>(
                pop_err_kind(old(self).buffer@, old(self).buffer_index as int),
            ),
            r.is_ok() ==> {
                let b = old(self).buffer@;
                let c = old(self).buffer_index as int;
                &&& decoded_matches(r.unwrap(), b, c)
                &&& final(self).buffer@ == b
                &&& final(self).buffer_size == old(self).buffer_size
                &&& final(self).buffer_index == c + record_len_at(b, c)
                &&& final(self).buffer_pkt_nb == (if old(self).buffer_pkt_nb > 0 {
                    old(self).buffer_pkt_nb - 1
                } else {
                    0int
                })
            },
    {
        let ghost b = self.buffer@;
        let c: usize = self.buffer_index;

        /* Is there any data left to parse? */
        if c >= self.buffer_size {
            return Err(HalError::MalformedBuffer);
        }

        /* Sync word of the record */
        if !(buffer_byte(&self.buffer, c) == SX1302_PKT_SYNCWORD_BYTE_0
            && buffer_byte(&self.buffer, c + 1) == SX1302_PKT_SYNCWORD_BYTE_1) {
            return Err(HalError::MalformedBuffer);
        }

        /* Payload length and fine-timing metric count give the record length */
        let payload_len: usize = buffer_byte(&self.buffer, c + 2) as usize;
        let metrics_nb: usize = buffer_byte(&self.buffer, c + payload_len + 21) as usize;
        let rec_len: usize = 23 + payload_len + 2 * metrics_nb;

        /* Is the whole record inside the fetched data? */
        if c + rec_len > self.buffer_size {
            return Err(HalError::MalformedBuffer);
        }

        /* Closing checksum against the byte sum of the record */
        let checksum_rcv: u8 = buffer_byte(&self.buffer, c + rec_len - 1);
        let checksum_calc: u8 = compute_checksum(&self.buffer, c, rec_len - 1);
        if checksum_rcv != checksum_calc {
            return Err(HalError::ChecksumMismatch);
        }

        /* Metadata */
        let tb: usize = c + payload_len + 9;
        let flags_head: u8 = buffer_byte(&self.buffer, c + 4);
        let flags_tail: u8 = buffer_byte(&self.buffer, tb);
        let modem_id: u8 = buffer_byte(&self.buffer, c + 5);
        let rx_channel_in: u8 = buffer_byte(&self.buffer, c + 3);
        let rx_rate_sf: u8 = (flags_head >> 4) & 0xF;

        /* Range checks on the metadata */
        if modem_id > SX1302_FSK_MODEM_ID {
            return Err(HalError::OutOfRangeMetadata);
        }
        if modem_id <= SX1302_LORA_STD_MODEM_ID {
            if rx_channel_in > 9 {
                return Err(HalError::OutOfRangeMetadata);
            }
            if rx_rate_sf < 5 || rx_rate_sf > 12 {
                return Err(HalError::OutOfRangeMetadata);
            }
        }

        /* Frequency offset: 20 bits, sign-extended */
        let freq_raw: i32 = ((buffer_byte(&self.buffer, c + 8) & 0xF) as i32) * 0x10000
            + (buffer_byte(&self.buffer, c + 7) as i32) * 0x100
            + buffer_byte(&self.buffer, c + 6) as i32;
        let frequency_offset_error: i32 = if freq_raw >= 0x80000 {
            freq_raw - 0x100000
        } else {
            freq_raw
        };

        /* Raw timestamp, little-endian */
        let timestamp_cnt: u32 = buffer_byte(&self.buffer, tb + 6) as u32
            + (buffer_byte(&self.buffer, tb + 7) as u32) * 0x100
            + (buffer_byte(&self.buffer, tb + 8) as u32) * 0x10000
            + (buffer_byte(&self.buffer, tb + 9) as u32) * 0x1000000;

        let rx_crc16_value: u16 = buffer_byte(&self.buffer, tb + 10) as u16
            + (buffer_byte(&self.buffer, tb + 11) as u16) * 0x100;

        /* Payload bytes */
        let mut payload: Vec<u8> = Vec::new();
        let mut j: usize = 0;
        while j < payload_len
            invariant
                payload_len == payload_len_at(b, c as int),
                self.buffer@ == b,
                c <= b.len() <= RX_BUFFER_CAPACITY,
                payload_len <= 255,
                c + 9 + payload_len <= b.len(),
                j <= payload_len,
                payload@.len() == j,
                forall|q: int| 0 <= q < j ==> payload@[q] == byte_at(b, c + 9 + q),
            decreases payload_len - j,
        {
            payload.push(buffer_byte(&self.buffer, c + 9 + j));
            j = j + 1;
        }
        proof {
            assert(payload@ =~= payload_at(b, c as int));
        }

        /* Fine-timing metric deltas, two bytes per metric */
        let mut timestamp_avg: Vec<i8> = Vec::new();
        let mut timestamp_stddev: Vec<i8> = Vec::new();
        let mut j2: usize = 0;
        while j2 < 2 * metrics_nb
            invariant
                metrics_nb == metrics_nb_at(b, c as int),
                payload_len == payload_len_at(b, c as int),
                self.buffer@ == b,
                c <= b.len() <= RX_BUFFER_CAPACITY,
                payload_len <= 255,
                metrics_nb <= 255,
                tb == c + payload_len + 9,
                c + 23 + payload_len + 2 * metrics_nb <= b.len(),
                j2 <= 2 * metrics_nb,
                timestamp_avg@.len() == j2,
                timestamp_stddev@.len() == j2,
                forall|q: int| 0 <= q < j2 ==> timestamp_avg@[q] == byte_at(b, tb + 13 + q) as i8,
                forall|q: int| 0 <= q < j2 ==> timestamp_stddev@[q] == 0i8,
            decreases 2 * metrics_nb - j2,
        {
            timestamp_avg.push(buffer_byte(&self.buffer, tb + 13 + j2) as i8);
            timestamp_stddev.push(0);
            j2 = j2 + 1;
        }
        proof {
            assert(timestamp_avg@ =~= metrics_at(b, c as int));
            assert(timestamp_stddev@ =~= Seq::new(
                (2 * metrics_nb_at(b, c as int)) as nat,
                |q: int| 0i8,
            ));
        }

        let pkt = RxPacket {
            rxbytenb_modem: payload_len as u8,
            rx_channel_in,
            crc_en: flags_head & 1 != 0,
            coding_rate: (flags_head >> 1) & 0x7,
            rx_rate_sf,
            modem_id,
            frequency_offset_error,
            payload,
            payload_crc_error: flags_tail & 1 != 0,
            sync_error: (flags_tail >> 2) & 1 != 0,
            header_error: (flags_tail >> 3) & 1 != 0,
            timing_set: (flags_tail >> 4) & 1 != 0,
            snr_average: buffer_byte(&self.buffer, tb + 1) as i8,
            rssi_chan_avg: buffer_byte(&self.buffer, tb + 2),
            rssi_signal_avg: buffer_byte(&self.buffer, tb + 3),
            rssi_chan_max_neg_delta: 0,
            rssi_chan_max_pos_delta: 0,
            rssi_sig_max_neg_delta: 0,
            rssi_sig_max_pos_delta: 0,
            timestamp_cnt,
            rx_crc16_value,
            num_ts_metrics_stored: metrics_nb as u8,
            timestamp_avg,
            timestamp_stddev,
            packet_checksum: checksum_rcv,
        };

        /* Step past the record and count it off */
        self.buffer_index = c + rec_len;
        if self.buffer_pkt_nb > 0 {
            self.buffer_pkt_nb = self.buffer_pkt_nb - 1;
        }

        Ok(pkt)
    }
}

} // verus!

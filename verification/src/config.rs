//! Configuration model of the concentrator: radio and IF-chain settings,
//! semantic codes for bandwidth, datarate and coding rate, and the packet
//! structures exchanged with callers.
//!
//! Signal-strength calibration data (RSSI offsets and temperature
//! compensation) is floating-point and lives with the surrounding driver;
//! the records returned here carry the raw integer readings instead.

use vstd::prelude::*;

verus! {

/// Frequency of the RF reference oscillator, in Hz.
pub const LGW_XTAL_FREQU: u32 = 32000000;

/// Number of RF chains.
pub const LGW_RF_CHAIN_NB: u8 = 2;

/// Number of IF + modem RX chains.
pub const LGW_IF_CHAIN_NB: u8 = 10;

/// Typical bandwidth of a data channel, in Hz.
pub const LGW_REF_BW: u32 = 125000;

/// Number of LoRa multi-SF chains.
pub const LGW_MULTI_NB: u8 = 8;

/// Maximum number of LBT channels.
pub const LGW_LBT_CHANNEL_NB_MAX: usize = 16;

/// Number of slots in a TX gain look-up table.
pub const TX_GAIN_LUT_SIZE_MAX: usize = 16;

/// Bandwidth codes.
pub const BW_UNDEFINED: u8 = 0;
pub const BW_500KHZ: u8 = 0x06;
pub const BW_250KHZ: u8 = 0x05;
pub const BW_125KHZ: u8 = 0x04;

/// Datarate codes (LoRa spreading factors, FSK baudrate bounds).
pub const DR_UNDEFINED: u32 = 0;
pub const DR_LORA_SF5: u32 = 5;
pub const DR_LORA_SF6: u32 = 6;
pub const DR_LORA_SF7: u32 = 7;
pub const DR_LORA_SF8: u32 = 8;
pub const DR_LORA_SF9: u32 = 9;
pub const DR_LORA_SF10: u32 = 10;
pub const DR_LORA_SF11: u32 = 11;
pub const DR_LORA_SF12: u32 = 12;
pub const DR_FSK_MIN: u32 = 500;
pub const DR_FSK_MAX: u32 = 250000;

/// Coding-rate codes (LoRa only).
pub const CR_UNDEFINED: u8 = 0;
pub const CR_LORA_4_5: u8 = 0x01;
pub const CR_LORA_4_6: u8 = 0x02;
pub const CR_LORA_4_7: u8 = 0x03;
pub const CR_LORA_4_8: u8 = 0x04;

/// CRC status of a received packet.
pub const STAT_UNDEFINED: u8 = 0x00;
pub const STAT_NO_CRC: u8 = 0x01;
pub const STAT_CRC_BAD: u8 = 0x11;
pub const STAT_CRC_OK: u8 = 0x10;

/// IF-chain modem capability codes.
pub const IF_UNDEFINED: u8 = 0;
pub const IF_LORA_STD: u8 = 0x10;
pub const IF_LORA_MULTI: u8 = 0x11;
pub const IF_FSK_STD: u8 = 0x20;

/// Modulation kinds.
#[derive(Clone, Copy, Debug, PartialEq, Eq, Structural)]
#[allow(non_camel_case_types)]
pub enum Modulation {
    UNDEFINED,
    CW,
    LORA,
    FSK,
}

impl Modulation {
    /// The wire code of the modulation kind.
    pub fn value(&self) -> (r: u8)
        ensures
            r == modulation_value(*self),
    {
        match self {
            Modulation::UNDEFINED => 0,
            Modulation::CW => 0x08,
            Modulation::LORA => 0x10,
            Modulation::FSK => 0x20,
        }
    }
}

/// Wire code of each modulation kind.
pub open spec fn modulation_value(m: Modulation) -> u8 {
    match m {
        Modulation::UNDEFINED => 0,
        Modulation::CW => 0x08,
        Modulation::LORA => 0x10,
        Modulation::FSK => 0x20,
    }
}

/// TX trigger modes.
#[derive(Clone, Copy, Debug, PartialEq, Eq, Structural)]
#[allow(non_camel_case_types)]
pub enum tx_mode_t {
    IMMEDIATE,
    TIMESTAMPED,
    ON_GPS,
}

/// TX trigger modes as carried in a TX packet descriptor.
#[derive(Clone, Copy, Debug, PartialEq, Eq, Structural)]
#[allow(non_camel_case_types)]
pub enum TxMode {
    IMMEDIATE,
    TIMESTAMPED,
    ON_GPS,
}

/// Radio front-end models.
#[derive(Clone, Copy, Debug, PartialEq, Eq, Structural)]
#[allow(non_camel_case_types)]
pub enum LgwRadioType {
    LGW_RADIO_TYPE_NONE,
    LGW_RADIO_TYPE_SX1255,
    LGW_RADIO_TYPE_SX1257,
    LGW_RADIO_TYPE_SX1272,
    LGW_RADIO_TYPE_SX1276,
    LGW_RADIO_TYPE_SX1250,
}

/// Communication interface to the concentrator.
#[derive(Clone, Copy, Debug, PartialEq, Eq, Structural)]
#[allow(non_camel_case_types)]
pub enum LgwComType {
    LGW_COM_SPI,
    LGW_COM_USB,
    LGW_COM_UNKNOWN,
}

/// SPI bus multiplexer targets.
#[derive(Clone, Copy, Debug, PartialEq, Eq, Structural)]
#[allow(non_camel_case_types)]
pub enum LgwSpiMuxTarget {
    LGW_SPI_MUX_TARGET_SX1302,
    LGW_SPI_MUX_TARGET_RADIOA,
    LGW_SPI_MUX_TARGET_RADIOB,
}

impl LgwSpiMuxTarget {
    /// The wire code of the mux target.
    pub fn value(&self) -> (r: u8)
        ensures
            (*self == LgwSpiMuxTarget::LGW_SPI_MUX_TARGET_SX1302 ==> r == 0)
                && (*self == LgwSpiMuxTarget::LGW_SPI_MUX_TARGET_RADIOA ==> r == 1)
                && (*self == LgwSpiMuxTarget::LGW_SPI_MUX_TARGET_RADIOB ==> r == 2),
    {
        match self {
            LgwSpiMuxTarget::LGW_SPI_MUX_TARGET_SX1302 => 0x00,
            LgwSpiMuxTarget::LGW_SPI_MUX_TARGET_RADIOA => 0x01,
            LgwSpiMuxTarget::LGW_SPI_MUX_TARGET_RADIOB => 0x02,
        }
    }
}

/// Fine-timestamping modes.
#[derive(Clone, Copy, Debug, PartialEq, Eq, Structural)]
#[allow(non_camel_case_types)]
pub enum LgwFtimeMode {
    LGW_FTIME_MODE_HIGH_CAPACITY,
    LGW_FTIME_MODE_ALL_SF,
}

/// Carrier-sense durations for listen-before-talk.
#[derive(Clone, Copy, Debug, PartialEq, Eq, Structural)]
#[allow(non_camel_case_types)]
pub enum LgwLbtScanTime {
    LGW_LBT_SCAN_TIME_128_US,
    LGW_LBT_SCAN_TIME_5000_US,
}

impl LgwLbtScanTime {
    /// The scan duration in microseconds.
    pub fn value(&self) -> (r: u32)
        ensures
            (*self == LgwLbtScanTime::LGW_LBT_SCAN_TIME_128_US ==> r == 128)
                && (*self == LgwLbtScanTime::LGW_LBT_SCAN_TIME_5000_US ==> r == 5000),
    {
        match self {
            LgwLbtScanTime::LGW_LBT_SCAN_TIME_128_US => 128,
            LgwLbtScanTime::LGW_LBT_SCAN_TIME_5000_US => 5000,
        }
    }
}

/// Configuration of one RF chain. The board-specific RSSI calibration
/// coefficients are floating-point and stay with the surrounding driver.
#[derive(Clone, Copy, Debug, PartialEq, Eq, Structural)]
pub struct LgwConfRxrf {
    /// Enable or disable this RF chain.
    pub enable: bool,
    /// Center frequency of the radio, in Hz.
    pub freq_hz: u32,
    /// Radio model fitted on this chain.
    pub _type: LgwRadioType,
    /// Enable or disable TX on this chain.
    pub tx_enable: bool,
    /// Single or differential input mode (SX1250 only).
    pub single_input_mode: bool,
}

impl Default for LgwConfRxrf {
    /// A disabled chain at frequency zero with an SX1250 fitted.
    fn default() -> (r: Self)
        ensures
            r == (LgwConfRxrf {
                enable: false,
                freq_hz: 0,
                _type: LgwRadioType::LGW_RADIO_TYPE_SX1250,
                tx_enable: false,
                single_input_mode: false,
            }),
    {
        LgwConfRxrf {
            enable: false,
            freq_hz: 0,
            _type: LgwRadioType::LGW_RADIO_TYPE_SX1250,
            tx_enable: false,
            single_input_mode: false,
        }
    }
}

/// Configuration of one IF chain.
#[derive(Clone, Copy, Debug, PartialEq, Eq, Structural)]
pub struct LgwConfRxIf {
    /// Enable or disable this IF chain.
    pub enable: bool,
    /// RF chain this IF chain listens on.
    pub rf_chain: u8,
    /// Center frequency of the IF chain, relative to the RF chain, in Hz.
    pub freq_hz: i32,
    /// RX bandwidth code, 0 for default.
    pub bandwidth: u8,
    /// RX datarate, 0 for default.
    pub datarate: u32,
    /// Size of the FSK sync word in bytes, 0 for default.
    pub sync_word_size: u8,
    /// FSK sync word, aligned right.
    pub sync_word: u64,
    /// LoRa service implicit header mode.
    pub implicit_hdr: bool,
    /// Payload length under the implicit header, in bytes.
    pub implicit_payload_length: u8,
    /// CRC enabled under the implicit header.
    pub implicit_crc_en: bool,
    /// Coding rate under the implicit header.
    pub implicit_coderate: u8,
}

impl Default for LgwConfRxIf {
    /// A disabled IF chain with every field zeroed.
    fn default() -> (r: Self)
        ensures
            r == (LgwConfRxIf {
                enable: false,
                rf_chain: 0,
                freq_hz: 0,
                bandwidth: BW_UNDEFINED,
                datarate: 0,
                sync_word_size: 0,
                sync_word: 0,
                implicit_hdr: false,
                implicit_payload_length: 0,
                implicit_crc_en: false,
                implicit_coderate: 0,
            }),
    {
        LgwConfRxIf {
            enable: false,
            rf_chain: 0,
            freq_hz: 0,
            bandwidth: BW_UNDEFINED,
            datarate: 0,
            sync_word_size: 0,
            sync_word: 0,
            implicit_hdr: false,
            implicit_payload_length: 0,
            implicit_crc_en: false,
            implicit_coderate: 0,
        }
    }
}

/// One entry of a TX gain look-up table.
#[derive(Clone, Copy, Debug, PartialEq, Eq, Structural)]
pub struct LgwTxGain {
    /// Measured TX power at the board connector, in dBm.
    pub rf_power: i8,
    /// Control of the digital gain (sx125x, 2 bits).
    pub dig_gain: u8,
    /// Control of the external PA (2 bits sx125x, 1 bit sx1250).
    pub pa_gain: u8,
    /// Control of the radio DAC (sx125x, 2 bits).
    pub dac_gain: u8,
    /// Control of the radio mixer (sx125x, 4 bits).
    pub mix_gain: u8,
    /// Calibrated I offset (sx125x).
    pub offset_i: i8,
    /// Calibrated Q offset (sx125x).
    pub offset_q: i8,
    /// Radio power index (sx1250, 6 bits).
    pub pwr_idx: u8,
}

/// Default mixer gain setting.
pub fn default_mix_gain() -> (r: u8)
    ensures
        r == 8,
{
    8
}

impl Default for LgwTxGain {
    /// All controls zeroed but the mixer gain at its default.
    fn default() -> (r: Self)
        ensures
            r == (LgwTxGain {
                rf_power: 0,
                dig_gain: 0,
                pa_gain: 0,
                dac_gain: 0,
                mix_gain: 8,
                offset_i: 0,
                offset_q: 0,
                pwr_idx: 0,
            }),
    {
        LgwTxGain {
            rf_power: 0,
            dig_gain: 0,
            pa_gain: 0,
            dac_gain: 0,
            mix_gain: 8,
            offset_i: 0,
            offset_q: 0,
            pwr_idx: 0,
        }
    }
}

/// A TX gain look-up table and the number of entries in use.
#[derive(Clone, Copy, Debug)]
pub struct LgwTxGainLut {
    /// The gain entries.
    pub lut: [LgwTxGain; 16],
    /// Number of entries in use.
    pub size: usize,
}

impl Default for LgwTxGainLut {
    /// An empty table of default entries.
    fn default() -> (r: Self)
        ensures
            r.size == 0,
            r.lut@.len() == 16,
            forall|i: int|
                0 <= i < 16 ==> r.lut@[i] == (LgwTxGain {
                    rf_power: 0,
                    dig_gain: 0,
                    pa_gain: 0,
                    dac_gain: 0,
                    mix_gain: 8,
                    offset_i: 0,
                    offset_q: 0,
                    pwr_idx: 0,
                }),
    {
        LgwTxGainLut { lut: [LgwTxGain::default(); 16], size: 0 }
    }
}

/// Board-level configuration.
#[derive(Clone, Debug)]
pub struct LgwConfigBoard {
    /// Enable only for public LoRaWAN networks.
    pub lorawan_public: bool,
    /// Index of the RF chain providing the concentrator clock.
    pub clksrc: u8,
    /// Whether the gateway operates in full duplex.
    pub full_duplex: bool,
    /// Communication interface (SPI or USB).
    pub com_type: LgwComType,
    /// Path of the COM device.
    pub com_path: String,
}

impl Default for LgwConfigBoard {
    /// A private-network USB board with no device path.
    fn default() -> (r: Self)
        ensures
            r.lorawan_public == false,
            r.clksrc == 0,
            r.full_duplex == false,
            r.com_type == LgwComType::LGW_COM_USB,
            r.com_path@.len() == 0,
    {
        LgwConfigBoard {
            lorawan_public: false,
            clksrc: 0,
            full_duplex: false,
            com_type: LgwComType::LGW_COM_USB,
            com_path: String::new(),
        }
    }
}

/// Demodulator configuration.
#[derive(Clone, Copy, Debug, PartialEq, Eq, Structural)]
pub struct LgwConfDemod {
    /// Bitmask enabling spreading factors for the multi-SF correlators.
    pub multisf_datarate: u8,
}

impl Default for LgwConfDemod {
    fn default() -> (r: Self)
        ensures
            r == (LgwConfDemod { multisf_datarate: 0 }),
    {
        LgwConfDemod { multisf_datarate: 0 }
    }
}

/// Fine-timestamping configuration.
#[derive(Clone, Copy, Debug, PartialEq, Eq, Structural)]
pub struct LgwConfigFtime {
    /// Enable or disable fine timestamping.
    pub enable: bool,
    /// Fine-timestamping mode.
    pub mode: LgwFtimeMode,
}

impl Default for LgwConfigFtime {
    fn default() -> (r: Self)
        ensures
            r == (LgwConfigFtime {
                enable: false,
                mode: LgwFtimeMode::LGW_FTIME_MODE_HIGH_CAPACITY,
            }),
    {
        LgwConfigFtime { enable: false, mode: LgwFtimeMode::LGW_FTIME_MODE_HIGH_CAPACITY }
    }
}

/// One listen-before-talk channel.
#[derive(Clone, Copy, Debug, PartialEq, Eq, Structural)]
pub struct LgwConfigChanLbt {
    /// LBT channel frequency, in Hz.
    pub freq_hz: u32,
    /// LBT channel bandwidth code.
    pub bandwidth: u8,
    /// Carrier-sense duration.
    pub scan_time_us: LgwLbtScanTime,
    /// Allowed transmission duration, in ms.
    pub transmit_time_ms: u16,
}

impl Default for LgwConfigChanLbt {
    fn default() -> (r: Self)
        ensures
            r == (LgwConfigChanLbt {
                freq_hz: 0,
                bandwidth: 0,
                scan_time_us: LgwLbtScanTime::LGW_LBT_SCAN_TIME_128_US,
                transmit_time_ms: 0,
            }),
    {
        LgwConfigChanLbt {
            freq_hz: 0,
            bandwidth: 0,
            scan_time_us: LgwLbtScanTime::LGW_LBT_SCAN_TIME_128_US,
            transmit_time_ms: 0,
        }
    }
}

/// Listen-before-talk configuration.
#[derive(Clone, Copy, Debug)]
pub struct LgwConfLbt {
    /// Enable or disable LBT.
    pub enable: bool,
    /// RSSI threshold marking a channel busy, in dBm.
    pub rssi_target: i8,
    /// Number of LBT channels in use.
    pub nb_channel: u8,
    /// The LBT channels.
    pub channels: [LgwConfigChanLbt; 16],
}

impl Default for LgwConfLbt {
    fn default() -> (r: Self)
        ensures
            r.enable == false,
            r.rssi_target == 0,
            r.nb_channel == 0,
            r.channels@.len() == 16,
            forall|i: int|
                0 <= i < 16 ==> r.channels@[i] == (LgwConfigChanLbt {
                    freq_hz: 0,
                    bandwidth: 0,
                    scan_time_us: LgwLbtScanTime::LGW_LBT_SCAN_TIME_128_US,
                    transmit_time_ms: 0,
                }),
    {
        LgwConfLbt {
            enable: false,
            rssi_target: 0,
            nb_channel: 0,
            channels: [LgwConfigChanLbt::default(); 16],
        }
    }
}

/// A known payload the debug configuration can look for.
#[derive(Clone, Debug)]
pub struct ConfRefPayload {
    pub id: u32,
    pub payload: Vec<u8>,
    pub prev_cnt: u32,
}

impl Default for ConfRefPayload {
    fn default() -> (r: Self)
        ensures
            r.id == 0,
            r.payload@.len() == 0,
            r.prev_cnt == 0,
    {
        ConfRefPayload { id: 0, payload: Vec::new(), prev_cnt: 0 }
    }
}

/// Debug configuration.
#[derive(Clone, Debug)]
pub struct LgwConfDebug {
    /// Number of reference payloads in use.
    pub nb_ref_payload: u8,
    /// The reference payloads.
    pub ref_payload: Vec<ConfRefPayload>,
    /// Name of the log file.
    pub log_file_name: String,
}

impl Default for LgwConfDebug {
    fn default() -> (r: Self)
        ensures
            r.nb_ref_payload == 0,
            r.ref_payload@.len() == 0,
            r.log_file_name@.len() == 0,
    {
        LgwConfDebug { nb_ref_payload: 0, ref_payload: Vec::new(), log_file_name: String::new() }
    }
}

/// A packet to send.
#[derive(Clone, Debug)]
pub struct LgwPktTx {
    /// Center frequency of the transmission, in Hz.
    pub freq_hz: u32,
    /// What event or time triggers the transmission.
    pub tx_mode: TxMode,
    /// Timestamp or delay for the TX trigger, in microseconds.
    pub count_us: u32,
    /// RF chain to send through.
    pub rf_chain: u8,
    /// TX power, in dBm.
    pub rf_power: i8,
    /// Modulation to use.
    pub modulation: Modulation,
    /// Frequency offset from the radio TX frequency (CW mode), in kHz.
    pub freq_offset: i8,
    /// Modulation bandwidth code (LoRa only).
    pub bandwidth: u8,
    /// TX datarate: baudrate for FSK, spreading factor for LoRa.
    pub datarate: u32,
    /// Coding-rate code (LoRa only).
    pub coderate: u8,
    /// Invert signal polarity, for orthogonal downlinks (LoRa only).
    pub invert_pol: bool,
    /// Frequency deviation in kHz (FSK only).
    pub f_dev: u8,
    /// Preamble length, 0 for default.
    pub preamble: u16,
    /// When set, no CRC is sent in the packet.
    pub no_crc: bool,
    /// When set, the header is implicit (LoRa) or the length fixed (FSK).
    pub no_header: bool,
    /// Payload size in bytes.
    pub size: u16,
    /// The payload.
    pub payload: Vec<u8>,
}

impl Default for LgwPktTx {
    /// An immediate, undefined-modulation packet with an empty payload.
    fn default() -> (r: Self)
        ensures
            r.freq_hz == 0,
            r.tx_mode == TxMode::IMMEDIATE,
            r.count_us == 0,
            r.rf_chain == 0,
            r.rf_power == 0,
            r.modulation == Modulation::UNDEFINED,
            r.freq_offset == 0,
            r.bandwidth == BW_UNDEFINED,
            r.datarate == DR_UNDEFINED,
            r.coderate == CR_UNDEFINED,
            r.invert_pol == false,
            r.f_dev == 0,
            r.preamble == 0,
            r.no_crc == false,
            r.no_header == false,
            r.size == 0,
            r.payload@.len() == 0,
    {
        LgwPktTx {
            freq_hz: 0,
            tx_mode: TxMode::IMMEDIATE,
            count_us: 0,
            rf_chain: 0,
            rf_power: 0,
            modulation: Modulation::UNDEFINED,
            freq_offset: 0,
            bandwidth: BW_UNDEFINED,
            datarate: DR_UNDEFINED,
            coderate: CR_UNDEFINED,
            invert_pol: false,
            f_dev: 0,
            preamble: 0,
            no_crc: false,
            no_header: false,
            size: 0,
            payload: Vec::new(),
        }
    }
}

/// A received packet, as returned to callers. Signal-strength fields carry
/// the raw chip readings; converting them to calibrated dB values is
/// floating-point work left to the surrounding driver.
#[derive(Clone, Debug)]
pub struct LgwPktRx {
    /// Center frequency of the IF chain, in Hz.
    pub freq_hz: u32,
    /// Frequency offset of the packet relative to the channel, in Hz.
    pub freq_offset: i32,
    /// IF chain the packet was received on.
    pub if_chain: u8,
    /// CRC status of the packet.
    pub status: u8,
    /// Expanded and corrected arrival timestamp, in microseconds.
    pub count_us: u32,
    /// RF chain the packet was received through.
    pub rf_chain: u8,
    /// Modem that demodulated the packet.
    pub modem_id: u8,
    /// Modulation of the packet.
    pub modulation: Modulation,
    /// Bandwidth code (LoRa only).
    pub bandwidth: u8,
    /// Datarate: spreading factor for LoRa.
    pub datarate: u32,
    /// Coding-rate code (LoRa only).
    pub coderate: u8,
    /// Raw average RSSI of the channel, as read from the chip.
    pub rssic_raw: u8,
    /// Raw average RSSI of the signal, as read from the chip (LoRa only).
    pub rssis_raw: u8,
    /// Average packet SNR in quarter-dB steps (LoRa only).
    pub snr_raw: i8,
    /// CRC16 carried in the packet.
    pub crc: u16,
    /// Payload size in bytes.
    pub size: u16,
    /// The payload.
    pub payload: Vec<u8>,
    /// Whether a fine timestamp was computed for this packet.
    pub ftime_received: bool,
    /// Fine timestamp: nanoseconds since the last PPS edge.
    pub ftime: u32,
}

impl LgwPktRx {
    /// An empty record with every field zeroed.
    pub fn new() -> (r: Self)
        ensures
            r.freq_hz == 0,
            r.freq_offset == 0,
            r.if_chain == 0,
            r.status == 0,
            r.count_us == 0,
            r.rf_chain == 0,
            r.modem_id == 0,
            r.modulation == Modulation::UNDEFINED,
            r.bandwidth == 0,
            r.datarate == 0,
            r.coderate == 0,
            r.rssic_raw == 0,
            r.rssis_raw == 0,
            r.snr_raw == 0,
            r.crc == 0,
            r.size == 0,
            r.payload@.len() == 0,
            r.ftime_received == false,
            r.ftime == 0,
    {
        LgwPktRx {
            freq_hz: 0,
            freq_offset: 0,
            if_chain: 0,
            status: 0,
            count_us: 0,
            rf_chain: 0,
            modem_id: 0,
            modulation: Modulation::UNDEFINED,
            bandwidth: 0,
            datarate: 0,
            coderate: 0,
            rssic_raw: 0,
            rssis_raw: 0,
            snr_raw: 0,
            crc: 0,
            size: 0,
            payload: Vec::new(),
            ftime_received: false,
            ftime: 0,
        }
    }
}

/// The whole configuration context owned by a driver session.
#[derive(Clone, Debug)]
pub struct LgwContext {
    /// Whether the concentrator has been started.
    pub is_started: bool,
    /// Board-level configuration.
    pub board_cfg: LgwConfigBoard,
    /// RF chain configurations.
    pub rf_chain_cfg: [LgwConfRxrf; 2],
    /// IF chain configurations.
    pub if_chain_cfg: [LgwConfRxIf; 10],
    /// Demodulator configuration.
    pub demod_cfg: LgwConfDemod,
    /// LoRa service channel configuration.
    pub lora_service_cfg: LgwConfRxIf,
    /// FSK channel configuration.
    pub fsk_cfg: LgwConfRxIf,
    /// TX gain tables, one per RF chain.
    pub tx_gain_lut: [LgwTxGainLut; 2],
    /// Fine-timestamp configuration.
    pub ftime_cfg: LgwConfigFtime,
    /// Debug configuration.
    pub debug_cfg: LgwConfDebug,
}

/// Machine limits the receive path relies on: radio frequencies within the
/// tuning range and IF offsets within the channelizer span, as the
/// configuration functions of the driver enforce, and an FSK baudrate in
/// its valid band.
pub open spec fn context_wf(ctx: LgwContext) -> bool {
    &&& forall|i: int| 0 <= i < 2 ==> (#[trigger] ctx.rf_chain_cfg@[i]).freq_hz <= 1000000000
    &&& forall|i: int|
        0 <= i < 10 ==> -2000000 <= (#[trigger] ctx.if_chain_cfg@[i]).freq_hz <= 2000000
    &&& forall|i: int| 0 <= i < 10 ==> (#[trigger] ctx.if_chain_cfg@[i]).rf_chain < 2
    &&& DR_FSK_MIN <= ctx.fsk_cfg.datarate <= DR_FSK_MAX
}

/// Modem capability of each IF chain: eight multi-SF LoRa chains, one
/// standalone LoRa chain, one FSK chain.
pub open spec fn ifmod_config_spec(if_chain: u8) -> u8 {
    if if_chain < 8 {
        IF_LORA_MULTI
    } else if if_chain == 8 {
        IF_LORA_STD
    } else if if_chain == 9 {
        IF_FSK_STD
    } else {
        IF_UNDEFINED
    }
}

/// Modem capability of an IF chain, from the fixed hardware table.
pub fn sx1302_get_ifmod_config(if_chain: u8) -> (r: u8)
    ensures
        r == ifmod_config_spec(if_chain),
{
    if if_chain < 8 {
        IF_LORA_MULTI
    } else if if_chain == 8 {
        IF_LORA_STD
    } else if if_chain == 9 {
        IF_FSK_STD
    } else {
        IF_UNDEFINED
    }
}

} // verus!

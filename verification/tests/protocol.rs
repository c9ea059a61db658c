//! Tests of the codecs, the MCU protocol decoders, and the radio
//! register helpers.

use loragw::agc_params::{agc_params_sx1250, agc_params_sx125x};
use loragw::codec::{compute_checksum, sx1302_lora_payload_crc};
use loragw::config::{
    sx1302_get_ifmod_config, LgwConfRxIf, LgwTxGain, Modulation, BW_125KHZ, BW_250KHZ, BW_500KHZ,
    IF_FSK_STD, IF_LORA_MULTI, IF_LORA_STD, IF_UNDEFINED,
};
use loragw::error::Error;
use loragw::mcu::{bytes_be_to_uint32_le, OrderId, PingInfo};
use loragw::radio::{
    calculate_freq_to_time_drift, reg_select, sx1250_freq_to_reg, IF_HZ_TO_REG,
};
use loragw::toa::{is_fsk_dr, is_lora_bw, is_lora_cr, is_lora_dr, lgw_bw_getval, SET_PPM_ON};

#[test]
fn payload_crc16_known_values() {
    let p5 = vec![1u8, 2, 3, 4, 5];
    assert_eq!(sx1302_lora_payload_crc(&p5, 5), 0x6534);
    let p16: Vec<u8> = (0x10u8..0x20).collect();
    assert_eq!(sx1302_lora_payload_crc(&p16, 16), 0xE76F);
    assert_eq!(sx1302_lora_payload_crc(&Vec::new(), 0), 0);
}

#[test]
fn record_checksum_is_byte_sum_mod_256() {
    let data = vec![0xFFu8, 0xFF, 0x02, 0x01];
    assert_eq!(compute_checksum(&data, 0, 4), 0x01);
    assert_eq!(compute_checksum(&data, 1, 2), 0x01);
    assert_eq!(compute_checksum(&data, 0, 0), 0);
}

#[test]
fn parameter_validators() {
    assert!(is_lora_bw(BW_125KHZ) && is_lora_bw(BW_250KHZ) && is_lora_bw(BW_500KHZ));
    assert!(!is_lora_bw(0));
    assert!(is_lora_dr(5) && is_lora_dr(12) && !is_lora_dr(4) && !is_lora_dr(13));
    assert!(is_lora_cr(1) && is_lora_cr(4) && !is_lora_cr(0) && !is_lora_cr(5));
    assert!(is_fsk_dr(500) && is_fsk_dr(250_000) && !is_fsk_dr(499));
    assert_eq!(lgw_bw_getval(BW_500KHZ), 500_000);
    assert_eq!(lgw_bw_getval(0x42), -1);
}

#[test]
fn low_datarate_optimization_table() {
    assert!(SET_PPM_ON(BW_125KHZ, 11));
    assert!(SET_PPM_ON(BW_125KHZ, 12));
    assert!(SET_PPM_ON(BW_250KHZ, 12));
    assert!(!SET_PPM_ON(BW_250KHZ, 11));
    assert!(!SET_PPM_ON(BW_500KHZ, 12));
    assert!(!SET_PPM_ON(BW_125KHZ, 7));
}

#[test]
fn ifmod_capability_table() {
    for ch in 0..8 {
        assert_eq!(sx1302_get_ifmod_config(ch), IF_LORA_MULTI);
    }
    assert_eq!(sx1302_get_ifmod_config(8), IF_LORA_STD);
    assert_eq!(sx1302_get_ifmod_config(9), IF_FSK_STD);
    assert_eq!(sx1302_get_ifmod_config(10), IF_UNDEFINED);
}

#[test]
fn big_endian_word_decoder() {
    let b = vec![0x12u8, 0x34, 0x56, 0x78, 0x9A];
    assert_eq!(bytes_be_to_uint32_le(&b), Ok(0x12345678));
    let short = vec![1u8, 2, 3];
    assert_eq!(bytes_be_to_uint32_le(&short), Err(Error::LGW_COM_ERROR));
}

#[test]
fn ping_acknowledge_decoder() {
    let hdr = vec![0u8, 0, 21, OrderId::AckPing.value()];
    let mut payload = vec![
        0x01u8, 0x02, 0x03, 0x04, 0x11, 0x12, 0x13, 0x14, 0x21, 0x22, 0x23, 0x24,
    ];
    payload.extend_from_slice(b"V01.02.03");
    let info = PingInfo::from_ping(&hdr, &payload).unwrap();
    assert_eq!(info.unique_id_high, 0x01020304);
    assert_eq!(info.unique_id_mid, 0x11121314);
    assert_eq!(info.unique_id_low, 0x21222324);
    assert_eq!(info.version, b"V01.02.03".to_vec());

    let bad_hdr = vec![0u8, 0, 21, OrderId::AckGetStatus.value()];
    assert!(PingInfo::from_ping(&bad_hdr, &payload).is_err());
}

#[test]
fn radio_register_conversions() {
    assert_eq!(reg_select(0, 0x10, 0x20), 0x10);
    assert_eq!(reg_select(1, 0x10, 0x20), 0x20);

    assert_eq!(IF_HZ_TO_REG(-200_000), -409);
    assert_eq!(IF_HZ_TO_REG(400_000), 819);
    assert_eq!(IF_HZ_TO_REG(0), 0);

    assert_eq!(sx1250_freq_to_reg(923_600_000), 968_464_793);
}

#[test]
fn freq_to_time_drift_coefficients() {
    let (mantissa, exponent) = calculate_freq_to_time_drift(923_600_000, BW_125KHZ).unwrap();
    assert_eq!((mantissa, exponent), (2256, 4));
    assert!(calculate_freq_to_time_drift(923_600_000, 0x42).is_err());
}

#[test]
fn configuration_defaults() {
    let ifc = LgwConfRxIf::default();
    assert!(!ifc.enable);
    assert_eq!(ifc.freq_hz, 0);
    let gain = LgwTxGain::default();
    assert_eq!(gain.mix_gain, 8);
    assert_eq!(Modulation::LORA.value(), 0x10);
    assert_eq!(Modulation::FSK.value(), 0x20);
    let agc = agc_params_sx1250();
    assert_eq!((agc.ana_min, agc.hp_max), (1, 7));
    let agc2 = agc_params_sx125x();
    assert_eq!((agc2.ana_max, agc2.pa_duty_cycle), (9, 0));
}

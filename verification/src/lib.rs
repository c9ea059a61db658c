//! Receive-path core of an SX1302-class LoRa concentrator driver.
//!
//! The library covers the parts of the driver that carry algorithmic risk:
//! slicing the chip's FIFO byte stream into validated packet records,
//! expanding the wrapping 27-bit hardware counters into monotonic 32-bit
//! timestamps, the closed-form timing-correction models, and the
//! nanosecond-resolution fine-timestamp engine anchored to a PPS history.
//!
//! All device I/O stays outside: collaborators hand in raw byte slices
//! (FIFO contents, counter register reads) and receive plain values back.

pub mod agc_params;
pub mod assembler;
pub mod codec;
pub mod config;
pub mod correction;
pub mod error;
pub mod ftime;
pub mod mcu;
pub mod radio;
pub mod rx_buffer;
pub mod timestamp;
pub mod toa;

use vstd::prelude::*;

verus! {

/// Sync word, first byte, of every packet record in the FIFO stream.
pub const SX1302_PKT_SYNCWORD_BYTE_0: u8 = 0xA5;

/// Sync word, second byte.
pub const SX1302_PKT_SYNCWORD_BYTE_1: u8 = 0xC0;

/// Bytes of head metadata in a record (sync word included).
pub const SX1302_PKT_HEAD_METADATA: u8 = 9;

/// Bytes of tail metadata in a record (checksum byte included).
pub const SX1302_PKT_TAIL_METADATA: u8 = 14;

/// Modem id of the single-SF standalone LoRa modem; ids below it are
/// multi-SF LoRa modems.
pub const SX1302_LORA_STD_MODEM_ID: u8 = 16;

/// Modem id of the FSK modem, the largest valid id.
pub const SX1302_FSK_MODEM_ID: u8 = 17;

} // verus!

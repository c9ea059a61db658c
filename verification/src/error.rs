//! Error types of the receive path.

use vstd::prelude::*;

verus! {

/// Coarse error classes kept for compatibility with the driver's public
/// surface; the receive path itself reports the precise [`HalError`] causes.
#[derive(Clone, Copy, Debug, PartialEq, Eq, Structural)]
#[allow(non_camel_case_types)]
pub enum Error {
    LGW_HAL_ERROR,
    LGW_REG_ERROR,
    LGW_COM_ERROR,
    LGW_USB_ERROR,
}

impl Error {
    /// Name of the variant, for logging by callers.
    pub fn text(&self) -> (r: &'static str) {
        match self {
            Error::LGW_HAL_ERROR => "LGW_HAL_ERROR",
            Error::LGW_REG_ERROR => "LGW_REG_ERROR",
            Error::LGW_COM_ERROR => "LGW_COM_ERROR",
            Error::LGW_USB_ERROR => "LGW_USB_ERROR",
        }
    }
}

/// Closed set of failure causes of the receive packet-extraction and
/// timestamp-synchronization engine.
#[derive(Clone, Copy, Debug, PartialEq, Eq, Structural)]
pub enum HalError {
    /// No sync word where one was expected, or a record runs past the end
    /// of the fetched buffer.
    MalformedBuffer,
    /// The byte-sum checksum trailing a record does not match its contents.
    ChecksumMismatch,
    /// A metadata field (modem id, channel, spreading factor, IF chain) is
    /// outside its valid range.
    OutOfRangeMetadata,
    /// The CRC16 carried in the record does not match the payload.
    Crc16Mismatch,
    /// The PPS history does not (yet) hold enough entries, or none of them
    /// covers the packet's arrival time.
    InsufficientHistory,
    /// The measured crystal error is outside the plausible [0.8, 1.2] band.
    CrystalErrorOutOfRange,
    /// The computed fine timestamp does not fit below one second.
    FineTimestampOverflow,
}

impl HalError {
    /// Name of the variant, for logging by callers.
    pub fn text(&self) -> (r: &'static str) {
        match self {
            HalError::MalformedBuffer => "MalformedBuffer",
            HalError::ChecksumMismatch => "ChecksumMismatch",
            HalError::OutOfRangeMetadata => "OutOfRangeMetadata",
            HalError::Crc16Mismatch => "Crc16Mismatch",
            HalError::InsufficientHistory => "InsufficientHistory",
            HalError::CrystalErrorOutOfRange => "CrystalErrorOutOfRange",
            HalError::FineTimestampOverflow => "FineTimestampOverflow",
        }
    }

}

} // verus!

//! Command protocol vocabulary of the MCU bridge: opcodes, frame
//! offsets, and decoders for the acknowledge payloads the receive path
//! interprets.

use vstd::prelude::*;

use crate::error::Error;

verus! {

/// Read/write SPI request type.
pub const MCU_SPI_REQ_TYPE_READ_WRITE: u8 = 0x01;

/// Read-modify-write SPI request type.
pub const MCU_SPI_REQ_TYPE_READ_MODIFY_WRITE: u8 = 0x02;

/// Command identifiers of the MCU protocol.
#[derive(Clone, Copy, Debug, PartialEq, Eq, Structural)]
pub enum OrderId {
    ReqPing,
    ReqGetStatus,
    ReqBootloaderMode,
    ReqReset,
    ReqWriteGpio,
    ReqMultipleSpi,
    AckPing,
    AckGetStatus,
    AckBootloaderMode,
    AckReset,
    AckWriteGpio,
    AckMultipleSpi,
    CmdError,
}

impl OrderId {
    /// The wire code of the command: requests count up from zero,
    /// acknowledges from 0x40.
    pub fn value(&self) -> (r: u8)
        ensures
            r == order_id_value(*self),
    {
        match self {
            OrderId::ReqPing => 0x00,
            OrderId::ReqGetStatus => 0x01,
            OrderId::ReqBootloaderMode => 0x02,
            OrderId::ReqReset => 0x03,
            OrderId::ReqWriteGpio => 0x04,
            OrderId::ReqMultipleSpi => 0x05,
            OrderId::AckPing => 0x40,
            OrderId::AckGetStatus => 0x41,
            OrderId::AckBootloaderMode => 0x42,
            OrderId::AckReset => 0x43,
            OrderId::AckWriteGpio => 0x44,
            OrderId::AckMultipleSpi => 0x45,
            OrderId::CmdError => 0xFF,
        }
    }
}

/// Wire code of each command identifier.
pub open spec fn order_id_value(o: OrderId) -> u8 {
    match o {
        OrderId::ReqPing => 0x00,
        OrderId::ReqGetStatus => 0x01,
        OrderId::ReqBootloaderMode => 0x02,
        OrderId::ReqReset => 0x03,
        OrderId::ReqWriteGpio => 0x04,
        OrderId::ReqMultipleSpi => 0x05,
        OrderId::AckPing => 0x40,
        OrderId::AckGetStatus => 0x41,
        OrderId::AckBootloaderMode => 0x42,
        OrderId::AckReset => 0x43,
        OrderId::AckWriteGpio => 0x44,
        OrderId::AckMultipleSpi => 0x45,
        OrderId::CmdError => 0xFF,
    }
}

/// Byte offsets of a command frame: identifier, 16-bit size, command,
/// then data.
#[derive(Clone, Copy, Debug, PartialEq, Eq, Structural)]
pub enum CommandOrderOffset {
    Id,
    SizeMsb,
    SizeLsb,
    Cmd,
    Data,
}

impl CommandOrderOffset {
    /// Position of the field in the frame.
    pub fn index(&self) -> (r: usize)
        ensures
            r == command_order_offset_index(*self),
    {
        match self {
            CommandOrderOffset::Id => 0,
            CommandOrderOffset::SizeMsb => 1,
            CommandOrderOffset::SizeLsb => 2,
            CommandOrderOffset::Cmd => 3,
            CommandOrderOffset::Data => 4,
        }
    }
}

/// Position of each command-frame field.
pub open spec fn command_order_offset_index(o: CommandOrderOffset) -> usize {
    match o {
        CommandOrderOffset::Id => 0,
        CommandOrderOffset::SizeMsb => 1,
        CommandOrderOffset::SizeLsb => 2,
        CommandOrderOffset::Cmd => 3,
        CommandOrderOffset::Data => 4,
    }
}

/// Byte offsets inside a ping acknowledge payload: a 12-byte unique id
/// followed by a 9-byte version string.
#[derive(Clone, Copy, Debug, PartialEq, Eq, Structural)]
pub enum ECmdOffsetAckPing {
    AckPingUniqueId0,
    AckPingUniqueId1,
    AckPingUniqueId2,
    AckPingUniqueId3,
    AckPingUniqueId4,
    AckPingUniqueId5,
    AckPingUniqueId6,
    AckPingUniqueId7,
    AckPingUniqueId8,
    AckPingUniqueId9,
    AckPingUniqueId10,
    AckPingUniqueId11,
    AckPingVersion0,
    AckPingVersion1,
    AckPingVersion2,
    AckPingVersion3,
    AckPingVersion4,
    AckPingVersion5,
    AckPingVersion6,
    AckPingVersion7,
    AckPingVersion8,
    AckPingSize,
}

impl ECmdOffsetAckPing {
    /// Position of the field in the payload; the last variant is the
    /// payload size.
    pub fn index(&self) -> (r: usize)
        ensures
            r <= 21,
            *self == ECmdOffsetAckPing::AckPingUniqueId0 ==> r == 0,
            *self == ECmdOffsetAckPing::AckPingUniqueId4 ==> r == 4,
            *self == ECmdOffsetAckPing::AckPingUniqueId8 ==> r == 8,
            *self == ECmdOffsetAckPing::AckPingVersion0 ==> r == 12,
            *self == ECmdOffsetAckPing::AckPingSize ==> r == 21,
    {
        match self {
            ECmdOffsetAckPing::AckPingUniqueId0 => 0,
            ECmdOffsetAckPing::AckPingUniqueId1 => 1,
            ECmdOffsetAckPing::AckPingUniqueId2 => 2,
            ECmdOffsetAckPing::AckPingUniqueId3 => 3,
            ECmdOffsetAckPing::AckPingUniqueId4 => 4,
            ECmdOffsetAckPing::AckPingUniqueId5 => 5,
            ECmdOffsetAckPing::AckPingUniqueId6 => 6,
            ECmdOffsetAckPing::AckPingUniqueId7 => 7,
            ECmdOffsetAckPing::AckPingUniqueId8 => 8,
            ECmdOffsetAckPing::AckPingUniqueId9 => 9,
            ECmdOffsetAckPing::AckPingUniqueId10 => 10,
            ECmdOffsetAckPing::AckPingUniqueId11 => 11,
            ECmdOffsetAckPing::AckPingVersion0 => 12,
            ECmdOffsetAckPing::AckPingVersion1 => 13,
            ECmdOffsetAckPing::AckPingVersion2 => 14,
            ECmdOffsetAckPing::AckPingVersion3 => 15,
            ECmdOffsetAckPing::AckPingVersion4 => 16,
            ECmdOffsetAckPing::AckPingVersion5 => 17,
            ECmdOffsetAckPing::AckPingVersion6 => 18,
            ECmdOffsetAckPing::AckPingVersion7 => 19,
            ECmdOffsetAckPing::AckPingVersion8 => 20,
            ECmdOffsetAckPing::AckPingSize => 21,
        }
    }
}

/// Byte offsets inside a status acknowledge payload.
#[derive(Clone, Copy, Debug, PartialEq, Eq, Structural)]
pub enum ECmdOffsetAckGetStatus {
    AckGetStatusSystemTime31_24,
    AckGetStatusSystemTime23_16,
    AckGetStatusSystemTime15_8,
    AckGetStatusSystemTime7_0,
    AckGetStatusTemperature15_8,
    AckGetStatusTemperature7_0,
    AckGetStatusSize,
}

impl ECmdOffsetAckGetStatus {
    /// Position of the field in the payload; the last variant is the
    /// payload size.
    pub fn index(&self) -> (r: usize)
        ensures
            r <= 6,
            *self == ECmdOffsetAckGetStatus::AckGetStatusSystemTime31_24 ==> r == 0,
            *self == ECmdOffsetAckGetStatus::AckGetStatusSize ==> r == 6,
    {
        match self {
            ECmdOffsetAckGetStatus::AckGetStatusSystemTime31_24 => 0,
            ECmdOffsetAckGetStatus::AckGetStatusSystemTime23_16 => 1,
            ECmdOffsetAckGetStatus::AckGetStatusSystemTime15_8 => 2,
            ECmdOffsetAckGetStatus::AckGetStatusSystemTime7_0 => 3,
            ECmdOffsetAckGetStatus::AckGetStatusTemperature15_8 => 4,
            ECmdOffsetAckGetStatus::AckGetStatusTemperature7_0 => 5,
            ECmdOffsetAckGetStatus::AckGetStatusSize => 6,
        }
    }
}

/// Byte offsets inside a GPIO write request.
#[derive(Clone, Copy, Debug, PartialEq, Eq, Structural)]
pub enum ECmdOffsetReqWriteGpio {
    ReqWriteGpioPort,
    ReqWriteGpioPin,
    ReqWriteGpioState,
    ReqWriteGpioSize,
}

/// Byte offsets inside a GPIO write acknowledge.
#[derive(Clone, Copy, Debug, PartialEq, Eq, Structural)]
pub enum ECmdOffsetAckGpioWrite {
    AckGpioWriteStatus,
    AckGpioWriteSize,
}

/// SPI transaction status codes of the MCU.
#[derive(Clone, Copy, Debug, PartialEq, Eq, Structural)]
pub enum ESpiStatus {
    SpiStatusOk,
    SpiStatusFail,
    SpiStatusWrongParam,
    SpiStatusTimeout,
}

impl ESpiStatus {
    /// Name of the variant, for logging by callers.
    pub fn text(&self) -> (r: &'static str) {
        match self {
            ESpiStatus::SpiStatusOk => "SpiStatusOk",
            ESpiStatus::SpiStatusFail => "SpiStatusFail",
            ESpiStatus::SpiStatusWrongParam => "SpiStatusWrongParam",
            ESpiStatus::SpiStatusTimeout => "SpiStatusTimeout",
        }
    }
}

/// The SPI bus endpoints the MCU can target.
#[derive(Clone, Copy, Debug, PartialEq, Eq, Structural)]
#[allow(non_camel_case_types)]
pub enum ECmdSpiTarget {
    MCU_SPI_TARGET_SX1302,
    MCU_SPI_TARGET_SX1261,
}

/// Whether register writes go out singly or as a stored bulk.
#[derive(Clone, Copy, Debug, PartialEq, Eq, Structural)]
#[allow(non_camel_case_types)]
pub enum EComWriteMode {
    LGW_COM_WRITE_MODE_SINGLE,
    LGW_COM_WRITE_MODE_BULK,
    LGW_COM_WRITE_MODE_UNKNOWN,
}

/// Reads a 32-bit value laid out big-endian at the front of a byte
/// slice; fails when fewer than four bytes are available, and exactly
/// then.
pub fn bytes_be_to_uint32_le(bytes: &[u8]) -> (r: Result<u32, Error>)
    ensures
        r.is_ok() == (bytes@.len() >= 4),
        r.is_ok() ==> r.unwrap() as int == (bytes@[0] as int) * 0x1000000 + (bytes@[1] as int)
            * 0x10000 + (bytes@[2] as int) * 0x100 + bytes@[3] as int,
{
    if bytes.len() >= 4 {
        Ok(
            ((bytes[0] as u32) * 0x1000000) + ((bytes[1] as u32) * 0x10000) + ((bytes[2] as u32)
                * 0x100) + (bytes[3] as u32),
        )
    } else {
        Err(Error::LGW_COM_ERROR)
    }
}

/// Identity of the MCU, decoded from a ping acknowledge.
#[derive(Clone, Debug)]
pub struct PingInfo {
    /// High word of the 96-bit unique id.
    pub unique_id_high: u32,
    /// Middle word of the 96-bit unique id.
    pub unique_id_mid: u32,
    /// Low word of the 96-bit unique id.
    pub unique_id_low: u32,
    /// Firmware version bytes, in the form `V00.00.00`.
    pub version: Vec<u8>,
}

impl PingInfo {
    /// Decodes a ping acknowledge: checks the acknowledge type in the
    /// frame header, then splits the payload into the unique id words
    /// and the version bytes. Fails on a wrong acknowledge type, and
    /// exactly then.
    pub fn from_ping(hdr: &[u8], payload: &[u8]) -> (r: Result<PingInfo, Error>)
        requires
            hdr@.len() >= 4,
            payload@.len() >= 21,
        ensures
            r.is_ok() == (hdr@[3] == 0x40),
            r.is_ok() ==> {
                let info = r.unwrap();
                &&& info.unique_id_high as int == (payload@[0] as int) * 0x1000000 + (
                payload@[1] as int) * 0x10000 + (payload@[2] as int) * 0x100 + payload@[3] as int
                &&& info.unique_id_mid as int == (payload@[4] as int) * 0x1000000 + (
                payload@[5] as int) * 0x10000 + (payload@[6] as int) * 0x100 + payload@[7] as int
                &&& info.unique_id_low as int == (payload@[8] as int) * 0x1000000 + (
                payload@[9] as int) * 0x10000 + (payload@[10] as int) * 0x100 + payload@[11] as int
                &&& info.version@ == payload@.skip(12)
            },
    {
        if hdr[3] != OrderId::AckPing.value() {
            return Err(Error::LGW_COM_ERROR);
        }

        let high: u32 = (payload[0] as u32) * 0x1000000 + (payload[1] as u32) * 0x10000 + (
        payload[2] as u32) * 0x100 + payload[3] as u32;
        let mid: u32 = (payload[4] as u32) * 0x1000000 + (payload[5] as u32) * 0x10000 + (
        payload[6] as u32) * 0x100 + payload[7] as u32;
        let low: u32 = (payload[8] as u32) * 0x1000000 + (payload[9] as u32) * 0x10000 + (
        payload[10] as u32) * 0x100 + payload[11] as u32;

        let mut version: Vec<u8> = Vec::new();
        let n: usize = payload.len();
        let mut i: usize = 12;
        while i < n
            invariant
                12 <= i <= n,
                n == payload@.len(),
                version@.len() == i - 12,
                forall|q: int| 0 <= q < i - 12 ==> version@[q] == payload@[12 + q],
            decreases n - i,
        {
            version.push(payload[i]);
            i = i + 1;
        }
        proof {
            assert(version@ =~= payload@.skip(12));
        }

        Ok(PingInfo { unique_id_high: high, unique_id_mid: mid, unique_id_low: low, version })
    }
}

/// A stored bulk of SPI requests awaiting a flush.
#[derive(Clone, Debug)]
pub struct SpiReqBulk {
    /// Bytes used in the buffer.
    pub size: usize,
    /// Number of stored requests.
    pub nb_req: u8,
    /// The request frames, back to back.
    pub buffer: Vec<u8>,
}

} // verus!

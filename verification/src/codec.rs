//! Encoding of motion commands and decoding of position reports.

use crate::error::BtError;
use vstd::prelude::*;

verus! {

/// Lowest height the desk can take, in tenths of a millimetre.
pub const MIN_HEIGHT: u16 = 6200;

/// Highest height the desk can take, in tenths of a millimetre.
pub const MAX_HEIGHT: u16 = 12700;

/// A command for the desk's motor.
#[derive(Clone, Copy, Debug, PartialEq, Eq, Structural)]
pub enum MotionCommand {
    Up,
    Down,
    Stop,
}

/// The two bytes that stand for `cmd` on the control characteristic.
pub open spec fn motion_payload(cmd: MotionCommand) -> Seq<u8> {
    match cmd {
        MotionCommand::Up => seq![0x47u8, 0x00u8],
        MotionCommand::Down => seq![0x46u8, 0x00u8],
        MotionCommand::Stop => seq![0xFFu8, 0x00u8],
    }
}

/// Encodes a motion command as its fixed two-byte payload.
pub fn encode_motion(cmd: MotionCommand) -> (payload: [u8; 2])
    ensures
        payload@ == motion_payload(cmd),
{
    let payload: [u8; 2] = match cmd {
        MotionCommand::Up => [0x47, 0x00],
        MotionCommand::Down => [0x46, 0x00],
        MotionCommand::Stop => [0xFF, 0x00],
    };
    assert(payload@ =~= motion_payload(cmd));
    payload
}

/// One report of the desk: where it stands and how fast it moves.
#[derive(Clone, Copy, Debug, PartialEq, Eq, Structural)]
pub struct PositionSpeed {
    /// Absolute height in tenths of a millimetre.
    pub position: u16,
    /// Speed in the desk's own unit; the sign gives the direction.
    pub speed: i16,
}

/// Whether `height` is one the desk can be sent to.
pub open spec fn height_in_range(height: int) -> bool {
    MIN_HEIGHT <= height <= MAX_HEIGHT
}

/// The unsigned 16-bit number whose little-endian bytes are `lo`, `hi`.
pub open spec fn le_u16(lo: u8, hi: u8) -> int {
    lo + 256 * hi
}

/// The signed 16-bit number whose little-endian bytes are `lo`, `hi`
/// (two's complement).
pub open spec fn le_i16(lo: u8, hi: u8) -> int {
    if hi < 128 {
        le_u16(lo, hi)
    } else {
        le_u16(lo, hi) - 65536
    }
}

/// The height that a report starting with `bytes` holds: the offset in its
/// first two bytes, counted from `MIN_HEIGHT`.
pub open spec fn sample_height(bytes: Seq<u8>) -> int
    recommends
        bytes.len() >= 4,
{
    MIN_HEIGHT + le_u16(bytes[0], bytes[1])
}

/// The speed that a report starting with `bytes` holds.
pub open spec fn sample_speed(bytes: Seq<u8>) -> int
    recommends
        bytes.len() >= 4,
{
    le_i16(bytes[2], bytes[3])
}

/// Whether `bytes` is a report that can be decoded: it has its four bytes,
/// and the height it holds fits the 16-bit position field.
pub open spec fn sample_decodable(bytes: Seq<u8>) -> bool {
    bytes.len() >= 4 && sample_height(bytes) <= u16::MAX
}

/// Whether `height` may be commanded as a target.
pub fn is_valid_height(height: u16) -> (valid: bool)
    ensures
        valid == height_in_range(height as int),
{
    MIN_HEIGHT <= height && height <= MAX_HEIGHT
}

/// Decodes a report of the position characteristic.
///
/// The height is passed on as it is, also where it lies outside the desk's
/// range: nothing is clamped.
pub fn bytes_to_position_speed(bytes: &[u8]) -> (sample: PositionSpeed)
    requires
        sample_decodable(bytes@),
    ensures
        sample.position == sample_height(bytes@),
        sample.speed == sample_speed(bytes@),
{
    let offset: u16 = bytes[0] as u16 + 256 * (bytes[1] as u16);
    let raw_speed: i32 = bytes[2] as i32 + 256 * (bytes[3] as i32);
    let speed: i32 = if bytes[3] < 128 {
        raw_speed
    } else {
        raw_speed - 65536
    };
    PositionSpeed { position: offset + MIN_HEIGHT, speed: speed as i16 }
}

/// Decodes a report of the position characteristic, or rejects it.
///
/// A report is rejected when it is shorter than four bytes, and when its
/// height would not fit the position field. Bytes after the fourth are not
/// read.
pub fn decode_position_sample(bytes: &[u8]) -> (decoded: Result<PositionSpeed, BtError>)
    ensures
        sample_decodable(bytes@) ==> decoded is Ok,
        decoded matches Ok(sample) ==> sample_decodable(bytes@) && sample.position
            == sample_height(bytes@) && sample.speed == sample_speed(bytes@),
        decoded matches Err(e) ==> e == BtError::MalformedSample,
{
    if bytes.len() < 4 {
        return Err(BtError::MalformedSample);
    }
    let offset: u32 = bytes[0] as u32 + 256 * (bytes[1] as u32);
    if offset > (u16::MAX - MIN_HEIGHT) as u32 {
        return Err(BtError::MalformedSample);
    }
    Ok(bytes_to_position_speed(bytes))
}

} // verus!

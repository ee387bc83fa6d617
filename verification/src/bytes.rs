//! Little-endian numbers in a buffer of bytes.
use vstd::prelude::*;

verus! {

/// Why a buffer of bytes is not a saved course.
#[derive(Clone, Copy, Debug, PartialEq, Eq, Structural)]
pub enum DecodeError {
    /// The buffer ends before the item that is being read does.
    Truncated,
    /// The header names a format that is not known.
    UnknownVersion,
    /// A number that stands for one of several kinds stands for none.
    InvalidDiscriminant,
    /// A byte that stands for a truth value is neither 0 nor 1.
    InvalidBool,
    /// The number of items of a sequence is negative.
    NegativeCount,
    /// The bytes of the title are not UTF-8.
    InvalidUtf8,
}

/// What reading an item gives: its value and the number of bytes that it
/// takes, or the reason why there is no such item.
pub type Parsed<T> = Result<(T, nat), DecodeError>;

/// Whether `count` bytes are stored from `pos` on.
pub open spec fn available(bytes: Seq<u8>, pos: nat, count: nat) -> bool {
    pos + count <= bytes.len()
}

/// Whether the buffer `longer` holds the bytes of `bytes`, followed by any
/// others.
pub open spec fn starts_with(longer: Seq<u8>, bytes: Seq<u8>) -> bool {
    &&& bytes.len() <= longer.len()
    &&& forall|i: int| 0 <= i < bytes.len() ==> longer[i] == bytes[i]
}

/// The number of bytes that are stored from `pos` on.
pub open spec fn remaining(bytes: Seq<u8>, pos: nat) -> nat {
    if pos <= bytes.len() {
        (bytes.len() - pos) as nat
    } else {
        0
    }
}

/// The number whose four bytes are stored from `pos` on, the lowest first.
pub open spec fn le_u32(bytes: Seq<u8>, pos: nat) -> u32
    recommends
        available(bytes, pos, 4),
{
    let first = pos as int;
    (bytes[first] as int + bytes[first + 1] as int * 0x100 + bytes[first + 2] as int * 0x1_0000
        + bytes[first + 3] as int * 0x100_0000) as u32
}

/// The number in two's complement whose four bytes are stored from `pos` on,
/// the lowest first.
pub open spec fn le_i32(bytes: Seq<u8>, pos: nat) -> i32
    recommends
        available(bytes, pos, 4),
{
    if le_u32(bytes, pos) >= 0x8000_0000 {
        (le_u32(bytes, pos) - 0x1_0000_0000) as i32
    } else {
        le_u32(bytes, pos) as i32
    }
}

/// The number whose eight bytes are stored from `pos` on, the lowest first.
pub open spec fn le_u64(bytes: Seq<u8>, pos: nat) -> u64
    recommends
        available(bytes, pos, 8),
{
    (le_u32(bytes, pos) as int + le_u32(bytes, pos + 4) as int * 0x1_0000_0000) as u64
}

/// The number whose sixteen bytes are stored from `pos` on, the lowest
/// first.
pub open spec fn le_u128(bytes: Seq<u8>, pos: nat) -> u128
    recommends
        available(bytes, pos, 16),
{
    (le_u64(bytes, pos) as int + le_u64(bytes, pos + 8) as int * 0x1_0000_0000_0000_0000) as u128
}

/// What reading one byte at `pos` gives.
pub open spec fn spec_read_u8(bytes: Seq<u8>, pos: nat) -> Parsed<u8> {
    if available(bytes, pos, 1) {
        Ok((bytes[pos as int], 1))
    } else {
        Err(DecodeError::Truncated)
    }
}

/// What reading a truth value at `pos` gives: a byte that is 0 or 1.
pub open spec fn spec_read_bool(bytes: Seq<u8>, pos: nat) -> Parsed<bool> {
    if !available(bytes, pos, 1) {
        Err(DecodeError::Truncated)
    } else if bytes[pos as int] == 0 {
        Ok((false, 1))
    } else if bytes[pos as int] == 1 {
        Ok((true, 1))
    } else {
        Err(DecodeError::InvalidBool)
    }
}

/// What reading a number of four bytes at `pos` gives.
pub open spec fn spec_read_u32(bytes: Seq<u8>, pos: nat) -> Parsed<u32> {
    if available(bytes, pos, 4) {
        Ok((le_u32(bytes, pos), 4))
    } else {
        Err(DecodeError::Truncated)
    }
}

/// What reading a number of four bytes in two's complement at `pos` gives.
pub open spec fn spec_read_i32(bytes: Seq<u8>, pos: nat) -> Parsed<i32> {
    if available(bytes, pos, 4) {
        Ok((le_i32(bytes, pos), 4))
    } else {
        Err(DecodeError::Truncated)
    }
}

/// What reading a number of eight bytes at `pos` gives.
pub open spec fn spec_read_u64(bytes: Seq<u8>, pos: nat) -> Parsed<u64> {
    if available(bytes, pos, 8) {
        Ok((le_u64(bytes, pos), 8))
    } else {
        Err(DecodeError::Truncated)
    }
}

/// What reading a number of sixteen bytes at `pos` gives.
pub open spec fn spec_read_u128(bytes: Seq<u8>, pos: nat) -> Parsed<u128> {
    if available(bytes, pos, 16) {
        Ok((le_u128(bytes, pos), 16))
    } else {
        Err(DecodeError::Truncated)
    }
}

/// Whether an executable reader has read what `parsed` says: the same value
/// up to the position behind it, or the same failure.
pub open spec fn read_as<T>(
    result: Result<(T, usize), DecodeError>,
    parsed: Parsed<T>,
    bytes: Seq<u8>,
    pos: usize,
) -> bool {
    match parsed {
        Ok((value, used)) => result == Ok::<(T, usize), DecodeError>(
            (value, (pos + used) as usize),
        ) && pos + used <= bytes.len(),
        Err(e) => result == Err::<(T, usize), DecodeError>(e),
    }
}

/// Reads the byte at `pos`.
pub fn read_u8(bytes: &[u8], pos: usize) -> (result: Result<(u8, usize), DecodeError>)
    ensures
        read_as(result, spec_read_u8(bytes@, pos as nat), bytes@, pos),
{
    if pos >= bytes.len() {
        Err(DecodeError::Truncated)
    } else {
        Ok((bytes[pos], pos + 1))
    }
}

/// Reads the truth value at `pos`.
pub fn read_bool(bytes: &[u8], pos: usize) -> (result: Result<(bool, usize), DecodeError>)
    ensures
        read_as(result, spec_read_bool(bytes@, pos as nat), bytes@, pos),
{
    if pos >= bytes.len() {
        Err(DecodeError::Truncated)
    } else if bytes[pos] == 0 {
        Ok((false, pos + 1))
    } else if bytes[pos] == 1 {
        Ok((true, pos + 1))
    } else {
        Err(DecodeError::InvalidBool)
    }
}

/// Reads the number of four bytes at `pos`.
pub fn read_u32(bytes: &[u8], pos: usize) -> (result: Result<(u32, usize), DecodeError>)
    ensures
        read_as(result, spec_read_u32(bytes@, pos as nat), bytes@, pos),
{
    if pos > bytes.len() || bytes.len() - pos < 4 {
        Err(DecodeError::Truncated)
    } else {
        let value: u32 = bytes[pos] as u32 + bytes[pos + 1] as u32 * 0x100 + bytes[pos + 2] as u32
            * 0x1_0000 + bytes[pos + 3] as u32 * 0x100_0000;
        Ok((value, pos + 4))
    }
}

/// Reads the number of four bytes in two's complement at `pos`.
pub fn read_i32(bytes: &[u8], pos: usize) -> (result: Result<(i32, usize), DecodeError>)
    ensures
        read_as(result, spec_read_i32(bytes@, pos as nat), bytes@, pos),
{
    match read_u32(bytes, pos) {
        Err(e) => Err(e),
        Ok((raw, next)) => {
            let value: i32 = if raw >= 0x8000_0000 {
                (raw - 0x8000_0000) as i32 + i32::MIN
            } else {
                raw as i32
            };
            Ok((value, next))
        },
    }
}

/// Reads the number of eight bytes at `pos`.
pub fn read_u64(bytes: &[u8], pos: usize) -> (result: Result<(u64, usize), DecodeError>)
    ensures
        read_as(result, spec_read_u64(bytes@, pos as nat), bytes@, pos),
{
    if pos > bytes.len() || bytes.len() - pos < 8 {
        return Err(DecodeError::Truncated);
    }
    let (low, middle) = read_u32(bytes, pos)?;
    let (high, next) = read_u32(bytes, middle)?;
    Ok((low as u64 + high as u64 * 0x1_0000_0000, next))
}

/// Reads the number of sixteen bytes at `pos`.
pub fn read_u128(bytes: &[u8], pos: usize) -> (result: Result<(u128, usize), DecodeError>)
    ensures
        read_as(result, spec_read_u128(bytes@, pos as nat), bytes@, pos),
{
    if pos > bytes.len() || bytes.len() - pos < 16 {
        return Err(DecodeError::Truncated);
    }
    let (low, middle) = read_u64(bytes, pos)?;
    let (high, next) = read_u64(bytes, middle)?;
    Ok((low as u128 + high as u128 * 0x1_0000_0000_0000_0000, next))
}

} // verus!

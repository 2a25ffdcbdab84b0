//! The decode layer: one conversion per sound (logical type, host type)
//! pair, consuming a [`SqliteValue`]. A pair with no function here (text as
//! an integer, say) is not expressible at all.
//!
//! Every function states exactly what it returns for every stored cell, the
//! error cases included; no failure is ever replaced by a default value.

use crate::error::DecodeError;
use crate::value::{
    spec_read_blob, spec_read_double_bits, spec_read_integer, spec_read_long, spec_read_text,
    SqliteValue, StoredValue,
};
use vstd::prelude::*;

verus! {

/// What decoding through `SmallInt` yields: the stored integer truncated to
/// 16 bits by two's complement. The truncation is deliberate policy, never
/// range-checked, and callers may rely on the wraparound.
pub open spec fn spec_decode_small_int(s: StoredValue) -> Result<i16, DecodeError> {
    match spec_read_integer(s) {
        Ok(v) => Ok(v as i16),
        Err(e) => Err(e),
    }
}

/// Decode an integer cell as a 16-bit integer through the `SmallInt` logical
/// type, truncating by two's complement.
pub fn decode_small_int(value: &SqliteValue) -> (r: Result<i16, DecodeError>)
    ensures
        r == spec_decode_small_int(value.stored()),
{
    match value.read_integer() {
        Ok(v) => Ok(#[verifier::truncate] (v as i16)),
        Err(e) => Err(e),
    }
}

/// What decoding through `Integer` yields: the stored integer as 32 bits.
pub open spec fn spec_decode_integer(s: StoredValue) -> Result<i32, DecodeError> {
    spec_read_integer(s)
}

/// Decode an integer cell as a 32-bit integer through the `Integer` logical
/// type.
pub fn decode_integer(value: &SqliteValue) -> (r: Result<i32, DecodeError>)
    ensures
        r == spec_decode_integer(value.stored()),
{
    value.read_integer()
}

/// What decoding through `Bool` yields: true for every nonzero stored
/// integer, false for zero.
pub open spec fn spec_decode_bool(s: StoredValue) -> Result<bool, DecodeError> {
    match spec_read_integer(s) {
        Ok(v) => Ok(v != 0),
        Err(e) => Err(e),
    }
}

/// Decode an integer cell as a boolean through the `Bool` logical type:
/// nonzero is true, zero is false.
pub fn decode_bool(value: &SqliteValue) -> (r: Result<bool, DecodeError>)
    ensures
        r == spec_decode_bool(value.stored()),
{
    match value.read_integer() {
        Ok(v) => Ok(v != 0),
        Err(e) => Err(e),
    }
}

/// What decoding through `BigInt` yields: the stored integer, whole.
pub open spec fn spec_decode_big_int(s: StoredValue) -> Result<i64, DecodeError> {
    spec_read_long(s)
}

/// Decode an integer cell as a 64-bit integer through the `BigInt` logical
/// type.
pub fn decode_big_int(value: &SqliteValue) -> (r: Result<i64, DecodeError>)
    ensures
        r == spec_decode_big_int(value.stored()),
{
    value.read_long()
}

/// What decoding through `Double` yields: the stored 64-bit float, handed
/// over as its IEEE-754 bit pattern. The `Float` decode narrows these bits
/// to a 32-bit float, a float operation that belongs to the caller along
/// with the bit reinterpretation.
pub open spec fn spec_decode_double_bits(s: StoredValue) -> Result<u64, DecodeError> {
    spec_read_double_bits(s)
}

/// Decode a real cell through the `Double` logical type, as the bit pattern
/// of the stored 64-bit float.
pub fn decode_double_bits(value: &SqliteValue) -> (r: Result<u64, DecodeError>)
    ensures
        r == spec_decode_double_bits(value.stored()),
{
    value.read_double_bits()
}

/// What decoding through `VarChar` yields: the stored text's characters when
/// its bytes are valid UTF-8, the invalid-text error otherwise.
pub open spec fn spec_decode_varchar(s: StoredValue) -> Result<Seq<char>, DecodeError> {
    spec_read_text(s)
}

/// Decode a text cell as a borrowed string view through the `VarChar`
/// logical type, without copying.
///
/// The view borrows the backend's own storage: it is valid only for the
/// extent of the decode call that produced it, and the next fetch on the
/// same row invalidates it. The borrow on the reader enforces that here.
pub fn decode_varchar<'a>(value: &'a SqliteValue) -> (r: Result<&'a str, DecodeError>)
    ensures
        match r {
            Ok(t) => spec_decode_varchar(value.stored()) == Ok::<Seq<char>, DecodeError>(t@),
            Err(e) => spec_decode_varchar(value.stored()) == Err::<Seq<char>, DecodeError>(e),
        },
{
    value.read_text()
}

/// What decoding through `Binary` yields: the stored bytes, whole.
pub open spec fn spec_decode_binary(s: StoredValue) -> Result<Seq<u8>, DecodeError> {
    spec_read_blob(s)
}

/// Decode a blob cell as a borrowed byte view through the `Binary` logical
/// type, without copying.
///
/// The view borrows the backend's own storage: it is valid only for the
/// extent of the decode call that produced it, and the next fetch on the
/// same row invalidates it. The borrow on the reader enforces that here.
pub fn decode_binary<'a>(value: &'a SqliteValue) -> (r: Result<&'a [u8], DecodeError>)
    ensures
        match r {
            Ok(b) => spec_decode_binary(value.stored()) == Ok::<Seq<u8>, DecodeError>(b@),
            Err(e) => spec_decode_binary(value.stored()) == Err::<Seq<u8>, DecodeError>(e),
        },
{
    value.read_blob()
}

} // verus!

//! The encode layer: one conversion per sound (host type, logical type)
//! pair, producing into an [`Output`].
//!
//! Every function reports whether the written value denotes SQL NULL; the
//! conversions here always report "not null", since optional wrapping is a
//! separate layer. Each states exactly which bound value the sink holds
//! afterwards.

use crate::error::EncodeError;
use crate::flags::JsonValidFlag;
use crate::value::{BoundValue, Output};
use vstd::prelude::*;
use vstd::utf8::encode_utf8;

verus! {

/// Whether an encoded value denotes SQL NULL.
#[derive(Clone, Copy, Debug, PartialEq, Eq, Structural)]
pub enum IsNull {
    /// The value denotes SQL NULL.
    Yes,
    /// The value is not NULL.
    No,
}

/// The bound value encoding a boolean through `Bool`: the integer 1 for
/// true, 0 for false.
pub open spec fn spec_encode_bool(v: bool) -> BoundValue {
    BoundValue::Integer(if v { 1 } else { 0 })
}

/// Encode a boolean through the `Bool` logical type, as the integer 1 or 0.
pub fn encode_bool(v: bool, out: &mut Output) -> (r: Result<IsNull, EncodeError>)
    ensures
        final(out).value() == Some(spec_encode_bool(v)),
        r == Ok::<IsNull, EncodeError>(IsNull::No),
{
    let int_value: i32 = if v { 1 } else { 0 };
    encode_integer(int_value, out)
}

/// The bound value encoding a 16-bit integer through `SmallInt`: the value
/// widened to the sink's 32-bit integer slot.
pub open spec fn spec_encode_small_int(v: i16) -> BoundValue {
    BoundValue::Integer(v as i32)
}

/// Encode a 16-bit integer through the `SmallInt` logical type, widened to
/// the sink's 32-bit integer slot.
pub fn encode_small_int(v: i16, out: &mut Output) -> (r: Result<IsNull, EncodeError>)
    ensures
        final(out).value() == Some(spec_encode_small_int(v)),
        r == Ok::<IsNull, EncodeError>(IsNull::No),
{
    out.set_integer(v as i32);
    Ok(IsNull::No)
}

/// The bound value encoding a 32-bit integer through `Integer`: the value,
/// direct.
pub open spec fn spec_encode_integer(v: i32) -> BoundValue {
    BoundValue::Integer(v)
}

/// Encode a 32-bit integer through the `Integer` logical type.
pub fn encode_integer(v: i32, out: &mut Output) -> (r: Result<IsNull, EncodeError>)
    ensures
        final(out).value() == Some(spec_encode_integer(v)),
        r == Ok::<IsNull, EncodeError>(IsNull::No),
{
    out.set_integer(v);
    Ok(IsNull::No)
}

/// The bound value encoding a 64-bit integer through `BigInt`: the value,
/// direct.
pub open spec fn spec_encode_big_int(v: i64) -> BoundValue {
    BoundValue::Long(v)
}

/// Encode a 64-bit integer through the `BigInt` logical type.
pub fn encode_big_int(v: i64, out: &mut Output) -> (r: Result<IsNull, EncodeError>)
    ensures
        final(out).value() == Some(spec_encode_big_int(v)),
        r == Ok::<IsNull, EncodeError>(IsNull::No),
{
    out.set_long(v);
    Ok(IsNull::No)
}

/// The bound value encoding a 64-bit float through `Double`: its IEEE-754
/// bit pattern in the sink's float slot. A 32-bit float is encoded through
/// `Float` by first widening it to 64 bits, a float operation that belongs
/// to the caller along with the bit reinterpretation.
pub open spec fn spec_encode_double_bits(bits: u64) -> BoundValue {
    BoundValue::Real(bits)
}

/// Encode a 64-bit float, handed over as its IEEE-754 bit pattern, through
/// the `Double` logical type.
pub fn encode_double_bits(bits: u64, out: &mut Output) -> (r: Result<IsNull, EncodeError>)
    ensures
        final(out).value() == Some(spec_encode_double_bits(bits)),
        r == Ok::<IsNull, EncodeError>(IsNull::No),
{
    out.set_real_bits(bits);
    Ok(IsNull::No)
}

/// Encode a string view through the `Text` logical type. The sink takes a
/// copy of the bytes, so the view only has to outlive this call.
pub fn encode_text(v: &str, out: &mut Output) -> (r: Result<IsNull, EncodeError>)
    ensures
        final(out).value() matches Some(BoundValue::Text(b)) && b@ == encode_utf8(v@),
        r == Ok::<IsNull, EncodeError>(IsNull::No),
{
    out.set_text(v);
    Ok(IsNull::No)
}

/// Encode a byte view through the `Binary` logical type. The sink takes a
/// copy of the bytes, so the view only has to outlive this call.
pub fn encode_binary(v: &[u8], out: &mut Output) -> (r: Result<IsNull, EncodeError>)
    ensures
        final(out).value() matches Some(BoundValue::Blob(b)) && b@ == v@,
        r == Ok::<IsNull, EncodeError>(IsNull::No),
{
    out.set_blob(v);
    Ok(IsNull::No)
}

/// The bound value encoding a named flag through `JsonValidFlags`: the
/// integer the discriminant stands for.
pub open spec fn spec_encode_json_valid_flag(f: JsonValidFlag) -> BoundValue {
    BoundValue::Integer(f.spec_raw_value())
}

/// Encode a named JSON validation flag through the `JsonValidFlags` logical
/// type, as its underlying integer.
pub fn encode_json_valid_flag(f: JsonValidFlag, out: &mut Output) -> (r: Result<
    IsNull,
    EncodeError,
>)
    ensures
        final(out).value() == Some(spec_encode_json_valid_flag(f)),
        r == Ok::<IsNull, EncodeError>(IsNull::No),
{
    out.set_integer(f.raw_value());
    Ok(IsNull::No)
}

/// Encode a bare integer through the `JsonValidFlags` logical type: the
/// backward-compatible escape hatch for call sites that predate the named
/// discriminants. It is a second encode path over the same logical type,
/// kept separate from [`encode_json_valid_flag`] on purpose, and it writes
/// exactly what the `Integer` encode writes.
pub fn encode_json_valid_flags_raw(v: i32, out: &mut Output) -> (r: Result<IsNull, EncodeError>)
    ensures
        final(out).value() == Some(spec_encode_integer(v)),
        r == Ok::<IsNull, EncodeError>(IsNull::No),
{
    encode_integer(v, out)
}

} // verus!

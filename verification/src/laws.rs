//! The guarantees that relate the two directions of the layer: what a fetch
//! reads back from a cell the backend stored for an encoded parameter.

use crate::decode::{
    spec_decode_big_int, spec_decode_binary, spec_decode_bool, spec_decode_double_bits,
    spec_decode_integer, spec_decode_small_int, spec_decode_varchar,
};
use crate::encode::{
    spec_encode_bool, spec_encode_integer, spec_encode_json_valid_flag, spec_encode_small_int,
};
use crate::error::DecodeError;
use crate::flags::JsonValidFlag;
use crate::sql_types::{BigInt, Binary, Bool, Double, Integer, SmallInt, SqliteType, VarChar};
use crate::value::{spec_decode_text_bytes, stored_of_bound, StoredValue};
use vstd::prelude::*;
use vstd::utf8::{encode_utf8, encode_utf8_decode_utf8, encode_utf8_valid_utf8};

verus! {

/// Encoding any 16-bit integer through `SmallInt` and decoding the cell the
/// backend stores for it through `SmallInt` gives the integer back exactly:
/// the deliberate 32-to-16-bit truncation loses nothing on values that were
/// 16-bit to begin with.
pub proof fn lemma_small_int_round_trip(v: i16)
    ensures
        spec_decode_small_int(stored_of_bound(spec_encode_small_int(v))) == Ok::<
            i16,
            DecodeError,
        >(v),
{
}

/// Encoding any boolean through `Bool` and decoding the cell the backend
/// stores for it through `Bool` gives the boolean back: true is stored as
/// the nonzero integer 1 and false as 0.
pub proof fn lemma_bool_round_trip(v: bool)
    ensures
        spec_decode_bool(stored_of_bound(spec_encode_bool(v))) == Ok::<bool, DecodeError>(v),
{
}

/// Reading a text cell that holds the UTF-8 encoding of any character
/// sequence succeeds, without an invalid-text error, and gives the sequence
/// back exactly: what the `Text` encode writes, the `VarChar` decode reads.
pub proof fn lemma_text_round_trip(s: Seq<char>)
    ensures
        spec_decode_text_bytes(encode_utf8(s)) == Ok::<Seq<char>, DecodeError>(s),
{
    encode_utf8_valid_utf8(s);
    encode_utf8_decode_utf8(s);
}

/// A decode through a logical type succeeds only on a cell of the storage
/// class that type is declared to be backed by: no conversion across storage
/// classes — text read as an integer, say — ever happens implicitly. A
/// mismatched cell is the one input on which the integer decodes fail, and
/// for text the only further failure is invalid UTF-8.
pub proof fn lemma_decode_respects_storage_class(s: StoredValue)
    ensures
        spec_decode_small_int(s) is Ok ==> s.class() == <SmallInt as SqliteType>::storage_class(),
        spec_decode_integer(s) is Ok ==> s.class() == <Integer as SqliteType>::storage_class(),
        spec_decode_bool(s) is Ok ==> s.class() == <Bool as SqliteType>::storage_class(),
        spec_decode_big_int(s) is Ok ==> s.class() == <BigInt as SqliteType>::storage_class(),
        spec_decode_double_bits(s) is Ok ==> s.class() == <Double as SqliteType>::storage_class(),
        spec_decode_varchar(s) is Ok ==> s.class() == <VarChar as SqliteType>::storage_class(),
        spec_decode_binary(s) is Ok ==> s.class() == <Binary as SqliteType>::storage_class(),
{
}

/// Encoding a named JSON validation flag and encoding its raw integer value
/// through the backward-compatible path hand the backend the same bound
/// value: the two call-site shapes are indistinguishable on read.
pub proof fn lemma_flag_and_raw_encodings_agree(f: JsonValidFlag)
    ensures
        spec_encode_json_valid_flag(f) == spec_encode_integer(f.spec_raw_value()),
{
}

} // verus!

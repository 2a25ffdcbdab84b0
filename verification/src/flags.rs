//! The JSON validation flags: a closed set of named bit-flag discriminants
//! riding on integer storage through the
//! [`JsonValidFlags`](crate::sql_types::JsonValidFlags) logical type.

use vstd::prelude::*;

verus! {

/// Flags for the `json_valid` function.
///
/// These flags define what is meant by "well-formed" JSON when validating.
///
/// The following bits are currently defined:
/// - `0x01`: the input is text that strictly complies with canonical
///   RFC-8259 JSON, without any extensions.
/// - `0x02`: the input is text that is JSON with JSON5 extensions.
/// - `0x04`: the input is a BLOB that superficially appears to be JSONB.
/// - `0x08`: the input is a BLOB that strictly conforms to the internal
///   JSONB format.
///
/// Each named discriminant is one of these bits or an OR-combination of
/// them; [`Self::raw_value`] gives the integer a discriminant stands for.
/// A bare integer is accepted on the same logical type as well, through
/// [`crate::encode::encode_json_valid_flags_raw`], so call sites from the
/// days when only raw integers were exposed keep working unmodified.
#[derive(Clone, Copy, Debug)]
#[non_exhaustive]
pub enum JsonValidFlag {
    /// X is RFC-8259 JSON text (flag = 1).
    Rfc8259Json,
    /// X is JSON5 text (flag = 2).
    Json5,
    /// X is probably JSONB (flag = 4).
    JsonbLike,
    /// X is RFC-8259 JSON text or JSONB (flag = 5).
    Rfc8259JsonOrJsonb,
    /// X is JSON5 text or JSONB (flag = 6, recommended for most use cases).
    Json5OrJsonb,
    /// X is strictly conforming JSONB (flag = 8).
    JsonbStrict,
    /// X is RFC-8259 JSON text or strictly conforming JSONB (flag = 9).
    Rfc8259JsonOrJsonbStrict,
    /// X is JSON5 text or strictly conforming JSONB (flag = 10).
    Json5OrJsonbStrict,
}

impl JsonValidFlag {
    /// The integer each named discriminant stands for.
    pub open spec fn spec_raw_value(self) -> i32 {
        match self {
            JsonValidFlag::Rfc8259Json => 1,
            JsonValidFlag::Json5 => 2,
            JsonValidFlag::JsonbLike => 4,
            JsonValidFlag::Rfc8259JsonOrJsonb => 5,
            JsonValidFlag::Json5OrJsonb => 6,
            JsonValidFlag::JsonbStrict => 8,
            JsonValidFlag::Rfc8259JsonOrJsonbStrict => 9,
            JsonValidFlag::Json5OrJsonbStrict => 10,
        }
    }

    /// The underlying integer value of this flag.
    #[verifier::when_used_as_spec(spec_raw_value)]
    pub fn raw_value(self) -> (r: i32)
        ensures
            r == self.spec_raw_value(),
    {
        match self {
            JsonValidFlag::Rfc8259Json => 1,
            JsonValidFlag::Json5 => 2,
            JsonValidFlag::JsonbLike => 4,
            JsonValidFlag::Rfc8259JsonOrJsonb => 5,
            JsonValidFlag::Json5OrJsonb => 6,
            JsonValidFlag::JsonbStrict => 8,
            JsonValidFlag::Rfc8259JsonOrJsonbStrict => 9,
            JsonValidFlag::Json5OrJsonbStrict => 10,
        }
    }
}

} // verus!

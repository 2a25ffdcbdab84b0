//! The logical column types, and the SQLite storage class each is backed by.

use vstd::prelude::*;

verus! {

/// The storage classes SQLite keeps column values in.
#[derive(Clone, Copy, Debug, PartialEq, Eq, Structural)]
pub enum StorageClass {
    /// A 64-bit signed integer cell.
    Integer,
    /// A 64-bit IEEE-754 float cell.
    Real,
    /// A byte string holding encoded text.
    Text,
    /// An uninterpreted byte string.
    Blob,
}

/// A logical column type: a zero-instance marker that exists only at the type
/// level, naming the storage class its values are kept in. The decode and
/// encode functions of this crate are selected per (logical type, host type)
/// pair; a pair with no function is not expressible.
pub trait SqliteType {
    /// The storage class a column of this logical type is backed by.
    spec fn storage_class() -> StorageClass;
}

/// 16-bit integers, stored widened in an integer cell.
pub struct SmallInt {}

impl SqliteType for SmallInt {
    open spec fn storage_class() -> StorageClass {
        StorageClass::Integer
    }
}

/// 32-bit integers.
pub struct Integer {}

impl SqliteType for Integer {
    open spec fn storage_class() -> StorageClass {
        StorageClass::Integer
    }
}

/// 64-bit integers.
pub struct BigInt {}

impl SqliteType for BigInt {
    open spec fn storage_class() -> StorageClass {
        StorageClass::Integer
    }
}

/// Booleans, stored as an integer cell holding 0 or 1.
pub struct Bool {}

impl SqliteType for Bool {
    open spec fn storage_class() -> StorageClass {
        StorageClass::Integer
    }
}

/// 32-bit floats, stored widened in a real cell.
pub struct Float {}

impl SqliteType for Float {
    open spec fn storage_class() -> StorageClass {
        StorageClass::Real
    }
}

/// 64-bit floats.
pub struct Double {}

impl SqliteType for Double {
    open spec fn storage_class() -> StorageClass {
        StorageClass::Real
    }
}

/// UTF-8 text.
pub struct Text {}

impl SqliteType for Text {
    open spec fn storage_class() -> StorageClass {
        StorageClass::Text
    }
}

/// `VarChar` is the same logical type as [`Text`].
pub type VarChar = Text;

/// Byte strings.
pub struct Binary {}

impl SqliteType for Binary {
    open spec fn storage_class() -> StorageClass {
        StorageClass::Blob
    }
}

/// The SQLite timestamp with time zone type, backed by text storage. Its
/// date-time codecs are richer than the primitive ones here and are left to
/// the date-time layer; the logical type itself belongs to this catalogue.
pub struct Timestamptz {}

impl SqliteType for Timestamptz {
    open spec fn storage_class() -> StorageClass {
        StorageClass::Text
    }
}

/// The logical type of JSON validation flags, backed by integer storage.
///
/// Values of [`crate::flags::JsonValidFlag`] are encoded through this type;
/// a bare `i32` is accepted on the same type as a backward-compatible escape
/// hatch, see [`crate::encode::encode_json_valid_flags_raw`].
pub struct JsonValidFlags {}

impl SqliteType for JsonValidFlags {
    open spec fn storage_class() -> StorageClass {
        StorageClass::Integer
    }
}

} // verus!

//! The two endpoints of the marshalling layer: a borrowed reader over one
//! column of the row currently being fetched, and a sink accumulating one
//! bind parameter for one statement execution.

use crate::error::DecodeError;
use vstd::prelude::*;
use vstd::string::StringSliceAdditionalSpecFns;
use vstd::utf8::{decode_utf8, encode_utf8, valid_utf8};

verus! {

/// One SQLite storage cell, in the storage class the backend keeps it in.
#[derive(Clone, Debug, PartialEq, Eq)]
pub enum StoredValue {
    /// An integer cell: SQLite keeps every integer as 64 signed bits.
    Integer(i64),
    /// A real cell, carried as the IEEE-754 bit pattern of a 64-bit float.
    /// The layer hands the bits through unchanged and never does float
    /// arithmetic on them.
    Real(u64),
    /// A text cell: the raw bytes as stored, not necessarily valid UTF-8.
    Text(Vec<u8>),
    /// A blob cell.
    Blob(Vec<u8>),
}

impl StoredValue {
    /// The storage class this cell belongs to.
    pub open spec fn class(&self) -> crate::sql_types::StorageClass {
        match self {
            StoredValue::Integer(_) => crate::sql_types::StorageClass::Integer,
            StoredValue::Real(_) => crate::sql_types::StorageClass::Real,
            StoredValue::Text(_) => crate::sql_types::StorageClass::Text,
            StoredValue::Blob(_) => crate::sql_types::StorageClass::Blob,
        }
    }
}

/// What reading a text cell yields: its characters when the stored bytes are
/// valid UTF-8, and the invalid-text error otherwise.
pub open spec fn spec_decode_text_bytes(bytes: Seq<u8>) -> Result<Seq<char>, DecodeError> {
    if valid_utf8(bytes) {
        Ok(decode_utf8(bytes))
    } else {
        Err(DecodeError::InvalidText)
    }
}

/// What [`SqliteValue::read_integer`] returns for each stored cell.
pub open spec fn spec_read_integer(s: StoredValue) -> Result<i32, DecodeError> {
    match s {
        StoredValue::Integer(v) => Ok(v as i32),
        _ => Err(DecodeError::StorageClassMismatch),
    }
}

/// What [`SqliteValue::read_long`] returns for each stored cell.
pub open spec fn spec_read_long(s: StoredValue) -> Result<i64, DecodeError> {
    match s {
        StoredValue::Integer(v) => Ok(v),
        _ => Err(DecodeError::StorageClassMismatch),
    }
}

/// What [`SqliteValue::read_double_bits`] returns for each stored cell.
pub open spec fn spec_read_double_bits(s: StoredValue) -> Result<u64, DecodeError> {
    match s {
        StoredValue::Real(bits) => Ok(bits),
        _ => Err(DecodeError::StorageClassMismatch),
    }
}

/// What [`SqliteValue::read_text`] returns for each stored cell, as the
/// character sequence of the borrowed view.
pub open spec fn spec_read_text(s: StoredValue) -> Result<Seq<char>, DecodeError> {
    match s {
        StoredValue::Text(b) => spec_decode_text_bytes(b@),
        _ => Err(DecodeError::StorageClassMismatch),
    }
}

/// What [`SqliteValue::read_blob`] returns for each stored cell, as the byte
/// sequence of the borrowed view.
pub open spec fn spec_read_blob(s: StoredValue) -> Result<Seq<u8>, DecodeError> {
    match s {
        StoredValue::Blob(b) => Ok(b@),
        _ => Err(DecodeError::StorageClassMismatch),
    }
}

/// Relies on `core::str::from_utf8`: it returns a view of the given bytes
/// exactly when they are a valid UTF-8 encoding, and the view's bytes are the
/// input bytes.
#[verifier::external_body]
fn try_utf8(bytes: &[u8]) -> (r: Option<&str>)
    ensures
        r is Some <==> valid_utf8(bytes@),
        r matches Some(t) ==> t.spec_bytes() == bytes@,
{
    core::str::from_utf8(bytes).ok()
}

/// A borrowed accessor over one column's current-row value.
///
/// Every borrowed view a read operation returns lives no longer than the
/// reader itself, and the reader no longer than the fetch that positioned
/// it: the next fetch invalidates the backing storage, so a view must not
/// outlive the decode call that obtained it.
pub struct SqliteValue {
    stored: StoredValue,
}

impl SqliteValue {
    /// The cell this reader is positioned at.
    pub closed spec fn stored(&self) -> StoredValue {
        self.stored
    }

    /// Position a reader at one stored cell.
    pub fn new(stored: StoredValue) -> (r: SqliteValue)
        ensures
            r.stored() == stored,
    {
        SqliteValue { stored }
    }

    /// Position a reader at the cell the backend keeps for a bound value:
    /// what a fetch sees after a statement bound that value and executed.
    pub fn from_bound(b: BoundValue) -> (r: SqliteValue)
        ensures
            r.stored() == stored_of_bound(b),
    {
        let stored = match b {
            BoundValue::Integer(v) => StoredValue::Integer(v as i64),
            BoundValue::Long(v) => StoredValue::Integer(v),
            BoundValue::Real(bits) => StoredValue::Real(bits),
            BoundValue::Text(bytes) => StoredValue::Text(bytes),
            BoundValue::Blob(bytes) => StoredValue::Blob(bytes),
        };
        SqliteValue { stored }
    }

    /// The cell as a 32-bit integer, truncating the stored 64 bits by two's
    /// complement as SQLite's own integer accessor does.
    pub fn read_integer(&self) -> (r: Result<i32, DecodeError>)
        ensures
            r == spec_read_integer(self.stored()),
    {
        match &self.stored {
            StoredValue::Integer(v) => Ok(#[verifier::truncate] (*v as i32)),
            _ => Err(DecodeError::StorageClassMismatch),
        }
    }

    /// The cell as a 64-bit integer.
    pub fn read_long(&self) -> (r: Result<i64, DecodeError>)
        ensures
            r == spec_read_long(self.stored()),
    {
        match &self.stored {
            StoredValue::Integer(v) => Ok(*v),
            _ => Err(DecodeError::StorageClassMismatch),
        }
    }

    /// The cell as the bit pattern of a 64-bit float. The caller owns the
    /// float interpretation of the bits.
    pub fn read_double_bits(&self) -> (r: Result<u64, DecodeError>)
        ensures
            r == spec_read_double_bits(self.stored()),
    {
        match &self.stored {
            StoredValue::Real(bits) => Ok(*bits),
            _ => Err(DecodeError::StorageClassMismatch),
        }
    }

    /// The cell as a borrowed string view, without copying. The view is valid
    /// only while this reader is: the next fetch invalidates it.
    pub fn read_text<'a>(&'a self) -> (r: Result<&'a str, DecodeError>)
        ensures
            match r {
                Ok(t) => spec_read_text(self.stored()) == Ok::<Seq<char>, DecodeError>(t@),
                Err(e) => spec_read_text(self.stored()) == Err::<Seq<char>, DecodeError>(e),
            },
    {
        match &self.stored {
            StoredValue::Text(b) => match try_utf8(b.as_slice()) {
                Some(t) => {
                    proof {
                        vstd::utf8::encode_utf8_decode_utf8(t@);
                    }
                    Ok(t)
                },
                None => Err(DecodeError::InvalidText),
            },
            _ => Err(DecodeError::StorageClassMismatch),
        }
    }

    /// The cell as a borrowed byte view, without copying. The view is valid
    /// only while this reader is: the next fetch invalidates it.
    pub fn read_blob<'a>(&'a self) -> (r: Result<&'a [u8], DecodeError>)
        ensures
            match r {
                Ok(b) => spec_read_blob(self.stored()) == Ok::<Seq<u8>, DecodeError>(b@),
                Err(e) => spec_read_blob(self.stored()) == Err::<Seq<u8>, DecodeError>(e),
            },
    {
        match &self.stored {
            StoredValue::Blob(b) => Ok(b.as_slice()),
            _ => Err(DecodeError::StorageClassMismatch),
        }
    }
}

/// One bind parameter's encoded value, in the slot shape the backend's bind
/// interface takes it.
#[derive(Clone, Debug, PartialEq, Eq)]
pub enum BoundValue {
    /// A 32-bit integer bind slot.
    Integer(i32),
    /// A 64-bit integer bind slot.
    Long(i64),
    /// A 64-bit float bind slot, carried as its IEEE-754 bit pattern.
    Real(u64),
    /// A text bind slot; the bytes are always a valid UTF-8 encoding because
    /// only string views are accepted into it.
    Text(Vec<u8>),
    /// A blob bind slot.
    Blob(Vec<u8>),
}

/// The cell the backend keeps once a bound value is written: integers of
/// either width land in the one 64-bit integer storage class, everything
/// else is stored as handed over.
pub open spec fn stored_of_bound(b: BoundValue) -> StoredValue {
    match b {
        BoundValue::Integer(v) => StoredValue::Integer(v as i64),
        BoundValue::Long(v) => StoredValue::Integer(v),
        BoundValue::Real(bits) => StoredValue::Real(bits),
        BoundValue::Text(bytes) => StoredValue::Text(bytes),
        BoundValue::Blob(bytes) => StoredValue::Blob(bytes),
    }
}

/// A buffer accumulating the encoded representation of one bind parameter,
/// alive for one statement execution.
///
/// The sink keeps its own copy of borrowed text and byte values, so nothing
/// written into it outlives the caller's data.
pub struct Output {
    value: Option<BoundValue>,
}

impl Output {
    /// The value written so far, if any.
    pub closed spec fn value(&self) -> Option<BoundValue> {
        self.value
    }

    /// An empty sink, positioned at one bind slot.
    pub fn new() -> (r: Output)
        ensures
            r.value() == None::<BoundValue>,
    {
        Output { value: None }
    }

    /// Hand the sink's accumulated value over to the bind interface.
    pub fn into_inner(self) -> (r: Option<BoundValue>)
        ensures
            r == self.value(),
    {
        self.value
    }

    /// Write a 32-bit integer into the slot.
    pub fn set_integer(&mut self, v: i32)
        ensures
            final(self).value() == Some(BoundValue::Integer(v)),
    {
        self.value = Some(BoundValue::Integer(v));
    }

    /// Write a 64-bit integer into the slot.
    pub fn set_long(&mut self, v: i64)
        ensures
            final(self).value() == Some(BoundValue::Long(v)),
    {
        self.value = Some(BoundValue::Long(v));
    }

    /// Write a 64-bit float, handed over as its IEEE-754 bit pattern, into
    /// the slot.
    pub fn set_real_bits(&mut self, bits: u64)
        ensures
            final(self).value() == Some(BoundValue::Real(bits)),
    {
        self.value = Some(BoundValue::Real(bits));
    }

    /// Write a string view into the slot. The sink copies the bytes, so the
    /// view only has to outlive this call.
    pub fn set_text(&mut self, v: &str)
        ensures
            final(self).value() matches Some(BoundValue::Text(b)) && b@ == encode_utf8(v@),
    {
        let bytes = vstd::slice::slice_to_vec(v.as_bytes());
        self.value = Some(BoundValue::Text(bytes));
    }

    /// Write a byte view into the slot. The sink copies the bytes, so the
    /// view only has to outlive this call.
    pub fn set_blob(&mut self, v: &[u8])
        ensures
            final(self).value() matches Some(BoundValue::Blob(b)) && b@ == v@,
    {
        let bytes = vstd::slice::slice_to_vec(v);
        self.value = Some(BoundValue::Blob(bytes));
    }
}

} // verus!

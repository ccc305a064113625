//! Typed scalar values and their type tags.
//!
//! A [`Value`] is the decoded form of one datum: it is used both as the
//! payload of a write and as the result of reading one column of a query
//! response. Its variant is fixed at construction and is reported by
//! [`Value::data_type`] without consuming the value.
//!
//! Floating-point payloads are carried as their IEEE-754 bit patterns
//! (`u64` for the 64-bit kind, `u32` for the 32-bit kind); the embedding
//! boundary converts them to and from native floats.

use vstd::prelude::*;

verus! {

/// The closed set of column type tags used by the read/write protocol.
#[derive(Clone, Copy, Debug, PartialEq, Eq, Structural)]
pub enum DataType {
    Null,
    Timestamp,
    Double,
    Float,
    Varbinary,
    String,
    UInt64,
    UInt32,
    UInt16,
    UInt8,
    Int64,
    Int32,
    Int16,
    Int8,
    Boolean,
}

/// One typed scalar datum.
///
/// `Timestamp` carries milliseconds since the epoch. `Double` and `Float`
/// carry IEEE-754 bit patterns. `Varbinary` carries an arbitrary byte
/// sequence and `String` carries UTF-8 text.
#[derive(Clone, Debug, PartialEq)]
pub enum Value {
    Null,
    Timestamp(i64),
    Double(u64),
    Float(u32),
    Varbinary(Vec<u8>),
    String(String),
    UInt64(u64),
    UInt32(u32),
    UInt16(u16),
    UInt8(u8),
    Int64(i64),
    Int32(i32),
    Int16(i16),
    Int8(i8),
    Boolean(bool),
}

impl Value {
    /// The type tag of this value.
    pub open spec fn spec_data_type(&self) -> DataType {
        match self {
            Value::Null => DataType::Null,
            Value::Timestamp(_) => DataType::Timestamp,
            Value::Double(_) => DataType::Double,
            Value::Float(_) => DataType::Float,
            Value::Varbinary(_) => DataType::Varbinary,
            Value::String(_) => DataType::String,
            Value::UInt64(_) => DataType::UInt64,
            Value::UInt32(_) => DataType::UInt32,
            Value::UInt16(_) => DataType::UInt16,
            Value::UInt8(_) => DataType::UInt8,
            Value::Int64(_) => DataType::Int64,
            Value::Int32(_) => DataType::Int32,
            Value::Int16(_) => DataType::Int16,
            Value::Int8(_) => DataType::Int8,
            Value::Boolean(_) => DataType::Boolean,
        }
    }

    /// Report the variant of this value without consuming it.
    pub fn data_type(&self) -> (t: DataType)
        ensures
            t == self.spec_data_type(),
    {
        match self {
            Value::Null => DataType::Null,
            Value::Timestamp(_) => DataType::Timestamp,
            Value::Double(_) => DataType::Double,
            Value::Float(_) => DataType::Float,
            Value::Varbinary(_) => DataType::Varbinary,
            Value::String(_) => DataType::String,
            Value::UInt64(_) => DataType::UInt64,
            Value::UInt32(_) => DataType::UInt32,
            Value::UInt16(_) => DataType::UInt16,
            Value::UInt8(_) => DataType::UInt8,
            Value::Int64(_) => DataType::Int64,
            Value::Int32(_) => DataType::Int32,
            Value::Int16(_) => DataType::Int16,
            Value::Int8(_) => DataType::Int8,
            Value::Boolean(_) => DataType::Boolean,
        }
    }
}

/// Builds a [`Value`] of each variant; construction never fails.
#[derive(Clone, Copy, Debug, Default)]
pub struct ValueBuilder;

impl ValueBuilder {
    pub fn new() -> (b: Self) {
        ValueBuilder
    }

    pub fn null(&self) -> (v: Value)
        ensures
            v == Value::Null,
    {
        Value::Null
    }

    /// A timestamp value, in milliseconds since the epoch.
    pub fn timestamp(&self, timestamp_mills: i64) -> (v: Value)
        ensures
            v == Value::Timestamp(timestamp_mills),
    {
        Value::Timestamp(timestamp_mills)
    }

    /// A 64-bit floating-point value, given as its IEEE-754 bit pattern.
    pub fn double(&self, bits: u64) -> (v: Value)
        ensures
            v == Value::Double(bits),
    {
        Value::Double(bits)
    }

    /// A 32-bit floating-point value, given as its IEEE-754 bit pattern.
    pub fn float(&self, bits: u32) -> (v: Value)
        ensures
            v == Value::Float(bits),
    {
        Value::Float(bits)
    }

    pub fn string(&self, val: String) -> (v: Value)
        ensures
            v == Value::String(val),
    {
        Value::String(val)
    }

    pub fn varbinary(&self, val: Vec<u8>) -> (v: Value)
        ensures
            v == Value::Varbinary(val),
    {
        Value::Varbinary(val)
    }

    pub fn uint64(&self, val: u64) -> (v: Value)
        ensures
            v == Value::UInt64(val),
    {
        Value::UInt64(val)
    }

    pub fn uint32(&self, val: u32) -> (v: Value)
        ensures
            v == Value::UInt32(val),
    {
        Value::UInt32(val)
    }

    pub fn uint16(&self, val: u16) -> (v: Value)
        ensures
            v == Value::UInt16(val),
    {
        Value::UInt16(val)
    }

    pub fn uint8(&self, val: u8) -> (v: Value)
        ensures
            v == Value::UInt8(val),
    {
        Value::UInt8(val)
    }

    pub fn int64(&self, val: i64) -> (v: Value)
        ensures
            v == Value::Int64(val),
    {
        Value::Int64(val)
    }

    pub fn int32(&self, val: i32) -> (v: Value)
        ensures
            v == Value::Int32(val),
    {
        Value::Int32(val)
    }

    pub fn int16(&self, val: i16) -> (v: Value)
        ensures
            v == Value::Int16(val),
    {
        Value::Int16(val)
    }

    pub fn int8(&self, val: i8) -> (v: Value)
        ensures
            v == Value::Int8(val),
    {
        Value::Int8(val)
    }

    pub fn bool(&self, val: bool) -> (v: Value)
        ensures
            v == Value::Boolean(val),
    {
        Value::Boolean(val)
    }
}

/// Law: a value of any variant reports exactly the matching type tag, and
/// no other variant reports that tag.
pub proof fn lemma_data_type_round_trip(v: Value)
    ensures
        (v is Null) <==> (v.spec_data_type() == DataType::Null),
        (v is Timestamp) <==> (v.spec_data_type() == DataType::Timestamp),
        (v is Double) <==> (v.spec_data_type() == DataType::Double),
        (v is Float) <==> (v.spec_data_type() == DataType::Float),
        (v is Varbinary) <==> (v.spec_data_type() == DataType::Varbinary),
        (v is String) <==> (v.spec_data_type() == DataType::String),
        (v is UInt64) <==> (v.spec_data_type() == DataType::UInt64),
        (v is UInt32) <==> (v.spec_data_type() == DataType::UInt32),
        (v is UInt16) <==> (v.spec_data_type() == DataType::UInt16),
        (v is UInt8) <==> (v.spec_data_type() == DataType::UInt8),
        (v is Int64) <==> (v.spec_data_type() == DataType::Int64),
        (v is Int32) <==> (v.spec_data_type() == DataType::Int32),
        (v is Int16) <==> (v.spec_data_type() == DataType::Int16),
        (v is Int8) <==> (v.spec_data_type() == DataType::Int8),
        (v is Boolean) <==> (v.spec_data_type() == DataType::Boolean),
{
}

} // verus!

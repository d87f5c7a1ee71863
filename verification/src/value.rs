//! The backend-agnostic tagged value held in a generic result row.
//!
//! Temporal values are held as plain integers: dates as days since the
//! epoch, the other temporal kinds as microseconds since the epoch.
//! Floating-point columns are held as their IEEE 754 bit patterns, so
//! that the layer itself never computes on them; the embedding converts
//! at the boundary.

use vstd::prelude::*;

verus! {

/// One backend-agnostic column value.
#[derive(Debug)]
pub enum RdbcValue {
    /// A fixed-width character value.
    Char(String),
    /// A variable-width character value.
    Varchar(String),
    /// An unbounded character value.
    Text(String),
    /// A 16 bit integer.
    SmallInt(i16),
    /// A 32 bit integer.
    Int(i32),
    /// A 64 bit integer.
    BigInt(i64),
    /// A 32 bit float, held as its IEEE 754 bit pattern.
    Double(u32),
    /// A 64 bit float, held as its IEEE 754 bit pattern.
    BigDouble(u64),
    /// A calendar date, held as days since the epoch.
    Date(i64),
    /// A point in time, held as microseconds since the epoch.
    DateTime(i64),
    /// A time of day, held as microseconds since midnight.
    Time(i64),
    /// A timestamp, held as microseconds since the epoch.
    TimeStamp(i64),
    /// A raw byte string.
    Bytes(Vec<u8>),
    /// A boolean.
    Boolean(bool),
    /// An ordered collection of values.
    Array(Vec<RdbcValue>),
    /// A keyed collection of values, in insertion order.
    Object(Vec<(String, RdbcValue)>),
    /// The absent value.
    Null,
}

impl RdbcValue {
    /// The integer a value stands for, when it is one of the integer
    /// tags; nothing otherwise.
    pub open spec fn as_number_spec(self) -> Option<i64> {
        match self {
            RdbcValue::SmallInt(v) => Some(v as i64),
            RdbcValue::Int(v) => Some(v as i64),
            RdbcValue::BigInt(v) => Some(v),
            _ => None,
        }
    }

    /// Reads the value as an integer: the integer tags yield their
    /// widened value, every other tag yields nothing.
    pub fn as_number(&self) -> (r: Option<i64>)
        ensures
            r == self.as_number_spec(),
    {
        match self {
            RdbcValue::SmallInt(v) => Some(*v as i64),
            RdbcValue::Int(v) => Some(*v as i64),
            RdbcValue::BigInt(v) => Some(*v),
            _ => None,
        }
    }

    /// Whether the value is the absent value.
    pub fn is_null(&self) -> (r: bool)
        ensures
            r == (self is Null),
    {
        match self {
            RdbcValue::Null => true,
            _ => false,
        }
    }
}

} // verus!

//! Plain data types for decoded meter entries.

use vstd::prelude::*;

verus! {

/// Physical unit tag attached to a reported quantity.
#[derive(Clone, Copy, Debug, PartialEq, Eq, Structural)]
pub enum Unit {
    Wh,
}

impl Unit {
    /// Decodes the protocol's unit code; only the watt-hour code is known.
    pub fn try_from(value: u8) -> (r: Result<Unit, ()>)
        ensures
            r == if value == 0x30 {
                Result::<Unit, ()>::Ok(Unit::Wh)
            } else {
                Result::<Unit, ()>::Err(())
            },
    {
        match value {
            0x30 => Ok(Unit::Wh),
            _ => Err(()),
        }
    }
}

/// The tagged value carried by one decoded entry. Only the two integer
/// encodings are supported for export; text is explicitly unsupported,
/// by policy, and is silently ignored by the dispatcher.
#[derive(Debug)]
pub enum RawValue {
    /// A signed 64-bit reading.
    Signed(i64),
    /// An unsigned 32-bit reading.
    Unsigned(u32),
    /// A textual payload; never exported.
    Text(String),
}

/// The numeric reading of a value, if its encoding is supported: both
/// integer encodings widen losslessly into a signed 64-bit number.
pub open spec fn spec_numeric(v: RawValue) -> Option<i64> {
    match v {
        RawValue::Signed(x) => Some(x),
        RawValue::Unsigned(u) => Some(u as i64),
        RawValue::Text(_) => None,
    }
}

/// Extracts the numeric reading of a value, if its encoding is supported.
pub fn numeric_value(v: &RawValue) -> (r: Option<i64>)
    ensures
        r == spec_numeric(*v),
{
    match v {
        RawValue::Signed(x) => Some(*x),
        RawValue::Unsigned(u) => Some(*u as i64),
        RawValue::Text(_) => None,
    }
}

/// One decoded protocol entry: created per frame by the decoder,
/// consumed immediately by the dispatcher, never persisted.
#[derive(Debug)]
pub struct DecodedEntry {
    /// The 6-byte object identifier of the reported quantity.
    pub identifier: [u8; 6],
    /// The reported value.
    pub value: RawValue,
    /// The physical-unit tag, when the meter sent one.
    pub unit: Option<Unit>,
}

/// One decoded frame, tagged by message kind: only a list response
/// carries entries of interest.
#[derive(Debug)]
pub enum Frame {
    /// A list of measurement entries, in decoder-supplied order.
    ListResponse(Vec<DecodedEntry>),
    /// Any other message kind; ignored.
    Other,
}

} // verus!

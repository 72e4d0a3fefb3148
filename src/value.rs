//! The values that travel in message bodies and headers.
use vstd::prelude::*;

verus! {

/// A type signature in the bus's signature notation (`s`, `v`, `a{sv}`, ...).
pub struct Signature(pub String);

/// The basic values: those that may key a dictionary.
pub enum BasicValue {
    Byte(u8),
    Boolean(bool),
    Int16(i16),
    Uint16(u16),
    Int32(i32),
    Uint32(u32),
    Int64(i64),
    Uint64(u64),
    String(String),
    ObjectPath(String),
    Signature(Signature),
}

/// A dictionary: its entries, in order, and its signature (`a{..}`).
pub struct Dictionary {
    pub entries: Vec<(BasicValue, Value)>,
    pub signature: Signature,
}

/// Any value that a message can carry.
pub enum Value {
    BasicValue(BasicValue),
    /// A double, held as its IEEE 754 bit pattern.
    Double(u64),
    /// The elements, and the array's signature (`a..`).
    Array(Vec<Value>, Signature),
    /// The boxed value, and the signature of that value.
    Variant(Box<Value>, Signature),
    /// The fields, and the struct's signature (`(..)`).
    Struct(Vec<Value>, Signature),
    Dictionary(Dictionary),
}

/// `v` is the string value `s`.
pub open spec fn is_string_value(v: Value, s: Seq<char>) -> bool {
    match v {
        Value::BasicValue(BasicValue::String(t)) => t@ == s,
        _ => false,
    }
}

impl Value {
    /// A string value.
    pub fn from_string(s: String) -> (r: Value)
        ensures
            is_string_value(r, s@),
    {
        Value::BasicValue(BasicValue::String(s))
    }

    /// The string held by a string value.
    pub fn as_string(&self) -> (r: Option<&String>)
        ensures
            match r {
                Some(s) => is_string_value(*self, s@),
                None => !(*self is BasicValue && self->BasicValue_0 is String),
            },
    {
        match self {
            Value::BasicValue(BasicValue::String(s)) => Some(s),
            _ => None,
        }
    }
}

} // verus!

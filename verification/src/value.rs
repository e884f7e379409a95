//! The payload of a packet: a JSON-like tree of plain values.

use vstd::prelude::*;

verus! {

/// A number of a payload.
#[derive(Debug, Clone, Copy, PartialEq, Eq)]
pub enum Number {
    /// An integer that is not negative.
    PosInt(u64),
    /// A negative integer.
    NegInt(i64),
    /// A number that is no integer, as the bits of its IEEE 754 double.
    Float(u64),
}

/// A payload: what an event or an acknowledgement carries besides its binary frames.
#[derive(Debug, PartialEq, Eq)]
pub enum Value {
    Null,
    Bool(bool),
    Number(Number),
    String(String),
    /// A list of payloads.
    Array(Vec<Value>),
    /// An object: its members by name, in the order in which they were written.
    Object(Vec<(String, Value)>),
}

impl Value {
    /// Whether this payload is the object without members.
    pub open spec fn is_empty_object(&self) -> bool {
        match *self {
            Value::Object(members) => members@.len() == 0,
            _ => false,
        }
    }

    /// The one item of a list of one, which stands for that item on the wire.
    pub open spec fn single_item(&self) -> Option<Value> {
        match *self {
            Value::Array(items) => if items@.len() == 1 {
                Some(items@[0])
            } else {
                None
            },
            _ => None,
        }
    }

    /// The object without members.
    pub fn empty_object() -> (v: Value)
        ensures
            v.is_empty_object(),
    {
        Value::Object(Vec::new())
    }

    /// A list of one gives up its one item; every other payload is handed back as it is.
    pub fn unwrap_single(self) -> (v: Value)
        ensures
            v == (match self.single_item() {
                Some(item) => item,
                None => self,
            }),
    {
        match self {
            Value::Array(mut items) => {
                if items.len() == 1 {
                    items.remove(0)
                } else {
                    Value::Array(items)
                }
            },
            other => other,
        }
    }
}

} // verus!

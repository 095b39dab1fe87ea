use vstd::prelude::*;

verus! {

/// A parameter or result value as it travels in a request or a reply.
/// `Other` stands for every shape that no node here reads.
#[derive(Debug, PartialEq)]
pub enum Value {
    Null,
    Int(i64),
    UInt(u64),
    Bool(bool),
    Str(String),
    Other,
}

/// The mathematical model of a [`Value`].
pub enum ValueModel {
    Null,
    Int(int),
    UInt(int),
    Bool(bool),
    Str(Seq<char>),
    Other,
}

impl View for Value {
    type V = ValueModel;

    open spec fn view(&self) -> ValueModel {
        match self {
            Value::Null => ValueModel::Null,
            Value::Int(i) => ValueModel::Int(*i as int),
            Value::UInt(u) => ValueModel::UInt(*u as int),
            Value::Bool(b) => ValueModel::Bool(*b),
            Value::Str(s) => ValueModel::Str(s@),
            Value::Other => ValueModel::Other,
        }
    }
}

/// The signed 32-bit integer that a value stands for: an `Int` or a `UInt`
/// within the range of `i32`.
pub open spec fn decode_i32(v: ValueModel) -> Option<i32> {
    match v {
        ValueModel::Int(i) => if i32::MIN <= i <= i32::MAX { Some(i as i32) } else { None },
        ValueModel::UInt(u) => if u <= i32::MAX { Some(u as i32) } else { None },
        _ => None,
    }
}

/// The text that a value stands for: only a `Str` holds one.
pub open spec fn decode_text(v: ValueModel) -> Option<Seq<char>> {
    match v {
        ValueModel::Str(s) => Some(s),
        _ => None,
    }
}

/// Decodes a parameter into a signed 32-bit integer.
pub fn param_to_i32(v: &Value) -> (r: Option<i32>)
    ensures
        r == decode_i32(v@),
{
    match v {
        Value::Int(i) => {
            if i32::MIN as i64 <= *i && *i <= i32::MAX as i64 {
                Some(*i as i32)
            } else {
                None
            }
        },
        Value::UInt(u) => {
            if *u <= i32::MAX as u64 {
                Some(*u as i32)
            } else {
                None
            }
        },
        _ => None,
    }
}

/// Decodes a parameter into a text.
pub fn param_to_text(v: &Value) -> (r: Option<String>)
    ensures
        r.is_some() == decode_text(v@).is_some(),
        r.is_some() ==> r.unwrap()@ == decode_text(v@).unwrap(),
{
    match v {
        Value::Str(s) => Some(s.clone()),
        _ => None,
    }
}

} // verus!

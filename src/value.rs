use vstd::prelude::*;

verus! {

/// A value that crosses the boundary between host and guest. A number is
/// held as the bit pattern of its IEEE-754 binary64 representation.
#[derive(Clone, Debug, PartialEq, Eq)]
pub enum Value {
    Undefined,
    Null,
    Bool(bool),
    Number(u64),
    String(String),
}

/// The mathematical model of a `Value`: text as a sequence of characters.
pub enum ValueModel {
    Undefined,
    Null,
    Bool(bool),
    Number(u64),
    Text(Seq<char>),
}

impl View for Value {
    type V = ValueModel;

    open spec fn view(&self) -> ValueModel {
        match self {
            Value::Undefined => ValueModel::Undefined,
            Value::Null => ValueModel::Null,
            Value::Bool(b) => ValueModel::Bool(*b),
            Value::Number(n) => ValueModel::Number(*n),
            Value::String(s) => ValueModel::Text(s@),
        }
    }
}

/// What one slot of the interpreter's value stack holds, as read out of it
/// or as about to be pushed onto it: text is in the interpreter's own
/// byte encoding. `Unsupported` carries the type tag of any other kind of
/// slot (objects, buffers, pointers).
#[derive(Clone, Debug, PartialEq, Eq)]
pub enum Slot {
    Undefined,
    Null,
    Boolean(bool),
    Number(u64),
    String(Vec<u8>),
    Unsupported(i32),
}

impl Slot {
    /// Whether the slot holds a kind of value that the bridge converts.
    pub open spec fn supported(&self) -> bool {
        !(self is Unsupported)
    }
}

} // verus!

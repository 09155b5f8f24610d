use vstd::prelude::*;
use crate::error::{DuktapeError, DuktapeResult, ErrorCode};
use crate::value::{Slot, Value, ValueModel};

verus! {

/// The CESU-8 encoding of a text, as `cesu8::to_cesu8` computes it.
pub uninterp spec fn cesu8_encoding(s: Seq<char>) -> Seq<u8>;

/// The text that `cesu8::from_cesu8` decodes from bytes, if any.
pub uninterp spec fn cesu8_decoding(b: Seq<u8>) -> Option<Seq<char>>;

#[verifier::external_type_specification]
#[verifier::external_body]
pub struct ExCesu8DecodingError(cesu8::Cesu8DecodingError);

/// Relies on `cesu8::to_cesu8`: the CESU-8 bytes of the text, which
/// `cesu8::from_cesu8` decodes back to the same text.
#[verifier::external_body]
fn to_cesu8_bytes(s: &str) -> (r: Vec<u8>)
    ensures
        r@ == cesu8_encoding(s@),
        cesu8_decoding(r@) == Some(s@),
{
    cesu8::to_cesu8(s).into_owned()
}

/// Relies on `cesu8::from_cesu8`: the decoded text, or an error where the
/// bytes are not CESU-8 (or UTF-8) of a valid Unicode text.
#[verifier::external_body]
fn from_cesu8_bytes(b: &[u8]) -> (r: Result<String, cesu8::Cesu8DecodingError>)
    ensures
        r is Ok <==> cesu8_decoding(b@) is Some,
        r is Ok ==> cesu8_decoding(b@) == Some(r->Ok_0@),
{
    cesu8::from_cesu8(b).map(|s| s.into_owned())
}

/// The error for interpreter text that has no host representation.
pub open spec fn is_encoding_error(e: DuktapeError) -> bool {
    &&& e.code == ErrorCode::Error
    &&& e.message is Some
    &&& e.message->Some_0@ == "can't convert string to UTF-8"@
}

/// Converts text in the interpreter's encoding into a host string.
pub fn from_lstring(bytes: &[u8]) -> (r: DuktapeResult<String>)
    ensures
        match cesu8_decoding(bytes@) {
            Some(t) => r is Ok && r->Ok_0@ == t,
            None => r is Err && is_encoding_error(r->Err_0),
        },
{
    match from_cesu8_bytes(bytes) {
        Ok(s) => Ok(s),
        Err(_) => Err(DuktapeError::from_str("can't convert string to UTF-8")),
    }
}

/// Converts a host string into the interpreter's encoding.
pub fn to_lstring(s: &str) -> (r: Vec<u8>)
    ensures
        r@ == cesu8_encoding(s@),
        cesu8_decoding(r@) == Some(s@),
{
    to_cesu8_bytes(s)
}

/// `s` is what pushing `v` puts on the interpreter's stack.
pub open spec fn encodes(v: Value, s: Slot) -> bool {
    match v {
        Value::Undefined => s is Undefined,
        Value::Null => s is Null,
        Value::Bool(b) => s is Boolean && s->Boolean_0 == b,
        Value::Number(n) => s is Number && s->Number_0 == n,
        Value::String(t) => {
            &&& s is String
            &&& s->String_0@ == cesu8_encoding(t@)
            &&& cesu8_decoding(s->String_0@) == Some(t@)
        },
    }
}

/// `r` is the outcome of reading the supported slot `s` off the stack.
pub open spec fn decodes(s: Slot, r: DuktapeResult<Value>) -> bool {
    match s {
        Slot::Undefined => r is Ok && r->Ok_0@ == ValueModel::Undefined,
        Slot::Null => r is Ok && r->Ok_0@ == ValueModel::Null,
        Slot::Boolean(b) => r is Ok && r->Ok_0@ == ValueModel::Bool(b),
        Slot::Number(n) => r is Ok && r->Ok_0@ == ValueModel::Number(n),
        Slot::String(b) => match cesu8_decoding(b@) {
            Some(t) => r is Ok && r->Ok_0@ == ValueModel::Text(t),
            None => r is Err && is_encoding_error(r->Err_0),
        },
        Slot::Unsupported(_) => false,
    }
}

/// The slot that pushing `v` puts on the interpreter's stack.
pub fn encode_value(v: &Value) -> (r: Slot)
    ensures
        encodes(*v, r),
{
    match v {
        Value::Undefined => Slot::Undefined,
        Value::Null => Slot::Null,
        Value::Bool(b) => Slot::Boolean(*b),
        Value::Number(n) => Slot::Number(*n),
        Value::String(t) => Slot::String(to_lstring(t.as_str())),
    }
}

/// The value read out of a stack slot. The kinds of slot that the bridge
/// does not convert are outside its domain.
pub fn decode_slot(s: &Slot) -> (r: DuktapeResult<Value>)
    requires
        s.supported(),
    ensures
        decodes(*s, r),
{
    match s {
        Slot::Undefined => Ok(Value::Undefined),
        Slot::Null => Ok(Value::Null),
        Slot::Boolean(b) => Ok(Value::Bool(*b)),
        Slot::Number(n) => Ok(Value::Number(*n)),
        Slot::String(b) => match from_lstring(b.as_slice()) {
            Ok(t) => Ok(Value::String(t)),
            Err(e) => Err(e),
        },
        Slot::Unsupported(_) => Err(DuktapeError::from_code(ErrorCode::Type)),
    }
}

/// Encoding a value and decoding the slot it gives yields the same value:
/// every number bit pattern, every boolean, every valid Unicode text.
pub proof fn lemma_encode_decode_round_trip(v: Value, s: Slot, r: DuktapeResult<Value>)
    requires
        encodes(v, s),
        decodes(s, r),
    ensures
        r is Ok,
        r->Ok_0@ == v@,
{
}

} // verus!

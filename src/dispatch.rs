use vstd::prelude::*;
use crate::codec::{cesu8_decoding, cesu8_encoding, decodes, decode_slot, encodes, encode_value, from_lstring, is_encoding_error, to_lstring};
use crate::error::{code_value, DuktapeError, DuktapeResult, ErrorCode};
use crate::value::{Slot, Value, ValueModel};

verus! {

/// The status of a protected execution that succeeded.
pub const EXEC_SUCCESS: i32 = 0;

/// The arity code of a native function that takes any number of arguments.
pub const VARARGS: i32 = -1;

/// The status that a native function returns to throw a generic error.
pub const RET_ERROR: i32 = -100;

/// The status that a native function returns to throw a type error.
pub const RET_TYPE_ERROR: i32 = -105;

/// The arity code under which a host function is registered: the fixed
/// count, or variadic.
pub fn arity_code(arg_count: Option<u16>) -> (r: i32)
    ensures
        match arg_count {
            Some(n) => r == n as i32,
            None => r == VARARGS,
        },
{
    match arg_count {
        Some(n) => n as i32,
        None => VARARGS,
    }
}

/// The error that a guest script raised, with its rendered text `msg`.
pub open spec fn is_script_error(e: DuktapeError, msg: Seq<char>) -> bool {
    &&& e.code == ErrorCode::Error
    &&& e.message is Some
    &&& e.message->Some_0@ == msg
}

/// The outcome of a protected execution, given its status, the slot on
/// top of the stack afterwards, and that slot's rendering as text (only
/// read when the execution failed).
pub fn result_from_status(status: i32, top: &Slot, message: &[u8]) -> (r: DuktapeResult<Value>)
    requires
        status == EXEC_SUCCESS ==> top.supported(),
    ensures
        status == EXEC_SUCCESS ==> decodes(*top, r),
        status != EXEC_SUCCESS ==> match cesu8_decoding(message@) {
            Some(t) => r is Err && is_script_error(r->Err_0, t),
            None => r is Err && is_encoding_error(r->Err_0),
        },
{
    if status == EXEC_SUCCESS {
        decode_slot(top)
    } else {
        match from_lstring(message) {
            Ok(msg) => Err(DuktapeError::from_str(msg.as_str())),
            Err(e) => Err(e),
        }
    }
}

/// A slot that the bridge can hand to a host function.
pub open spec fn slot_decodable(s: Slot) -> bool {
    s is String ==> cesu8_decoding(s->String_0@) is Some
}

/// The arguments of a host function, decoded in stack order; a type-error
/// status where any of them cannot be decoded.
pub fn decode_args(slots: &Vec<Slot>) -> (r: Result<Vec<Value>, i32>)
    requires
        forall|i: int| 0 <= i < slots@.len() ==> (#[trigger] slots@[i]).supported(),
    ensures
        r is Ok <==> forall|i: int| 0 <= i < slots@.len() ==> slot_decodable(#[trigger] slots@[i]),
        r is Ok ==> r->Ok_0@.len() == slots@.len() && forall|i: int|
            0 <= i < slots@.len() ==> decodes(slots@[i], Ok(#[trigger] r->Ok_0@[i])),
        r is Err ==> r->Err_0 == RET_TYPE_ERROR,
{
    let mut args: Vec<Value> = Vec::new();
    let mut i: usize = 0;
    while i < slots.len()
        invariant
            i <= slots@.len(),
            forall|k: int| 0 <= k < slots@.len() ==> (#[trigger] slots@[k]).supported(),
            args@.len() == i,
            forall|k: int| 0 <= k < i ==> slot_decodable(#[trigger] slots@[k]),
            forall|k: int| 0 <= k < i ==> decodes(slots@[k], Ok(#[trigger] args@[k])),
        decreases slots@.len() - i,
    {
        match decode_slot(&slots[i]) {
            Ok(v) => {
                args.push(v);
            },
            Err(_) => {
                return Err(RET_TYPE_ERROR);
            },
        }
        i = i + 1;
    }
    Ok(args)
}

/// What the trampoline hands back to the interpreter.
#[derive(Clone, Debug, PartialEq, Eq)]
pub enum Reply {
    /// Return no value: the guest sees `undefined`.
    NoValue,
    /// Push this slot and return one value.
    Value(Slot),
    /// Once every host resource of the call is released, raise a guest
    /// error of this code with this message (in the interpreter's
    /// encoding).
    Throw { code: i32, message: Vec<u8> },
    /// Return this status: a negative status throws a standard error.
    Status(i32),
}

/// `r` is the reply to a host function's outcome; `None` stands for a
/// fault that the fault boundary caught.
pub open spec fn is_reply(outcome: Option<DuktapeResult<Value>>, r: Reply) -> bool {
    match outcome {
        None => r == Reply::Status(RET_ERROR),
        Some(Ok(v)) => match v {
            Value::Undefined => r == Reply::NoValue,
            _ => r is Value && encodes(v, r->Value_0),
        },
        Some(Err(e)) => match e.message {
            Some(m) => {
                &&& r is Throw
                &&& r->code == code_value(e.code)
                &&& r->message@ == cesu8_encoding(m@)
            },
            None => r is Status && r->Status_0 == -code_value(e.code),
        },
    }
}

/// The status that the trampoline returns for a reply that it does not
/// raise as an error: the number of values it leaves, or the status.
pub open spec fn status_of(r: Reply) -> i32 {
    match r {
        Reply::NoValue => 0,
        Reply::Value(_) => 1,
        Reply::Throw { .. } => RET_ERROR,
        Reply::Status(c) => c,
    }
}

/// The reply to a host function's outcome; `None` stands for a fault
/// that the fault boundary caught.
pub fn reply_for(outcome: &Option<DuktapeResult<Value>>) -> (r: Reply)
    ensures
        is_reply(*outcome, r),
{
    match outcome {
        None => Reply::Status(RET_ERROR),
        Some(Ok(Value::Undefined)) => Reply::NoValue,
        Some(Ok(v)) => Reply::Value(encode_value(v)),
        Some(Err(e)) => match &e.message {
            Some(m) => Reply::Throw { code: e.code.code(), message: to_lstring(m.as_str()) },
            None => Reply::Status(-e.code.code()),
        },
    }
}

/// The status that the trampoline returns for a reply that it does not
/// raise as an error: the number of values it leaves, or the status.
pub fn reply_status(r: &Reply) -> (s: i32)
    ensures
        match *r {
            Reply::NoValue => s == 0,
            Reply::Value(_) => s == 1,
            Reply::Throw { code, message } => s == RET_ERROR,
            Reply::Status(c) => s == c,
        },
{
    match r {
        Reply::NoValue => 0,
        Reply::Value(_) => 1,
        Reply::Throw { .. } => RET_ERROR,
        Reply::Status(c) => *c,
    }
}

/// A host function that returns `undefined` leaves the guest no value, so
/// the guest call expression evaluates to `undefined`.
pub proof fn lemma_undefined_result_returns_nothing(v: Value, r: Reply)
    requires
        v@ == ValueModel::Undefined,
        is_reply(Some(Ok(v)), r),
    ensures
        status_of(r) == 0,
{
}

/// A host function that returns any other value leaves exactly that
/// value, encoded, as its single result.
pub proof fn lemma_value_result_returns_one(v: Value, r: Reply)
    requires
        v@ != ValueModel::Undefined,
        is_reply(Some(Ok(v)), r),
    ensures
        status_of(r) == 1,
        r is Value && encodes(v, r->Value_0),
{
}

/// A host function that fails with a code alone makes the guest call
/// throw: the trampoline returns a negative status.
pub proof fn lemma_code_only_error_throws(e: DuktapeError, r: Reply)
    requires
        e.message is None,
        is_reply(Some(Err(e)), r),
    ensures
        status_of(r) < 0,
        status_of(r) == -code_value(e.code),
{
}

/// A fault in a host function never escapes the trampoline: the guest
/// call throws a generic error instead.
pub proof fn lemma_fault_throws(r: Reply)
    requires
        is_reply(None, r),
    ensures
        status_of(r) == RET_ERROR,
{
}

} // verus!

use duktape::codec::{decode_slot, encode_value, from_lstring, to_lstring};
use duktape::dispatch::{
    arity_code, decode_args, reply_for, reply_status, result_from_status, Reply, EXEC_SUCCESS,
    RET_ERROR, RET_TYPE_ERROR, VARARGS,
};
use duktape::error::{DuktapeError, DuktapeResult, ErrorCode};
use duktape::stack::{call_plan, eval_plan, recover_plan, register_plan, StackOp};
use duktape::value::{Slot, Value};

fn num(x: f64) -> Value {
    Value::Number(x.to_bits())
}

fn height_ok(ops: &[StackOp]) -> bool {
    let mut depth: i64 = 0;
    for op in ops {
        let (need, eff): (i64, i64) = match op {
            StackOp::GetProp(_) | StackOp::GetHiddenProp => (1, 1),
            StackOp::PutProp(_) | StackOp::PutHiddenProp => (2, -1),
            StackOp::EvalSafe(_) => (1, 0),
            StackOp::PCall(n) => (*n as i64 + 1, -(*n as i64)),
            StackOp::ReadResult | StackOp::ReadPointer => (1, 0),
            StackOp::Pop(n) => (*n as i64, -(*n as i64)),
            _ => (0, 1),
        };
        if depth < need {
            return false;
        }
        depth += eff;
    }
    depth == 0
}

#[test]
fn literal_slots_decode_to_matching_values() {
    assert_eq!(Ok(Value::Undefined), decode_slot(&Slot::Undefined));
    assert_eq!(Ok(Value::Null), decode_slot(&Slot::Null));
    assert_eq!(Ok(Value::Bool(true)), decode_slot(&Slot::Boolean(true)));
    assert_eq!(Ok(Value::Bool(false)), decode_slot(&Slot::Boolean(false)));
    assert_eq!(Ok(num(5.0)), decode_slot(&Slot::Number(5.0f64.to_bits())));
    assert_eq!(
        Ok(Value::String("é".to_string())),
        decode_slot(&Slot::String(vec![0xC3, 0xA9]))
    );
}

#[test]
fn supplementary_plane_text_uses_surrogate_pairs() {
    let bytes = to_lstring("\u{10401}");
    assert_eq!(vec![0xED, 0xA0, 0x81, 0xED, 0xB0, 0x81], bytes);
    assert_eq!(Ok("\u{10401}".to_string()), from_lstring(&bytes));
    assert_eq!(Slot::String(bytes), encode_value(&Value::String("\u{10401}".to_string())));
}

#[test]
fn ascii_text_is_unchanged() {
    assert_eq!(b"abc".to_vec(), to_lstring("abc"));
    assert_eq!(Ok(String::new()), from_lstring(&[]));
}

#[test]
fn unpaired_surrogate_is_an_encoding_error() {
    let r = from_lstring(&[0xED, 0xA0, 0x81]);
    assert_eq!(
        Err(DuktapeError::from_str("can't convert string to UTF-8")),
        r
    );
    assert!(decode_slot(&Slot::String(vec![0xFF])).is_err());
}

#[test]
fn round_trip_of_every_supported_kind() {
    let values = vec![
        Value::Undefined,
        Value::Null,
        Value::Bool(true),
        Value::Bool(false),
        num(0.0),
        num(-0.0),
        num(1.5),
        num(f64::MAX),
        num(f64::INFINITY),
        Value::String(String::new()),
        Value::String("aé日\u{10401}".to_string()),
    ];
    for v in values {
        assert_eq!(Ok(v.clone()), decode_slot(&encode_value(&v)));
    }
}

#[test]
fn script_error_carries_message() {
    let r = result_from_status(1, &Slot::Unsupported(6), b"SyntaxError: parse error");
    assert_eq!(Err(DuktapeError::from_str("SyntaxError: parse error")), r);
}

#[test]
fn script_error_with_bad_message_is_encoding_error() {
    let r = result_from_status(1, &Slot::Unsupported(6), &[0xED, 0xB0, 0x81]);
    assert_eq!(Err(DuktapeError::from_str("can't convert string to UTF-8")), r);
}

#[test]
fn successful_status_decodes_top() {
    let r = result_from_status(EXEC_SUCCESS, &Slot::Number(3.0f64.to_bits()), b"3");
    assert_eq!(Ok(num(3.0)), r);
}

#[test]
fn eval_plan_restores_height() {
    let ops = eval_plan("<eval>", "3 +");
    assert_eq!(
        vec![
            StackOp::PushString("<eval>".to_string()),
            StackOp::EvalSafe("3 +".to_string()),
            StackOp::ReadResult,
            StackOp::Pop(1),
        ],
        ops
    );
    assert!(height_ok(&ops));
}

#[test]
fn call_plan_pushes_arguments_in_order() {
    let ops = call_plan("add", &vec![num(2.0), num(1.0)]);
    assert_eq!(
        vec![
            StackOp::PushGlobalObject,
            StackOp::GetProp("add".to_string()),
            StackOp::PushSlot(Slot::Number(2.0f64.to_bits())),
            StackOp::PushSlot(Slot::Number(1.0f64.to_bits())),
            StackOp::PCall(2),
            StackOp::ReadResult,
            StackOp::Pop(1),
            StackOp::Pop(1),
        ],
        ops
    );
    assert!(height_ok(&ops));
    assert!(height_ok(&call_plan("f", &vec![])));
}

#[test]
fn register_and_recover_plans_restore_height() {
    let ops = register_plan("add", 42, 2);
    assert_eq!(StackOp::PushCallback(2), ops[1]);
    assert_eq!(StackOp::PushPointer(42), ops[2]);
    assert!(height_ok(&ops));
    assert!(height_ok(&recover_plan()));
    let mut all = eval_plan("a", "b");
    all.extend(recover_plan());
    all.extend(call_plan("c", &vec![Value::Null]));
    assert!(height_ok(&all));
}

#[test]
fn arity_codes() {
    assert_eq!(2, arity_code(Some(2)));
    assert_eq!(0, arity_code(Some(0)));
    assert_eq!(65535, arity_code(Some(u16::MAX)));
    assert_eq!(VARARGS, arity_code(None));
}

fn host_sum(args: &[Value]) -> DuktapeResult<Value> {
    let mut sum = 0.0;
    for arg in args {
        if let Value::Number(n) = arg {
            sum += f64::from_bits(*n);
        }
    }
    Ok(num(sum))
}

#[test]
fn host_sum_returns_its_result() {
    let slots = vec![Slot::Number(2.0f64.to_bits()), Slot::Number(3.0f64.to_bits())];
    let args = decode_args(&slots).unwrap();
    assert_eq!(vec![num(2.0), num(3.0)], args);
    let reply = reply_for(&Some(host_sum(&args)));
    assert_eq!(Reply::Value(Slot::Number(5.0f64.to_bits())), reply);
    assert_eq!(1, reply_status(&reply));
}

#[test]
fn undecodable_argument_is_a_type_error() {
    let slots = vec![Slot::Null, Slot::String(vec![0xED, 0xA0, 0x81])];
    assert_eq!(Err(RET_TYPE_ERROR), decode_args(&slots));
    assert_eq!(Ok(vec![]), decode_args(&vec![]));
}

#[test]
fn undefined_result_returns_nothing() {
    let reply = reply_for(&Some(Ok(Value::Undefined)));
    assert_eq!(Reply::NoValue, reply);
    assert_eq!(0, reply_status(&reply));
}

#[test]
fn code_only_error_throws_standard_error() {
    let reply = reply_for(&Some(Err(DuktapeError::from_code(ErrorCode::Type))));
    assert_eq!(Reply::Status(-105), reply);
    assert_eq!(RET_TYPE_ERROR, reply_status(&reply));
    assert!(reply_status(&reply) < 0);
}

#[test]
fn error_with_message_is_thrown() {
    let reply = reply_for(&Some(Err(DuktapeError::from_str("custom \u{10401}"))));
    let mut message = b"custom ".to_vec();
    message.extend([0xED, 0xA0, 0x81, 0xED, 0xB0, 0x81]);
    assert_eq!(Reply::Throw { code: 100, message }, reply);
    assert_eq!(RET_ERROR, reply_status(&reply));
}

#[test]
fn host_fault_is_a_generic_error() {
    assert_eq!(Reply::Status(RET_ERROR), reply_for(&None));
}

#[test]
fn error_codes() {
    assert_eq!(105, ErrorCode::Type.code());
    assert_eq!(100, ErrorCode::Error.code());
    assert_eq!(50, ErrorCode::Unimplemented.code());
    assert_eq!(106, ErrorCode::Uri.code());
    let e = DuktapeError::from_code(ErrorCode::Range);
    assert_eq!(None, e.message());
    assert_eq!(Some("x".to_string()), DuktapeError::from_str("x").message());
}

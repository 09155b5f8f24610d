use vstd::prelude::*;
use crate::codec::{encodes, encode_value};
use crate::value::{Slot, Value};

verus! {

/// One step that the bridge performs on the interpreter's value stack.
/// Every context operation is a fixed program of such steps, which the
/// host side carries out in order.
#[derive(Clone, Debug, PartialEq, Eq)]
pub enum StackOp {
    /// Push the global object.
    PushGlobalObject,
    /// Push the function that the interpreter is currently running.
    PushCurrentFunction,
    /// Push the bytes of a host string.
    PushString(String),
    /// Push an encoded value.
    PushSlot(Slot),
    /// Push the trampoline as a native function with the given arity code.
    PushCallback(i32),
    /// Push an opaque pointer-sized token.
    PushPointer(usize),
    /// Push the named property of the object on top.
    GetProp(String),
    /// Push the hidden host-function property of the object on top.
    GetHiddenProp,
    /// Pop the top and store it under the name on the object below it.
    PutProp(String),
    /// Pop the top and store it as the hidden host-function property of
    /// the object below it.
    PutHiddenProp,
    /// Pop the file name on top, compile and run the code in protected
    /// mode, and push its result or its error.
    EvalSafe(String),
    /// Pop a function and the given number of arguments above it, call it
    /// in protected mode, and push its result or its error.
    PCall(usize),
    /// Read the top as the outcome of the last protected execution.
    ReadResult,
    /// Read the top as a pointer-sized token.
    ReadPointer,
    /// Pop the given number of slots.
    Pop(usize),
}

/// How many slots above the operation's entry height a step needs.
pub open spec fn needs(op: StackOp) -> int {
    match op {
        StackOp::GetProp(_) => 1,
        StackOp::GetHiddenProp => 1,
        StackOp::PutProp(_) => 2,
        StackOp::PutHiddenProp => 2,
        StackOp::EvalSafe(_) => 1,
        StackOp::PCall(n) => n + 1,
        StackOp::ReadResult => 1,
        StackOp::ReadPointer => 1,
        StackOp::Pop(n) => n as int,
        _ => 0,
    }
}

/// The change of the stack height that a step makes.
pub open spec fn effect(op: StackOp) -> int {
    match op {
        StackOp::PutProp(_) => -1,
        StackOp::PutHiddenProp => -1,
        StackOp::EvalSafe(_) => 0,
        StackOp::PCall(n) => -(n as int),
        StackOp::ReadResult => 0,
        StackOp::ReadPointer => 0,
        StackOp::Pop(n) => -(n as int),
        _ => 1,
    }
}

/// Run from `depth` slots above the entry height, no step of `ops` reaches
/// below the entry height.
pub open spec fn stays_above(ops: Seq<StackOp>, depth: int) -> bool
    decreases ops.len(),
{
    if ops.len() == 0 {
        true
    } else {
        depth >= needs(ops[0]) && stays_above(ops.drop_first(), depth + effect(ops[0]))
    }
}

/// The total change of the stack height that `ops` makes.
pub open spec fn net_effect(ops: Seq<StackOp>) -> int
    decreases ops.len(),
{
    if ops.len() == 0 {
        0
    } else {
        effect(ops[0]) + net_effect(ops.drop_first())
    }
}

/// `ops` never touches a slot below its entry height and leaves the stack
/// exactly as high as it found it.
pub open spec fn restores_height(ops: Seq<StackOp>) -> bool {
    stays_above(ops, 0) && net_effect(ops) == 0
}

proof fn lemma_concat(a: Seq<StackOp>, b: Seq<StackOp>, depth: int)
    ensures
        net_effect(a + b) == net_effect(a) + net_effect(b),
        stays_above(a + b, depth) == (stays_above(a, depth) && stays_above(
            b,
            depth + net_effect(a),
        )),
    decreases a.len(),
{
    if a.len() == 0 {
        assert(a + b =~= b);
    } else {
        assert((a + b).drop_first() =~= a.drop_first() + b);
        lemma_concat(a.drop_first(), b, depth + effect(a[0]));
    }
}

proof fn lemma_pushes(s: Seq<StackOp>, depth: int)
    requires
        depth >= 0,
        forall|i: int| 0 <= i < s.len() ==> (#[trigger] s[i]) is PushSlot,
    ensures
        stays_above(s, depth),
        net_effect(s) == s.len(),
    decreases s.len(),
{
    if s.len() > 0 {
        assert(s[0] is PushSlot);
        lemma_pushes(s.drop_first(), depth + 1);
    }
}

/// The steps of evaluating `code` under the file name `filename`.
pub fn eval_plan(filename: &str, code: &str) -> (ops: Vec<StackOp>)
    ensures
        ops@.len() == 4,
        ops@[0] is PushString && ops@[0]->PushString_0@ == filename@,
        ops@[1] is EvalSafe && ops@[1]->EvalSafe_0@ == code@,
        ops@[2] == StackOp::ReadResult,
        ops@[3] == StackOp::Pop(1),
        restores_height(ops@),
{
    let ops = vec![
        StackOp::PushString(filename.to_owned()),
        StackOp::EvalSafe(code.to_owned()),
        StackOp::ReadResult,
        StackOp::Pop(1),
    ];
    proof {
        reveal_with_fuel(stays_above, 5);
        reveal_with_fuel(net_effect, 5);
    }
    ops
}

/// The steps of calling the global function `fn_name` with `args`, each
/// argument pushed in order.
pub fn call_plan(fn_name: &str, args: &Vec<Value>) -> (ops: Vec<StackOp>)
    requires
        args.len() + 6 <= usize::MAX,
    ensures
        ops@.len() == args@.len() + 6,
        ops@[0] == StackOp::PushGlobalObject,
        ops@[1] is GetProp && ops@[1]->GetProp_0@ == fn_name@,
        forall|i: int|
            0 <= i < args@.len() ==> #[trigger] ops@[i + 2] is PushSlot && encodes(
                args@[i],
                ops@[i + 2]->PushSlot_0,
            ),
        ops@[args@.len() + 2int] == StackOp::PCall(args.len()),
        ops@[args@.len() + 3int] == StackOp::ReadResult,
        ops@[args@.len() + 4int] == StackOp::Pop(1),
        ops@[args@.len() + 5int] == StackOp::Pop(1),
        restores_height(ops@),
{
    let mut ops: Vec<StackOp> = Vec::new();
    ops.push(StackOp::PushGlobalObject);
    ops.push(StackOp::GetProp(fn_name.to_owned()));
    let n = args.len();
    let mut i: usize = 0;
    while i < n
        invariant
            n == args@.len(),
            i <= n,
            ops@.len() == i + 2,
            ops@[0] == StackOp::PushGlobalObject,
            ops@[1] is GetProp && ops@[1]->GetProp_0@ == fn_name@,
            forall|j: int|
                0 <= j < i ==> #[trigger] ops@[j + 2] is PushSlot && encodes(
                    args@[j],
                    ops@[j + 2]->PushSlot_0,
                ),
        decreases n - i,
    {
        ops.push(StackOp::PushSlot(encode_value(&args[i])));
        i = i + 1;
    }
    ops.push(StackOp::PCall(n));
    ops.push(StackOp::ReadResult);
    ops.push(StackOp::Pop(1));
    ops.push(StackOp::Pop(1));
    proof {
        let s = ops@;
        let head = s.subrange(0, 2);
        let mid = s.subrange(2, n + 2);
        let tail = s.subrange(n + 2, n + 6);
        assert(s =~= head + mid + tail);
        assert forall|j: int| 0 <= j < mid.len() implies (#[trigger] mid[j]) is PushSlot by {
            assert(mid[j] == s[j + 2]);
        }
        reveal_with_fuel(stays_above, 5);
        reveal_with_fuel(net_effect, 5);
        assert(stays_above(head, 0) && net_effect(head) == 2);
        lemma_pushes(mid, 2);
        assert(stays_above(tail, 2 + n) && net_effect(tail) == -2 - n);
        lemma_concat(head, mid, 0);
        lemma_concat(head + mid, tail, 0);
    }
    ops
}

/// The steps of installing the trampoline as the global `fn_name`, with
/// the host function's token stored as its hidden property.
pub fn register_plan(fn_name: &str, token: usize, arity: i32) -> (ops: Vec<StackOp>)
    ensures
        ops@.len() == 6,
        ops@[0] == StackOp::PushGlobalObject,
        ops@[1] == StackOp::PushCallback(arity),
        ops@[2] == StackOp::PushPointer(token),
        ops@[3] == StackOp::PutHiddenProp,
        ops@[4] is PutProp && ops@[4]->PutProp_0@ == fn_name@,
        ops@[5] == StackOp::Pop(1),
        restores_height(ops@),
{
    let ops = vec![
        StackOp::PushGlobalObject,
        StackOp::PushCallback(arity),
        StackOp::PushPointer(token),
        StackOp::PutHiddenProp,
        StackOp::PutProp(fn_name.to_owned()),
        StackOp::Pop(1),
    ];
    proof {
        reveal_with_fuel(stays_above, 7);
        reveal_with_fuel(net_effect, 7);
    }
    ops
}

/// The steps by which the trampoline reads the token of the host function
/// that the interpreter is running.
pub fn recover_plan() -> (ops: Vec<StackOp>)
    ensures
        ops@ == seq![
            StackOp::PushCurrentFunction,
            StackOp::GetHiddenProp,
            StackOp::ReadPointer,
            StackOp::Pop(2),
        ],
        restores_height(ops@),
{
    let ops = vec![
        StackOp::PushCurrentFunction,
        StackOp::GetHiddenProp,
        StackOp::ReadPointer,
        StackOp::Pop(2),
    ];
    proof {
        reveal_with_fuel(stays_above, 5);
        reveal_with_fuel(net_effect, 5);
        assert(ops@ =~= seq![
            StackOp::PushCurrentFunction,
            StackOp::GetHiddenProp,
            StackOp::ReadPointer,
            StackOp::Pop(2),
        ]);
    }
    ops
}

/// Context operations carried out one after another still leave the
/// stack as high as they found it.
pub proof fn lemma_operations_compose(a: Seq<StackOp>, b: Seq<StackOp>)
    requires
        restores_height(a),
        restores_height(b),
    ensures
        restores_height(a + b),
{
    lemma_concat(a, b, 0);
}

} // verus!

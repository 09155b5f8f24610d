//! The verified core of a bridge between a host program and an embedded
//! Duktape JavaScript interpreter: the value model, the string codec, the
//! stack programs that each context operation runs on the interpreter, and
//! the decisions of the callback trampoline.
use vstd::prelude::*;

pub mod codec;
pub mod dispatch;
pub mod error;
pub mod stack;
pub mod value;

verus! {

} // verus!

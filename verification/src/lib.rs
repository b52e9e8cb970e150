//! A sandboxed-script execution library: policy-checked networking, a
//! host-neutral JSON value model, a console transcript, and the decision
//! logic of a resource-bounded script executor.
use vstd::prelude::*;

pub mod console;
pub mod exec;
pub mod gateway;
pub mod handler;
pub mod json;
pub mod sanitize;
pub mod script;
pub mod text;

verus! {

/// Default per-execution timeout, in milliseconds.
pub fn default_timeout() -> (r: u64)
    ensures
        r == 5000u64,
{
    5000
}

/// Default per-execution memory ceiling, in bytes.
pub fn default_memory_limit() -> (r: usize)
    ensures
        r == 10485760usize,
{
    10 * 1024 * 1024
}

/// Fixed stack-size ceiling for one evaluation environment, in bytes:
/// deep recursion becomes a catchable runtime error instead of a host
/// crash.
pub fn default_stack_limit() -> (r: usize)
    ensures
        r == 1048576usize,
{
    1024 * 1024
}

} // verus!

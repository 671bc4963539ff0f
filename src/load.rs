//! The configuration handed to the native engine when a network is compiled for a device.
use vstd::prelude::*;

verus! {

/// The thread count that every compiled network is given. The native load call will not take an
/// empty configuration and callers cannot pass their own yet, so this one hint is always sent.
pub const NUM_THREADS: i32 = 1;

/// The configuration key under which `NUM_THREADS` is sent.
pub const NUM_THREADS_KEY: &'static str = "INFERENCE_NUM_THREADS";

/// One configuration entry for the native load call.
#[derive(Clone, Copy, Debug)]
pub struct LoadOption {
    pub key: &'static str,
    pub value: i32,
}

/// The configuration for compiling a network: the thread-count hint alone.
pub fn load_config() -> (r: LoadOption)
    ensures
        r.key@ == NUM_THREADS_KEY@,
        r.value == NUM_THREADS,
{
    LoadOption { key: NUM_THREADS_KEY, value: NUM_THREADS }
}

} // verus!

//! The flag through which the application tells the hook thread to stop.

use std::sync::atomic::{AtomicBool, Ordering};
use std::sync::Arc;
use vstd::prelude::*;

verus! {

/// Owns the shared running flag. The flag starts true and is set to false when
/// this value is dropped; nothing sets it back.
pub struct HookThreadState {
    pub is_running: Arc<AtomicBool>,
}

impl HookThreadState {
    /// A state whose flag says the hook thread is to keep running.
    pub fn new() -> (s: HookThreadState) {
        HookThreadState { is_running: Arc::new(AtomicBool::new(true)) }
    }
}

/// Relies on `AtomicBool::store`, which panics only for the orderings `Acquire`
/// and `AcqRel`: stores false with `SeqCst`.
#[verifier::external_body]
fn clear_flag(flag: &AtomicBool)
    opens_invariants none
    no_unwind
{
    flag.store(false, Ordering::SeqCst);
}

impl Drop for HookThreadState {
    fn drop(&mut self)
        opens_invariants none
        no_unwind
    {
        clear_flag(&*self.is_running);
    }
}

} // verus!

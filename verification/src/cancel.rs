use vstd::prelude::*;

use std::sync::atomic::AtomicBool;
use std::sync::atomic::Ordering;
use std::sync::Arc;

verus! {

/// A shared cancellation flag: set at most once, from outside the translation
/// loop (for instance by an interrupt handler), and polled by the orchestrator
/// between messages. Cloning yields a handle to the same flag.
///
/// The flag may be flipped by another flow of control at any time, so nothing
/// is promised about the value `is_canceled` returns; the orchestrator is
/// verified for either answer.
#[derive(Clone)]
pub struct CancelToken {
    flag: Arc<AtomicBool>,
}

impl CancelToken {
    /// A fresh token, not yet canceled.
    pub fn new() -> CancelToken {
        CancelToken { flag: Arc::new(AtomicBool::new(false)) }
    }

    /// Request cancellation: the next poll of any handle of this token sees `true`.
    pub fn cancel(&self) {
        self.flag.store(true, Ordering::SeqCst);
    }

    /// Poll the flag.
    pub fn is_canceled(&self) -> bool {
        self.flag.load(Ordering::SeqCst)
    }
}

} // verus!

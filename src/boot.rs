//! One-shot guard for board bring-up: the peripherals are handed out once,
//! and a second attempt is refused.
use vstd::prelude::*;

verus! {

#[derive(Clone, Copy, Debug, PartialEq, Eq, Structural)]
pub enum BootError {
    /// Bring-up already ran.
    AlreadyInitialized,
}

pub struct BootGuard {
    used: bool,
}

impl BootGuard {
    pub closed spec fn is_used(&self) -> bool {
        self.used
    }

    pub fn new() -> (r: BootGuard)
        ensures
            !r.is_used(),
    {
        BootGuard { used: false }
    }

    /// Claims the guard: `Ok` the first time, `AlreadyInitialized` on every
    /// later attempt. The guard is used afterwards either way.
    pub fn claim(&mut self) -> (r: Result<(), BootError>)
        ensures
            final(self).is_used(),
            r == if old(self).is_used() {
                Err::<(), BootError>(BootError::AlreadyInitialized)
            } else {
                Ok::<(), BootError>(())
            },
    {
        if self.used {
            Err(BootError::AlreadyInitialized)
        } else {
            self.used = true;
            Ok(())
        }
    }
}

} // verus!

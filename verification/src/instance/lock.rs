//! Whether instances in one process are kept from running side by side.

use crate::engine::EngineCall;
use vstd::prelude::*;

verus! {

/// How the creation and use of instances is serialized.
///
/// The engine is not safe to enter from two instances at once everywhere. With
/// the process-wide policy one lock is taken before an instance is created
/// and kept until it is gone, so that at most one instance is alive in the
/// process.
#[derive(Copy, Clone, Debug, PartialEq, Eq, Structural, Hash)]
pub enum LockPolicy {
    /// Nothing is locked: the caller sees to it.
    Unsynchronized,
    /// One lock for the whole process, held for as long as the instance lives.
    ProcessWide,
}

/// The step that takes the lock before an instance is created, where the
/// policy asks for one.
pub open spec fn lock_step(policy: LockPolicy) -> Option<EngineCall> {
    if policy == LockPolicy::ProcessWide {
        Some(EngineCall::AcquireLock)
    } else {
        None
    }
}

/// The step that takes the lock before an instance is created, where the
/// policy asks for one.
pub fn get_lock(policy: LockPolicy) -> (step: Option<EngineCall>)
    ensures
        step == lock_step(policy),
{
    match policy {
        LockPolicy::ProcessWide => Some(EngineCall::AcquireLock),
        LockPolicy::Unsynchronized => None,
    }
}

} // verus!

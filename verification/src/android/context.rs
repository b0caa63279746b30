//! The JVM attachment that every call goes through.
use vstd::prelude::*;
use crate::error::BridgeError;

verus! {

/// Whether a call may attach to the JVM: with a null JVM pointer the app is paused or
/// stopped, and the call fails with `VmNotAvailable` instead.
pub fn check_vm(vm_is_null: bool) -> (r: Result<(), BridgeError>)
    ensures
        !vm_is_null <==> r is Ok,
        r matches Err(e) ==> (e is VmNotAvailable),
{
    if vm_is_null {
        Err(BridgeError::VmNotAvailable)
    } else {
        Ok(())
    }
}

/// The context a call needs: a missing one (init never called) is `ContextNotInitialized`.
pub fn require_context<T>(ctx: Option<T>) -> (r: Result<T, BridgeError>)
    ensures
        ctx matches Some(c) ==> r == Ok::<T, BridgeError>(c),
        ctx is None ==> (r matches Err(e) && e is ContextNotInitialized),
{
    match ctx {
        Some(c) => Ok(c),
        None => Err(BridgeError::ContextNotInitialized),
    }
}

} // verus!

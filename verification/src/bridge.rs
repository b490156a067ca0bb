//! The foreign call bridge.
//!
//! The target entry point lives in a foreign, externally-compiled module;
//! an external symbol subsystem resolves its address by name and declared
//! parameter count.  This module owns what the core decides about the
//! result: installation happens once at startup and must fail loudly when
//! the target could not be resolved, since a silently-inactive hook would
//! appear as silently-broken localization downstream.

use vstd::prelude::*;

verus! {

/// The value the symbol subsystem reports when the target function or its
/// enclosing class is not present under the expected name and arity.
pub const UNRESOLVED_ADDR: usize = 0;

/// An installed redirection around the target entry point.  It keeps a
/// callable reference to the pre-redirection implementation, so the local
/// handler can always forward a (possibly rewritten) argument set to the
/// original logic.
#[derive(Clone, Copy, Debug, PartialEq, Eq, Structural)]
pub struct Hook {
    /// Entry address of the original, pre-redirection implementation.
    pub original: usize,
}

/// Why installing the interception failed at startup.
#[derive(Clone, Copy, Debug, PartialEq, Eq, Structural)]
pub enum HookError {
    /// The target entry point could not be resolved in the loaded foreign
    /// module: it is missing, or its signature does not match.
    TargetNotResolved,
}

/// Installs the interception around the text-generation entry point, given
/// the address the symbol subsystem resolved for it (`UNRESOLVED_ADDR`
/// when resolution failed).  Succeeds exactly when the target was
/// resolved, and then keeps the pre-redirection implementation callable; fails
/// loudly otherwise, aborting initialization of this hook.
pub fn init(populate_addr: usize) -> (r: Result<Hook, HookError>)
    ensures
        populate_addr != UNRESOLVED_ADDR <==> r is Ok,
        r matches Ok(h) ==> h.original == populate_addr,
        r matches Err(e) ==> e == HookError::TargetNotResolved,
{
    if populate_addr == UNRESOLVED_ADDR {
        Err(HookError::TargetNotResolved)
    } else {
        Ok(Hook { original: populate_addr })
    }
}

} // verus!

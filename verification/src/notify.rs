//! The notifier: interpreting the status of the enter call.
//!
//! The enter call itself — telling the engine that entries are pending, and
//! optionally blocking until a minimum number complete, with an atomically
//! swapped signal mask — is a privileged call made outside the library. Its
//! raw status comes back here: a negative status is a rejection with that
//! code, a non-negative status is the number of entries the engine accepted.
use vstd::prelude::*;

use crate::errors::EnterError;

verus! {

/// Interprets the raw status of the notification call.
pub fn interpret_enter(ret: i64) -> (r: Result<u32, EnterError>)
    requires
        ret >= i32::MIN,
        ret <= u32::MAX,
    ensures
        ret >= 0 <==> r is Ok,
        match r {
            Ok(n) => n == ret,
            Err(e) => e.code == ret,
        },
{
    if ret >= 0 {
        Ok(ret as u32)
    } else {
        Err(EnterError { code: ret as i32 })
    }
}

} // verus!

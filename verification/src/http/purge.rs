//! Purging what the cache holds under a surrogate key.

use crate::shared::{status_name, FastlyStatus, STATUS_OK};
use crate::sys::PURGE_SOFT_PURGE;
use vstd::prelude::*;
use vstd::string::StringExecFns;

verus! {

/// The text of the error of a purge that failed with the given status.
pub open spec fn purge_error_text(code: i32) -> Seq<char> {
    "purge error: "@ + status_name(code)
}

/// Whether `r` is what the status `status` of a purge means.
pub open spec fn purge_result(r: Result<(), String>, status: FastlyStatus) -> bool {
    match r {
        Ok(_) => status.code == STATUS_OK,
        Err(text) => status.code != STATUS_OK && text@ == purge_error_text(status.code),
    }
}

/// The option bits of a purge: the one for a soft purge, or none.
pub open spec fn purge_mask(soft: bool) -> u32 {
    if soft {
        PURGE_SOFT_PURGE
    } else {
        0
    }
}

fn purge_surrogate_key_impl<F: FnOnce(u32) -> FastlyStatus>(soft: bool, purge: F) -> (r: Result<
    (),
    String,
>)
    requires
        forall|mask: u32| call_requires(purge, (mask,)),
    ensures
        exists|status: FastlyStatus| #[trigger]
            call_ensures(purge, (purge_mask(soft),), status) && purge_result(r, status),
{
    let mask: u32 = if soft {
        PURGE_SOFT_PURGE
    } else {
        0
    };
    let status = purge(mask);
    let r = if status.code == STATUS_OK {
        Ok(())
    } else {
        let mut text = String::from_str("purge error: ");
        text.append(status.name());
        Err(text)
    };
    assert(call_ensures(purge, (purge_mask(soft),), status));
    assert(purge_result(r, status));
    r
}

/// Purges what the cache holds under the surrogate key. `purge` asks the host with
/// the option bits that it is handed: none.
pub fn purge_surrogate_key<F: FnOnce(u32) -> FastlyStatus>(purge: F) -> (r: Result<(), String>)
    requires
        forall|mask: u32| call_requires(purge, (mask,)),
    ensures
        exists|status: FastlyStatus| #[trigger]
            call_ensures(purge, (0u32,), status) && purge_result(r, status),
{
    purge_surrogate_key_impl(false, purge)
}

/// Marks what the cache holds under the surrogate key as stale. `purge` asks the host
/// with the option bits that it is handed: the one for a soft purge.
pub fn soft_purge_surrogate_key<F: FnOnce(u32) -> FastlyStatus>(purge: F) -> (r: Result<
    (),
    String,
>)
    requires
        forall|mask: u32| call_requires(purge, (mask,)),
    ensures
        exists|status: FastlyStatus| #[trigger]
            call_ensures(purge, (PURGE_SOFT_PURGE,), status) && purge_result(r, status),
{
    purge_surrogate_key_impl(true, purge)
}

} // verus!

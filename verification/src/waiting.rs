//! Waiting for an element: look for it, and while the time limit has not
//! passed, pause and look again.
use vstd::prelude::*;
use vstd::string::*;
use crate::text::{decimal, decimal_string};

verus! {

/// The pause between two looks, in milliseconds.
pub const POLL_INTERVAL_MILLIS: u64 = 500;

/// Whether a wait that has run `elapsed_nanos` nanoseconds is still within
/// its limit of `timeout_secs` seconds (`elapsed < Duration::from_secs(timeout_secs)`).
pub fn still_waiting(elapsed_nanos: u128, timeout_secs: u64) -> (r: bool)
    ensures
        r == (elapsed_nanos < timeout_secs * 1_000_000_000),
{
    elapsed_nanos < timeout_secs as u128 * 1_000_000_000
}

/// The error's text when a wait of `timeout_secs` seconds ran out.
pub fn timeout_message(timeout_secs: u64) -> (r: String)
    ensures
        r@ == "Элемент не найден за "@ + decimal(timeout_secs as nat) + " секунд"@,
{
    let mut r = String::from_str("Элемент не найден за ");
    r.append(decimal_string(timeout_secs).as_str());
    r.append(" секунд");
    r
}

} // verus!

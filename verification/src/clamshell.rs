//! Whether the machine is a laptop, and whether its lid is closed, read off
//! what the system's tools print.

use crate::text::{contains, contains_seq, to_chars};
use vstd::prelude::*;

verus! {

/// Whether the registry listing says that the lid is closed.
pub fn lid_closed(listing: &str) -> (r: bool)
    ensures
        r == contains_seq(listing@, "\"AppleClamshellState\" = Yes"@),
{
    let text = to_chars(listing);
    let mark = to_chars("\"AppleClamshellState\" = Yes");
    contains(&text, &mark)
}

/// Whether the power report names an internal battery.
pub fn has_internal_battery(report: &str) -> (r: bool)
    ensures
        r == contains_seq(report@, "InternalBattery"@),
{
    let text = to_chars(report);
    let mark = to_chars("InternalBattery");
    contains(&text, &mark)
}

/// The text for a listing that could not be had: the status the tool ended
/// with.
pub fn listing_failed(status: &str) -> (r: String)
    ensures
        r@ == "ioreg command failed with status: "@ + status@,
{
    crate::text::concat("ioreg command failed with status: ", status)
}

} // verus!

use vstd::prelude::*;

verus! {

/// Puts the next guest on the waiting list. The list is not modelled, so
/// there is nothing to change and nothing to report.
pub fn add_to_waitlist() {
}

} // verus!

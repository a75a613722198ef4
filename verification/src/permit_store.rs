//! The rule of the permit store that wakes an agent's scheduler: permits are
//! counted, any thread may release one, and the owner takes one only when the
//! count is positive (it waits otherwise).
use vstd::prelude::*;

verus! {

/// Whether a permit can be taken from a store that counts `permits`.
pub fn permit_available(permits: isize) -> (available: bool)
    ensures
        available == (permits > 0),
{
    permits > 0
}

} // verus!

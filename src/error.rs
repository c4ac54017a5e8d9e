//! Errors of the two bridges.
use vstd::prelude::*;

pub mod de;
pub mod en;

verus! {

/// The message text that an error carries.
pub fn make_msg(msg: &str) -> (r: String)
    ensures
        r@ == msg@,
{
    msg.to_owned()
}

} // verus!

//! Board support: what identifies the board.
use vstd::prelude::*;

verus! {

/// The board's name.
pub fn board_name() -> (r: &'static str)
    ensures
        r@ == "Raspberry pi 3"@,
{
    "Raspberry pi 3"
}

} // verus!

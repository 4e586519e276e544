use vstd::prelude::*;

verus! {

/// Whether `pin` is a line number that the board can drive.
pub open spec fn supported_pin(pin: u32) -> bool {
    (1 <= pin && pin <= 11) || (18 <= pin && pin <= 21)
}

/// Decides whether `pin` names one of the board's controllable lines.
pub fn is_supported_pin(pin: u32) -> (r: bool)
    ensures
        r == supported_pin(pin),
{
    (1 <= pin && pin <= 11) || (18 <= pin && pin <= 21)
}

} // verus!

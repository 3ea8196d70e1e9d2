//! The finite stock of visual identifiers handed out to joining players.

use vstd::prelude::*;

verus! {

/// One of the four distinct player colors.
#[derive(Clone, Copy, PartialEq, Eq, Structural, Debug)]
pub enum PlayerColor {
    Yellow,
    Blue,
    Green,
    Red,
}

/// The palette as a session starts: an ordered stock that is consumed
/// from the back, one color per join, and never refilled.
pub open spec fn starting_palette() -> Seq<PlayerColor> {
    seq![
        PlayerColor::Yellow,
        PlayerColor::Blue,
        PlayerColor::Green,
        PlayerColor::Red,
    ]
}

/// Builds the starting stock; the first join pops `Red`, the fourth `Yellow`.
pub fn fresh_palette() -> (r: Vec<PlayerColor>)
    ensures
        r@ == starting_palette(),
{
    let mut r: Vec<PlayerColor> = Vec::new();
    r.push(PlayerColor::Yellow);
    r.push(PlayerColor::Blue);
    r.push(PlayerColor::Green);
    r.push(PlayerColor::Red);
    proof {
        assert(r@ =~= starting_palette());
    }
    r
}

} // verus!

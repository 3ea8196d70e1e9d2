//! Session-wide simulation state: joined players and the color stock.

use vstd::prelude::*;

use crate::color::PlayerColor;
use crate::color::fresh_palette;
use crate::color::starting_palette;

verus! {

/// One joined ship: the input device it is bound to, its color, and the
/// entity that carries its physics body.
#[derive(Clone, Copy, PartialEq, Eq, Structural, Debug)]
pub struct Player {
    pub device: u64,
    pub color: PlayerColor,
    pub ship: u64,
}

/// The mutable simulation state owned by the tick driver: the joined
/// players, the remaining color stock, and the next fresh entity id.
pub struct SimulationState {
    pub players: Vec<Player>,
    pub palette: Vec<PlayerColor>,
    pub next_ship: u64,
}

/// The mathematical shadow of `SimulationState`.
#[verifier::ext_equal]
pub struct StateModel {
    pub players: Seq<Player>,
    pub palette: Seq<PlayerColor>,
    pub next_ship: u64,
}

impl View for SimulationState {
    type V = StateModel;

    open spec fn view(&self) -> StateModel {
        StateModel {
            players: self.players@,
            palette: self.palette@,
            next_ship: self.next_ship,
        }
    }
}

/// No two joined players are bound to the same device.
pub open spec fn devices_unique(players: Seq<Player>) -> bool {
    forall|i: int, j: int|
        0 <= i < j < players.len() ==> players[i].device != players[j].device
}

/// No two joined players wear the same color.
pub open spec fn colors_unique(players: Seq<Player>) -> bool {
    forall|i: int, j: int|
        0 <= i < j < players.len() ==> players[i].color != players[j].color
}

/// The remaining stock holds pairwise distinct colors.
pub open spec fn palette_unique(palette: Seq<PlayerColor>) -> bool {
    forall|i: int, j: int|
        0 <= i < j < palette.len() ==> palette[i] != palette[j]
}

/// No color still in stock is already worn by a player.
pub open spec fn palette_unassigned(m: StateModel) -> bool {
    forall|i: int, j: int|
        0 <= i < m.players.len() && 0 <= j < m.palette.len()
            ==> m.players[i].color != m.palette[j]
}

/// Well-formedness of the simulation state: devices and colors are
/// exclusive, and the stock never overlaps what is already assigned.
pub open spec fn state_wf(m: StateModel) -> bool {
    &&& devices_unique(m.players)
    &&& colors_unique(m.players)
    &&& palette_unique(m.palette)
    &&& palette_unassigned(m)
}

/// Whether some player is bound to the given device.
pub open spec fn joined(m: StateModel, device: u64) -> bool {
    exists|i: int| 0 <= i < m.players.len() && m.players[i].device == device
}

impl SimulationState {
    /// A fresh session: no players, the full color stock, ids from zero.
    pub fn new() -> (s: SimulationState)
        ensures
            s@.players == Seq::<Player>::empty(),
            s@.palette == starting_palette(),
            s@.next_ship == 0,
            state_wf(s@),
    {
        let s = SimulationState {
            players: Vec::new(),
            palette: fresh_palette(),
            next_ship: 0,
        };
        proof {
            assert(s@.players =~= Seq::<Player>::empty());
            let p = starting_palette();
            assert(p[0] == PlayerColor::Yellow);
            assert(p[1] == PlayerColor::Blue);
            assert(p[2] == PlayerColor::Green);
            assert(p[3] == PlayerColor::Red);
        }
        s
    }

    /// Whether the device is already bound to a player.
    pub fn is_joined(&self, device: u64) -> (r: bool)
        ensures
            r == joined(self@, device),
    {
        let mut i: usize = 0;
        while i < self.players.len()
            invariant
                i <= self.players@.len(),
                forall|k: int| 0 <= k < i ==> self.players@[k].device != device,
            decreases self.players@.len() - i,
        {
            if self.players[i].device == device {
                assert(self.players@[i as int].device == device);
                return true;
            }
            i += 1;
        }
        false
    }

    /// How many players have joined.
    pub fn player_count(&self) -> (r: usize)
        ensures
            r == self@.players.len(),
    {
        self.players.len()
    }

    /// How many colors are still in stock.
    pub fn colors_left(&self) -> (r: usize)
        ensures
            r == self@.palette.len(),
    {
        self.palette.len()
    }
}

} // verus!

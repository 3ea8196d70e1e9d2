//! Session-wide guarantees of the join manager, stated and proved over
//! the state model.

use vstd::prelude::*;

use crate::join::DeviceButtons;
use crate::join::JoinOutcome;
use crate::join::join_gesture;
use crate::join::join_model;
use crate::join::lemma_join_model_wf;
use crate::state::StateModel;
use crate::state::joined;
use crate::state::state_wf;

verus! {

/// Law: in a well-formed state, no two players share a device or a
/// color. In particular, devices that joined in the same tick each
/// received a distinct color from the palette.
pub proof fn lemma_distinct_colors(m: StateModel, i: int, j: int)
    requires
        state_wf(m),
        0 <= i < m.players.len(),
        0 <= j < m.players.len(),
        i != j,
    ensures
        m.players[i].device != m.players[j].device,
        m.players[i].color != m.players[j].color,
{
}

/// Law: joining the same device twice leaves exactly one player bound
/// to it. The second attempt changes nothing — no new entity, no
/// palette consumption — whatever the first attempt came to; and if
/// the first attempt bound the device (or it was bound before), the
/// second reports `AlreadyJoined`, and by device exclusivity a single
/// player wears the binding.
pub proof fn lemma_join_idempotent(m: StateModel, d: DeviceButtons, x1: i64, x2: i64)
    requires
        state_wf(m),
    ensures
        join_model(join_model(m, d, x1).0, d, x2).0 == join_model(m, d, x1).0,
        join_gesture(d) && (joined(m, d.device) || m.palette.len() > 0) ==> joined(
            join_model(m, d, x1).0,
            d.device,
        ),
        join_gesture(d) && joined(join_model(m, d, x1).0, d.device) ==> join_model(
            join_model(m, d, x1).0,
            d,
            x2,
        ).1 == JoinOutcome::AlreadyJoined,
        forall|i: int, j: int|
            0 <= i < join_model(m, d, x1).0.players.len() && 0 <= j < join_model(
                m,
                d,
                x1,
            ).0.players.len() && join_model(m, d, x1).0.players[i].device == d.device
                && join_model(m, d, x1).0.players[j].device == d.device ==> i == j,
{
    lemma_join_model_wf(m, d, x1);
    let m1 = join_model(m, d, x1).0;
    if join_gesture(d) && !joined(m, d.device) && m.palette.len() > 0 {
        assert(m1.players[m.players.len() as int].device == d.device);
        assert(joined(m1, d.device));
    }
}

} // verus!

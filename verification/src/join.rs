//! The join manager: watches devices for the join gesture, hands out a
//! color from the stock, and binds each new device to a fresh ship.

use vstd::prelude::*;

use crate::color::PlayerColor;
use crate::params::FRICTION_MILLI;
use crate::params::LINEAR_DAMPING_MILLI;
use crate::params::RESTITUTION_MILLI;
use crate::params::SHIP_ANGULAR_DAMPING_MILLI;
use crate::params::SHIP_MASS_MILLI;
use crate::params::SHIP_RADIUS_MILLI;
use crate::params::SPAWN_X_SPAN_MILLI;
use crate::params::SPAWN_Y_MILLI;
use crate::params::TURN_DEADZONE_MILLI;
use crate::state::Player;
use crate::state::SimulationState;
use crate::state::StateModel;
use crate::state::joined;
use crate::state::state_wf;
use crate::vec2::Vec2i;

verus! {

/// The per-tick button state of one input device that matters to the
/// join gesture: both shoulder triggers held at once mean "join me".
#[derive(Clone, Copy, PartialEq, Eq, Structural, Debug)]
pub struct DeviceButtons {
    pub device: u64,
    pub left_trigger: bool,
    pub right_trigger: bool,
}

/// The fixed two-button join gesture: both triggers held.
pub open spec fn join_gesture(d: DeviceButtons) -> bool {
    d.left_trigger && d.right_trigger
}

/// A command to spawn one ship for a newly joined player: a freely
/// movable, frictionless body, at rest at first, whose spin decays but
/// whose thrust glides (angular damping only, zero linear damping).
#[derive(Clone, Copy, PartialEq, Eq, Structural, Debug)]
pub struct ShipSpawn {
    pub ship: u64,
    pub device: u64,
    pub color: PlayerColor,
    pub position: Vec2i,
    pub velocity: Vec2i,
    pub angular_velocity_milli: i64,
    pub radius_milli: i64,
    pub mass_milli: i64,
    pub restitution_milli: i64,
    pub friction_milli: i64,
    pub linear_damping_milli: i64,
    pub angular_damping_milli: i64,
}

/// An analog axis of a gamepad.
#[derive(Clone, Copy, PartialEq, Eq, Structural, Debug)]
pub enum PadAxis {
    LeftStickX,
    LeftStickY,
    RightStickX,
    RightStickY,
}

/// A button of a gamepad.
#[derive(Clone, Copy, PartialEq, Eq, Structural, Debug)]
pub enum PadButton {
    South,
    East,
    North,
    West,
    LeftTrigger,
    RightTrigger,
    LeftTrigger2,
    RightTrigger2,
}

/// The exclusive control mapping bound to a joining device: which
/// physical control drives each of the three logical actions.
#[derive(Clone, Copy, PartialEq, Eq, Structural, Debug)]
pub struct ControlBinding {
    pub device: u64,
    pub turn_axis: PadAxis,
    pub turn_deadzone_milli: i64,
    pub thrust_button: PadButton,
    pub shoot_button: PadButton,
}

/// The mapping every joining device receives: Turn on the left stick's
/// x axis with a 0.1 deadzone, Thrust on the lower left trigger, Shoot
/// on the east face button.
pub open spec fn binding_of(device: u64) -> ControlBinding {
    ControlBinding {
        device,
        turn_axis: PadAxis::LeftStickX,
        turn_deadzone_milli: TURN_DEADZONE_MILLI,
        thrust_button: PadButton::LeftTrigger2,
        shoot_button: PadButton::East,
    }
}

/// Builds the control mapping a joining device is bound to.
pub fn control_binding(device: u64) -> (r: ControlBinding)
    ensures
        r == binding_of(device),
{
    ControlBinding {
        device,
        turn_axis: PadAxis::LeftStickX,
        turn_deadzone_milli: TURN_DEADZONE_MILLI,
        thrust_button: PadButton::LeftTrigger2,
        shoot_button: PadButton::East,
    }
}

/// What one join attempt came to.
#[derive(Clone, Copy, PartialEq, Eq, Structural, Debug)]
pub enum JoinOutcome {
    /// The device joined; the engine must spawn this ship.
    Joined(ShipSpawn),
    /// The device is already bound to a player; nothing changed.
    AlreadyJoined,
    /// The color stock is exhausted; the join is refused, the session
    /// keeps running and every joined player is left untouched.
    ArenaFull,
    /// The device is not holding the join gesture.
    NoGesture,
}

/// What one join attempt does to the state, given the abscissa the
/// spawned ship would get: a no-op unless the gesture is held, the
/// device is new and a color is left; then the back color is popped
/// and the device is bound to a fresh ship.
pub open spec fn join_model(m: StateModel, d: DeviceButtons, spawn_x: i64) -> (StateModel,
    JoinOutcome) {
    if !join_gesture(d) {
        (m, JoinOutcome::NoGesture)
    } else if joined(m, d.device) {
        (m, JoinOutcome::AlreadyJoined)
    } else if m.palette.len() == 0 {
        (m, JoinOutcome::ArenaFull)
    } else {
        let color = m.palette.last();
        let spawn = ShipSpawn {
            ship: m.next_ship,
            device: d.device,
            color,
            position: Vec2i { x: spawn_x, y: SPAWN_Y_MILLI },
            velocity: Vec2i { x: 0, y: 0 },
            angular_velocity_milli: 0,
            radius_milli: SHIP_RADIUS_MILLI,
            mass_milli: SHIP_MASS_MILLI,
            restitution_milli: RESTITUTION_MILLI,
            friction_milli: FRICTION_MILLI,
            linear_damping_milli: LINEAR_DAMPING_MILLI,
            angular_damping_milli: SHIP_ANGULAR_DAMPING_MILLI,
        };
        let p = Player { device: d.device, color, ship: m.next_ship };
        let m2 = StateModel {
            players: m.players.push(p),
            palette: m.palette.drop_last(),
            next_ship: ((m.next_ship + 1) as u64),
        };
        (m2, JoinOutcome::Joined(spawn))
    }
}

/// A join attempt keeps the state well-formed: the popped color was in
/// stock, so it is worn by nobody, and the new device was unbound.
pub proof fn lemma_join_model_wf(m: StateModel, d: DeviceButtons, spawn_x: i64)
    requires
        state_wf(m),
    ensures
        state_wf(join_model(m, d, spawn_x).0),
{
    let m2 = join_model(m, d, spawn_x).0;
    if join_gesture(d) && !joined(m, d.device) && m.palette.len() > 0 {
        let n = m.players.len() as int;
        let q = m.palette.len() as int;
        assert forall|i: int, j: int| 0 <= i < j < m2.players.len() implies m2.players[i].device
            != m2.players[j].device by {
            if j == n {
                assert(m2.players[i] == m.players[i]);
                assert(!(0 <= i < m.players.len() && m.players[i].device == d.device));
            }
        }
        assert forall|i: int, j: int| 0 <= i < j < m2.players.len() implies m2.players[i].color
            != m2.players[j].color by {
            if j == n {
                assert(m2.players[i] == m.players[i]);
                assert(m.players[i].color != m.palette[q - 1]);
            }
        }
        assert forall|i: int, j: int| 0 <= i < j < m2.palette.len() implies m2.palette[i]
            != m2.palette[j] by {
            assert(m2.palette[i] == m.palette[i]);
            assert(m2.palette[j] == m.palette[j]);
        }
        assert forall|i: int, j: int|
            0 <= i < m2.players.len() && 0 <= j < m2.palette.len() implies m2.players[i].color
            != m2.palette[j] by {
            assert(m2.palette[j] == m.palette[j]);
            if i == n {
                assert(m2.players[i].color == m.palette[q - 1]);
            } else {
                assert(m2.players[i] == m.players[i]);
            }
        }
    }
}

/// Relies on rand::Rng::gen_range over `lo..hi`, on rand::thread_rng:
/// a sample from the non-empty half-open range (it panics on an empty
/// one, which the precondition rules out).
#[verifier::external_body]
fn sample_range(lo: i64, hi: i64) -> (r: i64)
    requires
        lo < hi,
    ensures
        lo <= r < hi,
{
    rand::Rng::gen_range(&mut rand::thread_rng(), lo..hi)
}

/// Draws the pseudo-random abscissa a new ship spawns at: somewhere in
/// the arena's horizontal spawn span.
pub fn random_spawn_x() -> (r: i64)
    ensures
        -SPAWN_X_SPAN_MILLI <= r < SPAWN_X_SPAN_MILLI,
{
    sample_range(-SPAWN_X_SPAN_MILLI, SPAWN_X_SPAN_MILLI)
}

/// One join attempt with the spawn abscissa fixed: exactly the step
/// `join_model` describes. Joining an already-bound device, a device
/// without the gesture, or joining with an empty stock changes nothing.
pub fn join_device_at(s: &mut SimulationState, d: DeviceButtons, spawn_x: i64) -> (r: JoinOutcome)
    requires
        state_wf(old(s)@),
        old(s).next_ship < u64::MAX,
    ensures
        (final(s)@, r) == join_model(old(s)@, d, spawn_x),
        state_wf(final(s)@),
{
    proof {
        lemma_join_model_wf(old(s)@, d, spawn_x);
    }
    if !(d.left_trigger && d.right_trigger) {
        return JoinOutcome::NoGesture;
    }
    if s.is_joined(d.device) {
        return JoinOutcome::AlreadyJoined;
    }
    if s.palette.len() == 0 {
        return JoinOutcome::ArenaFull;
    }
    let color = s.palette.pop().unwrap();
    let ship = s.next_ship;
    s.next_ship = ship + 1;
    s.players.push(Player { device: d.device, color, ship });
    proof {
        assert(s.palette@ =~= old(s)@.palette.drop_last());
        assert(s@ =~= join_model(old(s)@, d, spawn_x).0);
    }
    JoinOutcome::Joined(
        ShipSpawn {
            ship,
            device: d.device,
            color,
            position: Vec2i { x: spawn_x, y: SPAWN_Y_MILLI },
            velocity: Vec2i { x: 0, y: 0 },
            angular_velocity_milli: 0,
            radius_milli: SHIP_RADIUS_MILLI,
            mass_milli: SHIP_MASS_MILLI,
            restitution_milli: RESTITUTION_MILLI,
            friction_milli: FRICTION_MILLI,
            linear_damping_milli: LINEAR_DAMPING_MILLI,
            angular_damping_milli: SHIP_ANGULAR_DAMPING_MILLI,
        },
    )
}

/// One join attempt for one device, with the spawn abscissa drawn at
/// random from the spawn span: some such abscissa makes the attempt
/// exactly the step `join_model` describes.
pub fn join_device(s: &mut SimulationState, d: DeviceButtons) -> (r: JoinOutcome)
    requires
        state_wf(old(s)@),
        old(s).next_ship < u64::MAX,
    ensures
        state_wf(final(s)@),
        exists|x: i64|
            -SPAWN_X_SPAN_MILLI <= x < SPAWN_X_SPAN_MILLI && (final(s)@, r)
                == #[trigger] join_model(old(s)@, d, x),
{
    let x = random_spawn_x();
    join_device_at(s, d, x)
}

/// How many attempts of a tick ended in a join.
pub open spec fn count_joined(outs: Seq<JoinOutcome>) -> nat
    decreases outs.len(),
{
    if outs.len() == 0 {
        0
    } else {
        count_joined(outs.drop_last()) + (if outs.last() is Joined {
            1nat
        } else {
            0
        })
    }
}

/// What a whole tick of the join manager does: the per-device join
/// attempts folded over the devices in order, given the spawn abscissae
/// the successful attempts would use.
pub open spec fn tick_model(m: StateModel, devices: Seq<DeviceButtons>, xs: Seq<i64>) -> (
    StateModel,
    Seq<JoinOutcome>,
)
    decreases devices.len(),
{
    if devices.len() == 0 {
        (m, Seq::empty())
    } else {
        let prior = tick_model(m, devices.drop_last(), xs.drop_last());
        let step = join_model(prior.0, devices.last(), xs.last());
        (step.0, prior.1.push(step.1))
    }
}

/// The join manager's tick: one join attempt per known device, in
/// order — exactly `tick_model` folded over the devices, for some
/// spawn abscissae drawn from the spawn span. In particular existing
/// players are untouched; the color stock shrinks from its back by
/// exactly one color per successful join, so the first join of a
/// session pops the last color of the stock; and after the tick, every
/// device that held the gesture is bound to a player unless the stock
/// ran out on it.
pub fn join_tick(s: &mut SimulationState, devices: &Vec<DeviceButtons>) -> (r: Vec<JoinOutcome>)
    requires
        state_wf(old(s)@),
        old(s)@.next_ship + devices@.len() < u64::MAX,
    ensures
        state_wf(final(s)@),
        exists|xs: Seq<i64>|
            xs.len() == devices@.len() && (forall|j: int|
                0 <= j < xs.len() ==> -SPAWN_X_SPAN_MILLI <= #[trigger] xs[j]
                    < SPAWN_X_SPAN_MILLI) && (final(s)@, r@) == #[trigger] tick_model(
                old(s)@,
                devices@,
                xs,
            ),
        r@.len() == devices@.len(),
        final(s)@.players.len() >= old(s)@.players.len(),
        forall|k: int|
            0 <= k < old(s)@.players.len() ==> final(s)@.players[k] == old(s)@.players[k],
        final(s)@.players.len() - old(s)@.players.len() == count_joined(r@),
        count_joined(r@) <= old(s)@.palette.len(),
        final(s)@.palette == old(s)@.palette.subrange(
            0,
            old(s)@.palette.len() - count_joined(r@),
        ),
        forall|j: int|
            old(s)@.players.len() <= j < final(s)@.players.len() ==> final(s)@.players[j].color
                == old(s)@.palette[old(s)@.palette.len() - 1 - (j - old(s)@.players.len())],
        final(s)@.next_ship == old(s)@.next_ship + (final(s)@.players.len()
            - old(s)@.players.len()),
        forall|k: int|
            0 <= k < devices@.len() && !join_gesture(devices@[k]) ==> r@[k]
                == JoinOutcome::NoGesture,
        forall|k: int|
            0 <= k < devices@.len() && join_gesture(devices@[k]) ==> joined(
                final(s)@,
                devices@[k].device,
            ) || r@[k] == JoinOutcome::ArenaFull,
{
    let ghost m0 = old(s)@;
    let ghost p0 = old(s)@.players.len() as int;
    let ghost q0 = old(s)@.palette.len() as int;
    let mut outcomes: Vec<JoinOutcome> = Vec::new();
    let ghost mut xs: Seq<i64> = Seq::empty();
    let n = devices.len();
    let mut i: usize = 0;
    proof {
        assert(devices@.take(0) =~= Seq::<DeviceButtons>::empty());
        assert(outcomes@ =~= Seq::<JoinOutcome>::empty());
    }
    while i < n
        invariant
            m0 == old(s)@,
            p0 == m0.players.len(),
            q0 == m0.palette.len(),
            n == devices@.len(),
            i <= n,
            state_wf(s@),
            m0.next_ship + devices@.len() < u64::MAX,
            outcomes@.len() == i,
            xs.len() == i,
            forall|j: int|
                0 <= j < i ==> -SPAWN_X_SPAN_MILLI <= #[trigger] xs[j] < SPAWN_X_SPAN_MILLI,
            (s@, outcomes@) == tick_model(m0, devices@.take(i as int), xs),
            s@.players.len() >= p0,
            s@.players.len() - p0 <= i,
            forall|k: int| 0 <= k < p0 ==> s@.players[k] == m0.players[k],
            s@.players.len() - p0 == count_joined(outcomes@),
            count_joined(outcomes@) <= q0,
            s@.palette == m0.palette.subrange(0, q0 - count_joined(outcomes@)),
            forall|j: int|
                p0 <= j < s@.players.len() ==> s@.players[j].color == m0.palette[q0 - 1 - (j
                    - p0)],
            s@.next_ship == m0.next_ship + (s@.players.len() - p0),
            forall|k: int|
                0 <= k < i && !join_gesture(devices@[k]) ==> outcomes@[k]
                    == JoinOutcome::NoGesture,
            forall|k: int|
                0 <= k < i && join_gesture(devices@[k]) ==> joined(s@, devices@[k].device)
                    || outcomes@[k] == JoinOutcome::ArenaFull,
        decreases n - i,
    {
        let d = devices[i];
        let x = random_spawn_x();
        let ghost prev = s@;
        let ghost prev_outs = outcomes@;
        let out = join_device_at(s, d, x);
        outcomes.push(out);
        proof {
            let prev_xs = xs;
            xs = xs.push(x);
            assert(outcomes@.drop_last() =~= prev_outs);
            assert(outcomes@.last() == out);
            lemma_tick_step(m0, prev, s@, d, x, out, p0, q0, count_joined(prev_outs));
            assert(devices@.take(i as int + 1).drop_last() =~= devices@.take(i as int));
            assert(xs.drop_last() =~= prev_xs);
            assert(devices@.take(i as int + 1).last() == devices@[i as int]);
            assert((s@, outcomes@) == tick_model(m0, devices@.take(i as int + 1), xs));
        }
        i += 1;
    }
    proof {
        assert(devices@.take(n as int) =~= devices@);
        assert((s@, outcomes@) == tick_model(old(s)@, devices@, xs));
    }
    outcomes
}

/// One join attempt keeps every per-tick bookkeeping fact: old players
/// stay, the stock loses its back color exactly when a player appears,
/// and a gesturing device ends bound unless the stock is empty.
proof fn lemma_tick_step(
    m0: StateModel,
    prev: StateModel,
    cur: StateModel,
    d: DeviceButtons,
    x: i64,
    out: JoinOutcome,
    p0: int,
    q0: int,
    cj: nat,
)
    requires
        (cur, out) == join_model(prev, d, x),
        0 <= p0 <= prev.players.len(),
        q0 == m0.palette.len(),
        prev.players.len() - p0 == cj,
        cj <= q0,
        prev.palette == m0.palette.subrange(0, q0 - cj),
        forall|k: int| 0 <= k < p0 ==> prev.players[k] == m0.players[k],
        forall|j: int|
            p0 <= j < prev.players.len() ==> prev.players[j].color == m0.palette[q0 - 1 - (j
                - p0)],
    ensures
        cur.players.len() - p0 == cj + (if out is Joined {
            1nat
        } else {
            0
        }),
        out is Joined ==> cj + 1 <= q0,
        cur.palette == m0.palette.subrange(
            0,
            q0 - (cj + (if out is Joined {
                1nat
            } else {
                0
            })),
        ),
        forall|k: int| 0 <= k < p0 ==> cur.players[k] == m0.players[k],
        forall|j: int|
            p0 <= j < cur.players.len() ==> cur.players[j].color == m0.palette[q0 - 1 - (j - p0)],
        forall|dev: u64| joined(prev, dev) ==> joined(cur, dev),
        out is Joined ==> joined(cur, d.device),
        join_gesture(d) && !(out is Joined) && prev.palette.len() > 0 ==> joined(prev, d.device),
{
    if join_gesture(d) && !joined(prev, d.device) && prev.palette.len() > 0 {
        let color = prev.palette.last();
        assert(prev.palette.len() == q0 - cj);
        assert(color == m0.palette[q0 - cj - 1]);
        assert(cur.palette =~= m0.palette.subrange(0, q0 - cj - 1)) by {
            assert(cur.palette =~= prev.palette.drop_last());
        }
        assert(cur.players[prev.players.len() as int].color == color);
        assert forall|dev: u64| joined(prev, dev) implies joined(cur, dev) by {
            let w = choose|w: int| 0 <= w < prev.players.len() && prev.players[w].device == dev;
            assert(cur.players[w].device == dev);
        }
        assert(cur.players[prev.players.len() as int].device == d.device);
    } else {
        assert(cur == prev);
        if out is Joined {
            assert(false);
        }
    }
}

} // verus!

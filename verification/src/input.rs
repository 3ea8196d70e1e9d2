//! The input translator: per tick, per ship, turns the current action
//! state into physics actuation and an optional projectile spawn.

use vstd::prelude::*;

use crate::color::PlayerColor;
use crate::params::BULLET_ANGULAR_DAMPING_MILLI;
use crate::params::BULLET_MASS_MILLI;
use crate::params::BULLET_RADIUS_MILLI;
use crate::params::BULLET_SPEED;
use crate::params::FRICTION_MILLI;
use crate::params::LINEAR_DAMPING_MILLI;
use crate::params::RESTITUTION_MILLI;
use crate::params::THRUST_POWER;
use crate::params::TURN_POWER;
use crate::params::UNIT_MILLI;
use crate::vec2::Vec2i;

verus! {

/// The per-tick state of one ship's three logical actions.
///
/// Analog values are milli-scaled: a full right stick deflection is
/// `turn_value == 1000`, a full trigger pull `thrust_value == 1000`.
/// `shoot_was_held` is the Shoot state of the previous tick, kept so
/// the rising edge can be told from a held button.
#[derive(Clone, Copy, PartialEq, Eq, Structural, Debug)]
pub struct ActionInput {
    pub turn_held: bool,
    pub turn_value: i64,
    pub thrust_held: bool,
    pub thrust_value: i64,
    pub shoot_held: bool,
    pub shoot_was_held: bool,
}

/// The per-tick physics snapshot of one ship, read from the engine:
/// its forward unit vector (milli-scaled components), position and
/// linear velocity.
#[derive(Clone, Copy, PartialEq, Eq, Structural, Debug)]
pub struct ShipKinematics {
    pub forward: Vec2i,
    pub position: Vec2i,
    pub velocity: Vec2i,
}

/// A command to spawn one projectile: a light, bouncy, frictionless,
/// undamped body marked as a non-blocking sensor, wearing the firing
/// ship's color and its orientation (given as the forward vector).
#[derive(Clone, Copy, PartialEq, Eq, Structural, Debug)]
pub struct ProjectileSpawn {
    pub position: Vec2i,
    pub forward: Vec2i,
    pub velocity: Vec2i,
    pub angular_velocity_milli: i64,
    pub color: PlayerColor,
    pub radius_milli: i64,
    pub mass_milli: i64,
    pub restitution_milli: i64,
    pub friction_milli: i64,
    pub linear_damping_milli: i64,
    pub angular_damping_milli: i64,
    pub sensor: bool,
}

/// What one ship asks of the physics engine this tick. The torque is
/// milli-scaled; the force components carry a scale of one million,
/// being exact products of two milli-scaled factors.
#[derive(Clone, Copy, Debug)]
pub struct Actuation {
    pub torque: i64,
    pub force: Vec2i,
    pub projectile: Option<ProjectileSpawn>,
}

/// Shoot fires only on the tick it goes from released to held.
pub open spec fn shoot_rising_edge(a: ActionInput) -> bool {
    a.shoot_held && !a.shoot_was_held
}

/// The torque set while Turn is held is `-turn * 5000`; a released
/// Turn resets it to exactly zero.
pub open spec fn torque_of(a: ActionInput) -> int {
    if a.turn_held {
        -a.turn_value * TURN_POWER
    } else {
        0
    }
}

/// The force set while Thrust is held is `forward * thrust * 250`; a
/// released Thrust resets it to exactly the zero vector.
pub open spec fn force_of(a: ActionInput, forward: Vec2i) -> Vec2i {
    if a.thrust_held {
        Vec2i {
            x: (forward.x * a.thrust_value * THRUST_POWER) as i64,
            y: (forward.y * a.thrust_value * THRUST_POWER) as i64,
        }
    } else {
        Vec2i { x: 0, y: 0 }
    }
}

/// A projectile leaves the muzzle at `forward * 300` on top of the
/// ship's own velocity, so shots lead a moving ship.
pub open spec fn bullet_velocity(k: ShipKinematics) -> Vec2i {
    Vec2i {
        x: (k.forward.x * BULLET_SPEED + k.velocity.x) as i64,
        y: (k.forward.y * BULLET_SPEED + k.velocity.y) as i64,
    }
}

/// The projectile spawned by a firing ship: at the ship's position and
/// orientation, in the ship's color, with the led velocity, no spin,
/// and the fixed small, light, bouncy, frictionless sensor body.
pub open spec fn projectile_of(k: ShipKinematics, color: PlayerColor) -> ProjectileSpawn {
    ProjectileSpawn {
        position: k.position,
        forward: k.forward,
        velocity: bullet_velocity(k),
        angular_velocity_milli: 0,
        color,
        radius_milli: BULLET_RADIUS_MILLI,
        mass_milli: BULLET_MASS_MILLI,
        restitution_milli: RESTITUTION_MILLI,
        friction_milli: FRICTION_MILLI,
        linear_damping_milli: LINEAR_DAMPING_MILLI,
        angular_damping_milli: BULLET_ANGULAR_DAMPING_MILLI,
        sensor: true,
    }
}

/// What the translator may be handed: analog values in their ranges, a
/// forward vector with unit-sized components, and a velocity that the
/// machine's integers can lead by the muzzle speed.
pub open spec fn input_ok(a: ActionInput, k: ShipKinematics) -> bool {
    &&& -UNIT_MILLI <= a.turn_value <= UNIT_MILLI
    &&& 0 <= a.thrust_value <= UNIT_MILLI
    &&& -UNIT_MILLI <= k.forward.x <= UNIT_MILLI
    &&& -UNIT_MILLI <= k.forward.y <= UNIT_MILLI
    &&& i64::MIN <= k.forward.x * BULLET_SPEED + k.velocity.x <= i64::MAX
    &&& i64::MIN <= k.forward.y * BULLET_SPEED + k.velocity.y <= i64::MAX
}

/// Everything one ship asks of the engine for one tick, as a value.
pub open spec fn actuation_of(a: ActionInput, k: ShipKinematics, color: PlayerColor) -> Actuation {
    Actuation {
        torque: torque_of(a) as i64,
        force: force_of(a, k.forward),
        projectile: if shoot_rising_edge(a) {
            Some(projectile_of(k, color))
        } else {
            None
        },
    }
}

/// Translates one ship's current action state into actuation.
///
/// Torque and force are level-triggered and re-asserted every tick,
/// zero included, since the engine integrates whatever is set; Shoot
/// is edge-triggered and spawns exactly one projectile per rising edge.
pub fn process_input(a: ActionInput, k: ShipKinematics, color: PlayerColor) -> (r: Actuation)
    requires
        input_ok(a, k),
    ensures
        r == actuation_of(a, k, color),
        r.torque == torque_of(a),
        r.force == force_of(a, k.forward),
        shoot_rising_edge(a) ==> r.projectile == Some(projectile_of(k, color)),
        !shoot_rising_edge(a) ==> r.projectile is None,
{
    let torque: i64 = if a.turn_held {
        -a.turn_value * TURN_POWER
    } else {
        0
    };

    proof {
        assert(-UNIT_MILLI * UNIT_MILLI <= k.forward.x * a.thrust_value <= UNIT_MILLI * UNIT_MILLI
            && -UNIT_MILLI * UNIT_MILLI <= k.forward.y * a.thrust_value
            <= UNIT_MILLI * UNIT_MILLI) by (nonlinear_arith)
            requires
                -UNIT_MILLI <= k.forward.x <= UNIT_MILLI,
                -UNIT_MILLI <= k.forward.y <= UNIT_MILLI,
                0 <= a.thrust_value <= UNIT_MILLI,
        ;
    }

    let force: Vec2i = if a.thrust_held {
        Vec2i {
            x: k.forward.x * a.thrust_value * THRUST_POWER,
            y: k.forward.y * a.thrust_value * THRUST_POWER,
        }
    } else {
        Vec2i { x: 0, y: 0 }
    };

    let projectile: Option<ProjectileSpawn> = if a.shoot_held && !a.shoot_was_held {
        Some(ProjectileSpawn {
            position: k.position,
            forward: k.forward,
            velocity: Vec2i {
                x: k.forward.x * BULLET_SPEED + k.velocity.x,
                y: k.forward.y * BULLET_SPEED + k.velocity.y,
            },
            angular_velocity_milli: 0,
            color,
            radius_milli: BULLET_RADIUS_MILLI,
            mass_milli: BULLET_MASS_MILLI,
            restitution_milli: RESTITUTION_MILLI,
            friction_milli: FRICTION_MILLI,
            linear_damping_milli: LINEAR_DAMPING_MILLI,
            angular_damping_milli: BULLET_ANGULAR_DAMPING_MILLI,
            sensor: true,
        })
    } else {
        None
    };

    Actuation { torque, force, projectile }
}

/// The input translator's tick: one actuation per joined ship, each
/// from that ship's own action state, physics snapshot and color.
pub fn input_tick(ships: &Vec<(ActionInput, ShipKinematics, PlayerColor)>) -> (r: Vec<Actuation>)
    requires
        forall|i: int| 0 <= i < ships@.len() ==> input_ok(ships@[i].0, ships@[i].1),
    ensures
        r@.len() == ships@.len(),
        forall|i: int|
            0 <= i < ships@.len() ==> r@[i] == actuation_of(ships@[i].0, ships@[i].1, ships@[i].2),
{
    let mut r: Vec<Actuation> = Vec::new();
    let n = ships.len();
    let mut i: usize = 0;
    while i < n
        invariant
            n == ships@.len(),
            i <= n,
            r@.len() == i,
            forall|j: int| 0 <= j < ships@.len() ==> input_ok(ships@[j].0, ships@[j].1),
            forall|j: int|
                0 <= j < i ==> r@[j] == actuation_of(ships@[j].0, ships@[j].1, ships@[j].2),
        decreases n - i,
    {
        let (a, k, color) = ships[i];
        r.push(process_input(a, k, color));
        i += 1;
    }
    r
}

} // verus!

//! Tuning constants of the simulation.
//!
//! Lengths, velocities and unit-vector components are fixed-point
//! integers scaled by 1000 (milli-units). Masses and restitutions are
//! scaled the same way, so a mass of 0.05 is stored as 50.

use vstd::prelude::*;

verus! {

/// The fixed-point scale: one unit is stored as 1000.
pub const UNIT_MILLI: i64 = 1000;

/// Torque applied per full stick deflection: torque is `-turn * 5000`.
pub const TURN_POWER: i64 = 5000;

/// Thrust force per full trigger pull: force is `forward * thrust * 250`.
pub const THRUST_POWER: i64 = 250;

/// Muzzle speed added along the ship's forward vector when firing.
pub const BULLET_SPEED: i64 = 300;

/// Half of the arena's width: x spans [-640, 640] units.
pub const ARENA_HALF_WIDTH_MILLI: i64 = 640_000;

/// Half of the arena's height: y spans [-360, 360] units.
pub const ARENA_HALF_HEIGHT_MILLI: i64 = 360_000;

/// Half of the horizontal span over which new ships spawn: the full
/// width of the arena.
pub const SPAWN_X_SPAN_MILLI: i64 = ARENA_HALF_WIDTH_MILLI;

/// The fixed ordinate at which new ships spawn, near the lower edge.
pub const SPAWN_Y_MILLI: i64 = -250_000;

/// Collision radius of a ship (22 units).
pub const SHIP_RADIUS_MILLI: i64 = 22_000;

/// Collision radius of a projectile (4 units).
pub const BULLET_RADIUS_MILLI: i64 = 4_000;

/// Mass of a ship (1.0).
pub const SHIP_MASS_MILLI: i64 = 1_000;

/// Mass of a projectile (0.05), light enough to barely perturb a ship.
pub const BULLET_MASS_MILLI: i64 = 50;

/// Restitution of ships and projectiles (1.5): bounces gain energy.
pub const RESTITUTION_MILLI: i64 = 1_500;

/// Angular damping of a ship (8.0), so unactuated spin decays.
pub const SHIP_ANGULAR_DAMPING_MILLI: i64 = 8_000;

/// Angular damping of a projectile (0.0): its spin is left alone.
pub const BULLET_ANGULAR_DAMPING_MILLI: i64 = 0;

/// Friction of ships and projectiles (0.0): contacts do not grind.
pub const FRICTION_MILLI: i64 = 0;

/// Linear damping of ships and projectiles (0.0): thrust glides and
/// shots keep their speed.
pub const LINEAR_DAMPING_MILLI: i64 = 0;

/// Deadzone of the analog turn axis (0.1).
pub const TURN_DEADZONE_MILLI: i64 = 100;

} // verus!

//! Simulation core of a local-multiplayer 2D space-combat arena.
//!
//! Each simulation tick turns raw per-device input into physics actuation
//! and entity lifecycle commands: device join handling, input-to-force
//! translation, projectile spawning, and toroidal boundary wraparound.
//! Rigid-body integration, collision handling and rendering belong to an
//! external engine that consumes the commands this core emits.
//!
//! All quantities are exact fixed-point integers: lengths, velocities and
//! unit-vector components carry a scale of 1000 (milli-units), so the
//! arena half-width of 640 units is stored as 640_000.

mod arena;
mod color;
mod input;
mod join;
mod laws;
mod params;
mod state;
mod vec2;

pub use arena::wrap_coord;
pub use arena::wrap_pos;
pub use arena::wrap_position;
pub use arena::wraparound;
pub use color::PlayerColor;
pub use input::ActionInput;
pub use input::Actuation;
pub use input::ProjectileSpawn;
pub use input::ShipKinematics;
pub use input::bullet_velocity;
pub use input::force_of;
pub use input::process_input;
pub use input::actuation_of;
pub use input::input_ok;
pub use input::input_tick;
pub use input::projectile_of;
pub use input::shoot_rising_edge;
pub use input::torque_of;
pub use join::DeviceButtons;
pub use join::JoinOutcome;
pub use join::ShipSpawn;
pub use join::count_joined;
pub use join::join_device;
pub use join::join_device_at;
pub use join::join_gesture;
pub use join::join_model;
pub use join::ControlBinding;
pub use join::PadAxis;
pub use join::PadButton;
pub use join::binding_of;
pub use join::control_binding;
pub use join::lemma_join_model_wf;
pub use join::tick_model;
pub use join::join_tick;
pub use join::random_spawn_x;
pub use laws::lemma_distinct_colors;
pub use laws::lemma_join_idempotent;
pub use state::colors_unique;
pub use state::devices_unique;
pub use state::joined;
pub use state::palette_unassigned;
pub use state::palette_unique;
pub use state::state_wf;
pub use color::fresh_palette;
pub use color::starting_palette;
pub use params::ARENA_HALF_HEIGHT_MILLI;
pub use params::ARENA_HALF_WIDTH_MILLI;
pub use params::BULLET_ANGULAR_DAMPING_MILLI;
pub use params::BULLET_MASS_MILLI;
pub use params::BULLET_RADIUS_MILLI;
pub use params::BULLET_SPEED;
pub use params::FRICTION_MILLI;
pub use params::LINEAR_DAMPING_MILLI;
pub use params::RESTITUTION_MILLI;
pub use params::SHIP_ANGULAR_DAMPING_MILLI;
pub use params::SHIP_MASS_MILLI;
pub use params::SHIP_RADIUS_MILLI;
pub use params::SPAWN_X_SPAN_MILLI;
pub use params::SPAWN_Y_MILLI;
pub use params::THRUST_POWER;
pub use params::TURN_DEADZONE_MILLI;
pub use params::TURN_POWER;
pub use params::UNIT_MILLI;
pub use state::Player;
pub use state::SimulationState;
pub use state::StateModel;
pub use vec2::Vec2i;

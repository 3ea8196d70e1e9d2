use arena_core::ActionInput;
use arena_core::DeviceButtons;
use arena_core::JoinOutcome;
use arena_core::PadAxis;
use arena_core::PadButton;
use arena_core::PlayerColor;
use arena_core::ShipKinematics;
use arena_core::SimulationState;
use arena_core::control_binding;
use arena_core::Vec2i;
use arena_core::fresh_palette;
use arena_core::join_device;
use arena_core::join_device_at;
use arena_core::join_tick;
use arena_core::process_input;
use arena_core::wrap_position;
use arena_core::wraparound;

fn gesture(device: u64) -> DeviceButtons {
    DeviceButtons { device, left_trigger: true, right_trigger: true }
}

fn idle_actions() -> ActionInput {
    ActionInput {
        turn_held: false,
        turn_value: 0,
        thrust_held: false,
        thrust_value: 0,
        shoot_held: false,
        shoot_was_held: false,
    }
}

fn straight_up_ship() -> ShipKinematics {
    ShipKinematics {
        forward: Vec2i { x: 0, y: 1000 },
        position: Vec2i::zero(),
        velocity: Vec2i::zero(),
    }
}

#[test]
fn starting_stock_is_the_four_colors() {
    let palette = fresh_palette();
    assert_eq!(
        palette,
        vec![PlayerColor::Yellow, PlayerColor::Blue, PlayerColor::Green, PlayerColor::Red]
    );
}

#[test]
fn same_tick_joins_get_distinct_colors() {
    let mut s = SimulationState::new();
    let devices = vec![gesture(1), gesture(2)];
    let outcomes = join_tick(&mut s, &devices);
    assert_eq!(outcomes.len(), 2);
    assert!(matches!(outcomes[0], JoinOutcome::Joined(_)));
    assert!(matches!(outcomes[1], JoinOutcome::Joined(_)));
    assert_eq!(s.player_count(), 2);
    assert_ne!(s.players[0].color, s.players[1].color);
    // the palette shrank by exactly the number of successful joins
    assert_eq!(s.colors_left(), 2);
}

#[test]
fn rejoining_a_device_changes_nothing() {
    let mut s = SimulationState::new();
    let first = join_device_at(&mut s, gesture(9), 0);
    assert!(matches!(first, JoinOutcome::Joined(_)));
    assert_eq!(s.players.len(), 1);
    assert_eq!(s.palette.len(), 3);
    let ship = s.players[0].ship;

    // a later tick: same device, same gesture
    let second = join_device_at(&mut s, gesture(9), 100_000);
    assert_eq!(second, JoinOutcome::AlreadyJoined);
    assert_eq!(s.players.len(), 1);
    assert_eq!(s.palette.len(), 3);
    assert_eq!(s.players[0].ship, ship);
}

#[test]
fn duplicate_device_in_one_tick_joins_once() {
    let mut s = SimulationState::new();
    let devices = vec![gesture(5), gesture(5)];
    let outcomes = join_tick(&mut s, &devices);
    assert!(matches!(outcomes[0], JoinOutcome::Joined(_)));
    assert_eq!(outcomes[1], JoinOutcome::AlreadyJoined);
    assert_eq!(s.players.len(), 1);
    assert_eq!(s.palette.len(), 3);
}

#[test]
fn no_gesture_no_join() {
    let mut s = SimulationState::new();
    let half_held = DeviceButtons { device: 3, left_trigger: true, right_trigger: false };
    let r = join_device(&mut s, half_held);
    assert_eq!(r, JoinOutcome::NoGesture);
    assert_eq!(s.players.len(), 0);
    assert_eq!(s.palette.len(), 4);
}

#[test]
fn four_joins_pop_the_stock_back_to_front_then_full() {
    let mut s = SimulationState::new();
    let expected = [
        PlayerColor::Red,
        PlayerColor::Green,
        PlayerColor::Blue,
        PlayerColor::Yellow,
    ];
    for (i, want) in expected.iter().enumerate() {
        let r = join_device(&mut s, gesture(i as u64));
        match r {
            JoinOutcome::Joined(spawn) => {
                assert_eq!(spawn.color, *want);
                assert_eq!(spawn.device, i as u64);
            }
            other => panic!("join {} came to {:?}", i, other),
        }
    }
    assert_eq!(s.player_count(), 4);
    assert_eq!(s.colors_left(), 0);

    // the fifth join is refused, not a crash, and touches nobody
    let r5 = join_device(&mut s, gesture(99));
    assert_eq!(r5, JoinOutcome::ArenaFull);
    assert_eq!(s.players.len(), 4);
    for (i, want) in expected.iter().enumerate() {
        assert_eq!(s.players[i].color, *want);
    }
}

#[test]
fn spawned_ships_sit_on_the_spawn_row() {
    let mut s = SimulationState::new();
    for i in 0..4u64 {
        match join_device(&mut s, gesture(i)) {
            JoinOutcome::Joined(spawn) => {
                assert!(-640_000 <= spawn.position.x && spawn.position.x < 640_000);
                assert_eq!(spawn.position.y, -250_000);
                assert_eq!(spawn.velocity, Vec2i { x: 0, y: 0 });
                assert_eq!(spawn.angular_velocity_milli, 0);
                assert_eq!(spawn.radius_milli, 22_000);
                assert_eq!(spawn.mass_milli, 1_000);
                assert_eq!(spawn.restitution_milli, 1_500);
                assert_eq!(spawn.friction_milli, 0);
                assert_eq!(spawn.linear_damping_milli, 0);
                assert_eq!(spawn.angular_damping_milli, 8_000);
            }
            other => panic!("join {} came to {:?}", i, other),
        }
    }
}

#[test]
fn held_turn_sets_torque_released_turn_resets_it() {
    let mut a = idle_actions();
    a.turn_held = true;
    a.turn_value = 500; // stick half right
    let r = process_input(a, straight_up_ship(), PlayerColor::Red);
    assert_eq!(r.torque, -2_500_000); // -0.5 * 5000, milli-scaled

    a.turn_value = -1000; // stick full left
    let r = process_input(a, straight_up_ship(), PlayerColor::Red);
    assert_eq!(r.torque, 5_000_000);

    a.turn_held = false;
    let r = process_input(a, straight_up_ship(), PlayerColor::Red);
    assert_eq!(r.torque, 0);
}

#[test]
fn held_thrust_sets_force_released_thrust_resets_it() {
    let mut a = idle_actions();
    a.thrust_held = true;
    a.thrust_value = 1000; // full pull
    let r = process_input(a, straight_up_ship(), PlayerColor::Red);
    // forward * 1.0 * 250, micro-scaled
    assert_eq!(r.force, Vec2i { x: 0, y: 250_000_000 });

    a.thrust_value = 400;
    let mut k = straight_up_ship();
    k.forward = Vec2i { x: 600, y: -800 };
    let r = process_input(a, k, PlayerColor::Blue);
    assert_eq!(r.force, Vec2i { x: 60_000_000, y: -80_000_000 });

    a.thrust_held = false;
    let r = process_input(a, k, PlayerColor::Blue);
    assert_eq!(r.force, Vec2i { x: 0, y: 0 });
}

#[test]
fn shoot_rising_edge_spawns_one_led_projectile() {
    let mut a = idle_actions();
    a.shoot_held = true;
    a.shoot_was_held = false;
    let k = ShipKinematics {
        forward: Vec2i { x: 0, y: 1000 },
        position: Vec2i { x: 12_000, y: -34_000 },
        velocity: Vec2i { x: 10_000, y: 2_000 },
    };
    let r = process_input(a, k, PlayerColor::Blue);
    let spawn = r.projectile.expect("a rising edge must spawn");
    assert_eq!(spawn.position, k.position);
    assert_eq!(spawn.forward, k.forward); // the ship's orientation is copied
    // forward * 300 on top of the carrier velocity
    assert_eq!(spawn.velocity, Vec2i { x: 10_000, y: 302_000 });
    assert_eq!(spawn.angular_velocity_milli, 0);
    assert_eq!(spawn.color, PlayerColor::Blue); // the firing ship's color
    assert_eq!(spawn.radius_milli, 4_000);
    assert_eq!(spawn.mass_milli, 50);
    assert_eq!(spawn.restitution_milli, 1_500);
    assert_eq!(spawn.friction_milli, 0);
    assert_eq!(spawn.linear_damping_milli, 0);
    assert_eq!(spawn.angular_damping_milli, 0);
    assert!(spawn.sensor); // overlap detection only, no hard response

    // holding the button is no new rising edge: nothing further spawns
    a.shoot_was_held = true;
    let r = process_input(a, k, PlayerColor::Blue);
    assert!(r.projectile.is_none());
}

#[test]
fn input_tick_actuates_every_ship_independently() {
    let mut turning = idle_actions();
    turning.turn_held = true;
    turning.turn_value = 1000;
    let mut firing = idle_actions();
    firing.shoot_held = true;
    let ships = vec![
        (turning, straight_up_ship(), PlayerColor::Green),
        (firing, straight_up_ship(), PlayerColor::Yellow),
    ];
    let r = arena_core::input_tick(&ships);
    assert_eq!(r.len(), 2);
    assert_eq!(r[0].torque, -5_000_000);
    assert!(r[0].projectile.is_none());
    assert_eq!(r[1].torque, 0);
    assert_eq!(r[1].force, Vec2i { x: 0, y: 0 });
    let spawn = r[1].projectile.expect("a rising edge must spawn");
    assert_eq!(spawn.velocity, Vec2i { x: 0, y: 300_000 });
    assert_eq!(spawn.color, PlayerColor::Yellow);
}

#[test]
fn joined_devices_are_bound_to_the_fixed_controls() {
    let binding = control_binding(42);
    assert_eq!(binding.device, 42);
    assert_eq!(binding.turn_axis, PadAxis::LeftStickX);
    assert_eq!(binding.turn_deadzone_milli, 100); // 0.1 deadzone
    assert_eq!(binding.thrust_button, PadButton::LeftTrigger2);
    assert_eq!(binding.shoot_button, PadButton::East);
}

#[test]
fn wraparound_teleports_to_the_opposite_edge_exactly() {
    // entering the tick at x = 641 exits at x = -640, not clamped to 640
    let r = wrap_position(Vec2i { x: 641_000, y: 0 });
    assert_eq!(r, Vec2i { x: -640_000, y: 0 });

    let r = wrap_position(Vec2i { x: -640_001, y: 360_001 });
    assert_eq!(r, Vec2i { x: 640_000, y: -360_000 });

    // a position exactly on a boundary is kept
    let r = wrap_position(Vec2i { x: 640_000, y: -360_000 });
    assert_eq!(r, Vec2i { x: 640_000, y: -360_000 });
}

#[test]
fn wraparound_bounds_every_entity() {
    let mut positions = vec![
        Vec2i { x: 641_000, y: 0 },
        Vec2i { x: -999_999, y: 360_001 },
        Vec2i { x: 123_456, y: -360_001 },
        Vec2i { x: 0, y: 0 },
    ];
    wraparound(&mut positions);
    assert_eq!(positions.len(), 4);
    for p in &positions {
        assert!(-640_000 <= p.x && p.x <= 640_000);
        assert!(-360_000 <= p.y && p.y <= 360_000);
    }
    assert_eq!(positions[0], Vec2i { x: -640_000, y: 0 });
    assert_eq!(positions[1], Vec2i { x: 640_000, y: -360_000 });
    assert_eq!(positions[2], Vec2i { x: 123_456, y: 360_000 });
    assert_eq!(positions[3], Vec2i { x: 0, y: 0 });
}

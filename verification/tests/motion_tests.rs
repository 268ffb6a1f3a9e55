use shooting_gallery::sim::Sim;
use shooting_gallery::world::{Entity, Role, World};

fn target_x_with_speed(sim: &Sim, speed: i32) -> i32 {
    for e in sim.world.entities.iter() {
        if let Role::Target { speed: s, .. } = e.role {
            if s == speed {
                return e.x;
            }
        }
    }
    panic!("no target with that speed");
}

#[test]
fn slow_target_wraps_exactly_once() {
    // The slow duck moves 3 units per tick from x = -300. It first exceeds
    // 650 on tick 317 (x would be 651) and only then resets to -650: on tick
    // 316 it sits at 648, untouched by any wrap.
    let mut sim = Sim::new();
    assert_eq!(target_x_with_speed(&sim, 3), -300);
    for _ in 0..316 {
        sim.tick_fast();
    }
    assert_eq!(target_x_with_speed(&sim, 3), -300 + 3 * 316);
    assert_eq!(target_x_with_speed(&sim, 3), 648);
    sim.tick_fast();
    assert_eq!(target_x_with_speed(&sim, 3), -650);
}

fn lone_world(e: Entity) -> World {
    let mut w = World::new();
    w.spawn(e);
    w
}

#[test]
fn target_wrap_is_a_hard_reset() {
    // 648 + 3 = 651 > 650: reset to -650. 647 + 3 = 650: no wrap at the bound
    // itself.
    let role = Role::Target { speed: 3, points: 10, hit_box: 99, is_up_down: false, start_y: 0 };
    let mut w = lone_world(Entity { role, x: 648, y: 50, sprite: 2 });
    w.animate_targets();
    assert_eq!(w.entities[0].x, -650);
    let mut w = lone_world(Entity { role, x: 647, y: 50, sprite: 2 });
    w.animate_targets();
    assert_eq!(w.entities[0].x, 650);
}

#[test]
fn stick_mirrors_horizontal_wrap_only() {
    let mut w = lone_world(Entity { role: Role::TargetStick { speed: 15 }, x: 640, y: -35, sprite: 3 });
    w.animate_targets();
    assert_eq!((w.entities[0].x, w.entities[0].y), (-650, -35));
}

#[test]
fn up_down_target_alternates_between_start_and_half() {
    // The oscillation is a binary alternation: on the tick where the target
    // sits at its reference height it drops to half that height, otherwise it
    // returns to the reference height.
    let role = Role::Target { speed: 0, points: 250, hit_box: 128, is_up_down: true, start_y: 120 };
    let mut w = lone_world(Entity { role, x: 0, y: 120, sprite: 8 });
    w.animate_targets();
    assert_eq!(w.entities[0].y, 60);
    w.animate_targets();
    assert_eq!(w.entities[0].y, 120);
    w.animate_targets();
    assert_eq!(w.entities[0].y, 60);
}

#[test]
fn cloud_drifts_right_and_wraps() {
    let mut w = lone_world(Entity { role: Role::Cloud, x: 649, y: 220, sprite: 9 });
    w.animate_stall();
    assert_eq!(w.entities[0].x, 650);
    w.animate_stall();
    assert_eq!(w.entities[0].x, -650);
}

#[test]
fn back_wave_drifts_left_and_wraps() {
    let mut w = lone_world(Entity { role: Role::BackWave, x: -659, y: -90, sprite: 7 });
    w.animate_stall();
    assert_eq!(w.entities[0].x, 660);
    let mut w = lone_world(Entity { role: Role::BackWave, x: -658, y: -90, sprite: 7 });
    w.animate_stall();
    assert_eq!(w.entities[0].x, -660);
}

#[test]
fn front_wave_drifts_right_and_wraps() {
    let mut w = lone_world(Entity { role: Role::FrontWave, x: 659, y: -120, sprite: 8 });
    w.animate_stall();
    assert_eq!(w.entities[0].x, -655);
    let mut w = lone_world(Entity { role: Role::FrontWave, x: 658, y: -120, sprite: 8 });
    w.animate_stall();
    assert_eq!(w.entities[0].x, 660);
}

#[test]
fn nothing_moves_after_game_over() {
    let mut sim = Sim::new();
    for _ in 0..91 {
        sim.tick_second();
    }
    assert!(matches!(sim.state, shooting_gallery::game::GameState::GameOver));
    let before: Vec<(i32, i32)> = sim.world.entities.iter().map(|e| (e.x, e.y)).collect();
    sim.tick_fast();
    let after: Vec<(i32, i32)> = sim.world.entities.iter().map(|e| (e.x, e.y)).collect();
    assert_eq!(before, after);
}

use shooting_gallery::game::GameState;
use shooting_gallery::sim::Sim;
use shooting_gallery::world::{Role, ScoreKind, TimeKind, World};

fn non_camera_count(w: &World) -> usize {
    w.entities.iter().filter(|e| !matches!(e.role, Role::Camera)).count()
}

fn clock_sprite(sim: &Sim, kind: TimeKind) -> u32 {
    for e in sim.world.entities.iter() {
        if let Role::Clock { kind: k } = e.role {
            if k == kind {
                return e.sprite;
            }
        }
    }
    panic!("no clock sprite of that kind");
}

fn score_sprite(sim: &Sim, kind: ScoreKind) -> u32 {
    for e in sim.world.entities.iter() {
        if let Role::ScoreDigit { kind: k } = e.role {
            if k == kind {
                return e.sprite;
            }
        }
    }
    panic!("no score sprite of that kind");
}

fn sprite_of(sim: &Sim, role: Role) -> u32 {
    for e in sim.world.entities.iter() {
        if e.role == role {
            return e.sprite;
        }
    }
    panic!("no entity with that role");
}

#[test]
fn fresh_game_starts_playing_with_full_round() {
    let sim = Sim::new();
    assert!(matches!(sim.state, GameState::Playing));
    assert_eq!(sim.game.score, 0);
    assert_eq!(sim.game.time_left, 90);
    assert_eq!(sim.game.ammo, 3);
    // Two cameras plus 23 scenery movers, rifle and crosshair, 5 targets and
    // 4 sticks, 4 clock and 4 score sprites.
    assert_eq!(sim.world.entities.len(), 44);
    assert_eq!(non_camera_count(&sim.world), 42);
    // The HUD starts out reading 1:30 and 0000.
    assert_eq!(clock_sprite(&sim, TimeKind::Minute), 1);
    assert_eq!(clock_sprite(&sim, TimeKind::Colon), 10);
    assert_eq!(clock_sprite(&sim, TimeKind::Ten), 3);
    assert_eq!(clock_sprite(&sim, TimeKind::Second), 0);
    assert_eq!(score_sprite(&sim, ScoreKind::Thousand), 0);
    assert_eq!(score_sprite(&sim, ScoreKind::One), 0);
}

#[test]
fn countdown_runs_out_into_game_over() {
    // With 90 seconds on the clock, ninety ticks drain the countdown to zero
    // while the game keeps Playing; the tick after that sees the zero,
    // transitions to GameOver, hands out the final score, and resets score
    // and countdown for the next round.
    let mut sim = Sim::new();
    for tick in 1..=90usize {
        let finished = sim.tick_second();
        assert!(finished.is_none());
        assert!(matches!(sim.state, GameState::Playing));
        assert_eq!(sim.game.time_left, 90 - tick);
    }
    let finished = sim.tick_second();
    assert_eq!(finished, Some(0));
    assert!(matches!(sim.state, GameState::GameOver));
    assert_eq!(sim.game.score, 0);
    assert_eq!(sim.game.time_left, 90);
    // Leaving Playing tore every non-camera entity down.
    assert_eq!(non_camera_count(&sim.world), 0);
    assert_eq!(sim.world.entities.len(), 2);
}

#[test]
fn clock_sprites_follow_the_countdown() {
    let mut sim = Sim::new();
    sim.tick_second();
    // 89 seconds left: the display reads 1:29.
    assert_eq!(clock_sprite(&sim, TimeKind::Minute), 1);
    assert_eq!(clock_sprite(&sim, TimeKind::Ten), 2);
    assert_eq!(clock_sprite(&sim, TimeKind::Second), 9);
    for _ in 0..30 {
        sim.tick_second();
    }
    // 59 seconds left: the minutes flag drops, the display reads 0:59.
    assert_eq!(clock_sprite(&sim, TimeKind::Minute), 0);
    assert_eq!(clock_sprite(&sim, TimeKind::Ten), 5);
    assert_eq!(clock_sprite(&sim, TimeKind::Second), 9);
    // The colon sprite never changes.
    assert_eq!(clock_sprite(&sim, TimeKind::Colon), 10);
}

#[test]
fn mouse_tracking_centers_screen_position() {
    let mut sim = Sim::new();
    // Screen (640, 543) is world (0, 183) on the fixed 1280x720 viewport.
    sim.mouse_moved(640, 543);
    assert_eq!((sim.game.last_mouse.x, sim.game.last_mouse.y), (0, 183));
    let mut crosshair = None;
    let mut rifle = None;
    for e in sim.world.entities.iter() {
        match e.role {
            Role::Crosshair => crosshair = Some((e.x, e.y)),
            Role::Rifle => rifle = Some((e.x, e.y)),
            _ => {}
        }
    }
    assert_eq!(crosshair, Some((0, 183)));
    assert_eq!(rifle, Some((100, -17)));
}

#[test]
fn shot_scores_every_hit_target() {
    // World (-300, 85) lies inside both the slow duck's box (center
    // (-300, 50), side 99) and the white target's box (center (-300, 120),
    // side 128): one press scores both, 10 + 250 points.
    let mut sim = Sim::new();
    sim.mouse_moved(340, 445);
    assert_eq!((sim.game.last_mouse.x, sim.game.last_mouse.y), (-300, 85));
    sim.mouse_button(true, true);
    assert_eq!(sim.game.score, 260);
    // The rifle and crosshair switch to their fired frames.
    assert_eq!(sprite_of(&sim, Role::Rifle), 1);
    assert_eq!(sprite_of(&sim, Role::Crosshair), 14);
    // Releasing the button restores the idle frames and scores nothing.
    sim.mouse_button(true, false);
    assert_eq!(sim.game.score, 260);
    assert_eq!(sprite_of(&sim, Role::Rifle), 0);
    assert_eq!(sprite_of(&sim, Role::Crosshair), 13);
}

#[test]
fn single_hit_scores_its_target_only() {
    // World (0, 183) is the colored round target's center and inside no other
    // hit box: 25 points.
    let mut sim = Sim::new();
    sim.mouse_moved(640, 543);
    sim.mouse_button(true, true);
    assert_eq!(sim.game.score, 25);
}

#[test]
fn missed_shot_scores_nothing_but_fires() {
    let mut sim = Sim::new();
    sim.mouse_moved(20, 30);
    sim.mouse_button(true, true);
    assert_eq!(sim.game.score, 0);
    assert_eq!(sprite_of(&sim, Role::Rifle), 1);
    assert_eq!(sprite_of(&sim, Role::Crosshair), 14);
}

#[test]
fn non_left_press_restores_idle_frames() {
    let mut sim = Sim::new();
    sim.mouse_moved(640, 543);
    sim.mouse_button(true, true);
    sim.mouse_button(false, true);
    assert_eq!(sim.game.score, 25);
    assert_eq!(sprite_of(&sim, Role::Rifle), 0);
    assert_eq!(sprite_of(&sim, Role::Crosshair), 13);
}

#[test]
fn score_display_follows_the_score() {
    let mut sim = Sim::new();
    sim.mouse_moved(340, 445);
    sim.mouse_button(true, true);
    sim.refresh_score_display();
    assert_eq!(score_sprite(&sim, ScoreKind::Thousand), 0);
    assert_eq!(score_sprite(&sim, ScoreKind::Hundred), 2);
    assert_eq!(score_sprite(&sim, ScoreKind::Ten), 6);
    assert_eq!(score_sprite(&sim, ScoreKind::One), 0);
}

#[test]
fn final_score_is_handed_out_then_reset() {
    let mut sim = Sim::new();
    sim.mouse_moved(640, 543);
    sim.mouse_button(true, true);
    assert_eq!(sim.game.score, 25);
    let mut finished = None;
    for _ in 0..=90 {
        finished = sim.tick_second();
    }
    assert_eq!(finished, Some(25));
    assert_eq!(sim.game.score, 0);
    assert_eq!(sim.game.time_left, 90);
}

#[test]
fn restart_spawns_a_fresh_round() {
    let mut sim = Sim::new();
    for _ in 0..=90 {
        sim.tick_second();
    }
    assert!(matches!(sim.state, GameState::GameOver));
    // Without the restart key nothing happens.
    sim.restart(false);
    assert!(matches!(sim.state, GameState::GameOver));
    assert_eq!(sim.world.entities.len(), 2);
    // The restart key re-enters Playing with a full fresh round.
    sim.restart(true);
    assert!(matches!(sim.state, GameState::Playing));
    assert_eq!(sim.world.entities.len(), 44);
    assert_eq!(sim.game.score, 0);
    assert_eq!(sim.game.time_left, 90);
}

#[test]
fn restart_key_does_nothing_while_playing() {
    let mut sim = Sim::new();
    sim.restart(true);
    assert!(matches!(sim.state, GameState::Playing));
    assert_eq!(sim.world.entities.len(), 44);
}

#[test]
fn events_do_nothing_after_game_over() {
    let mut sim = Sim::new();
    for _ in 0..=90 {
        sim.tick_second();
    }
    let entities_before = sim.world.entities.len();
    sim.mouse_moved(640, 543);
    sim.mouse_button(true, true);
    sim.refresh_score_display();
    let ticked = sim.tick_second();
    assert!(ticked.is_none());
    assert_eq!(sim.game.score, 0);
    assert_eq!(sim.game.time_left, 90);
    assert_eq!(sim.world.entities.len(), entities_before);
}

#[test]
fn firing_never_consumes_ammo() {
    // The ammo counter is reserved: firing is unlimited and leaves it alone.
    let mut sim = Sim::new();
    sim.mouse_moved(640, 543);
    for _ in 0..5 {
        sim.mouse_button(true, true);
        sim.mouse_button(true, false);
    }
    assert_eq!(sim.game.ammo, 3);
    assert_eq!(sim.game.score, 5 * 25);
}

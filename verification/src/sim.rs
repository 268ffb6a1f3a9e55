use vstd::prelude::*;

use crate::game::{Game, GameState, TOTAL_TIME, initial_game};
use crate::hud::{clock_step, score_step, shot_step};
use crate::input::{mouse_step, screen_to_world};
use crate::motion::{scenery_step, target_step};
use crate::scoring::{gained_points, hit_points_sum};
use crate::spawn::playing_entities;
use crate::world::{Entity, Role, World, camera_only};

verus! {

/// The whole simulation: the current state of the game flow, the single game
/// record, and the arena of live entities. The host shell owns the clocks and
/// the event sources; it calls one method here per event or tick, in a fixed
/// single-threaded pass, and renders from the arena afterwards.
pub struct Sim {
    pub state: GameState,
    pub game: Game,
    pub world: World,
}

/// The world camera and the interface camera, spawned once at startup: the
/// only entities that survive teardown.
pub open spec fn camera_entities() -> Seq<Entity> {
    seq![
        Entity { role: Role::Camera, x: 0, y: 0, sprite: 0 },
        Entity { role: Role::Camera, x: 0, y: 0, sprite: 0 },
    ]
}

impl Sim {
    pub open spec fn wf(self) -> bool {
        self.world.wf()
    }

    /// Start the game: a fresh game record, the two cameras, and the Playing
    /// state with everything its entry spawns.
    pub fn new() -> (sim: Sim)
        ensures
            sim.wf(),
            sim.state is Playing,
            sim.game == initial_game(),
            sim.world.entities@ == camera_entities() + playing_entities(),
    {
        let mut world = World::new();
        world.spawn(Entity { role: Role::Camera, x: 0, y: 0, sprite: 0 });
        world.spawn(Entity { role: Role::Camera, x: 0, y: 0, sprite: 0 });
        world.enter_playing();
        proof {
            assert(world.entities@ =~= camera_entities() + playing_entities());
        }
        Sim { state: GameState::Playing, game: Game::new(), world }
    }

    /// One tick of the one-second clock; a no-op outside Playing. When the
    /// countdown has already reached zero the game flow moves to GameOver:
    /// leaving Playing destroys every non-camera entity, and entering
    /// GameOver hands the final score out for display and resets score and
    /// countdown for the next round. Otherwise the countdown falls by one
    /// second and the clock sprites are recomputed from the new value.
    pub fn tick_second(&mut self) -> (finished: Option<usize>)
        requires
            old(self).wf(),
        ensures
            final(self).wf(),
            !(old(self).state is Playing) ==> *final(self) == *old(self) && finished is None,
            old(self).state is Playing && old(self).game.time_left == 0 ==> {
                &&& finished == Some(old(self).game.score)
                &&& final(self).state is GameOver
                &&& final(self).game.score == 0
                &&& final(self).game.time_left == TOTAL_TIME
                &&& final(self).game.ammo == old(self).game.ammo
                &&& final(self).game.last_mouse == old(self).game.last_mouse
                &&& final(self).world.entities@ == camera_only(old(self).world.entities@)
            },
            old(self).state is Playing && old(self).game.time_left > 0 ==> {
                &&& finished is None
                &&& final(self).state is Playing
                &&& final(self).game.time_left == old(self).game.time_left - 1
                &&& final(self).game.score == old(self).game.score
                &&& final(self).game.ammo == old(self).game.ammo
                &&& final(self).game.last_mouse == old(self).game.last_mouse
                &&& final(self).world.entities@.len() == old(self).world.entities@.len()
                &&& forall|i: int|
                    0 <= i < old(self).world.entities@.len() ==> final(self).world.entities@[i]
                        == clock_step(
                        #[trigger] old(self).world.entities@[i],
                        (old(self).game.time_left - 1) as nat,
                    )
            },
    {
        match self.state {
            GameState::GameOver => None,
            GameState::Playing => {
                if self.game.time_left == 0 {
                    self.world.teardown();
                    let finished = self.game.score;
                    self.game.score = 0;
                    self.game.time_left = TOTAL_TIME;
                    self.state = GameState::GameOver;
                    Some(finished)
                } else {
                    self.game.time_left = self.game.time_left - 1;
                    self.world.refresh_clock(self.game.time_left);
                    None
                }
            },
        }
    }

    /// The restart input; a no-op unless the game is over and the restart key
    /// was just pressed. Leaving GameOver destroys every non-camera entity —
    /// the final-score overlay among them — and entering Playing spawns a
    /// fresh stall, rifle, targets and HUD. Score and countdown were already
    /// reset on entering GameOver.
    pub fn restart(&mut self, restart_pressed: bool)
        requires
            old(self).wf(),
        ensures
            final(self).wf(),
            !(old(self).state is GameOver && restart_pressed) ==> *final(self) == *old(self),
            old(self).state is GameOver && restart_pressed ==> {
                &&& final(self).state is Playing
                &&& final(self).game == old(self).game
                &&& final(self).world.entities@ == camera_only(old(self).world.entities@)
                    + playing_entities()
            },
    {
        match self.state {
            GameState::Playing => {},
            GameState::GameOver => {
                if restart_pressed {
                    self.world.teardown();
                    self.world.enter_playing();
                    self.state = GameState::Playing;
                }
            },
        }
    }

    /// One tick of the fast clock: while Playing, the ambient scenery drifts
    /// and wraps, then every target and stick advances, wraps and oscillates.
    /// Outside Playing nothing moves.
    pub fn tick_fast(&mut self)
        requires
            old(self).wf(),
        ensures
            final(self).wf(),
            !(old(self).state is Playing) ==> *final(self) == *old(self),
            old(self).state is Playing ==> {
                &&& final(self).state == old(self).state
                &&& final(self).game == old(self).game
                &&& final(self).world.entities@.len() == old(self).world.entities@.len()
                &&& forall|i: int|
                    0 <= i < old(self).world.entities@.len() ==> final(self).world.entities@[i]
                        == target_step(scenery_step(#[trigger] old(self).world.entities@[i]))
            },
    {
        match self.state {
            GameState::GameOver => {},
            GameState::Playing => {
                self.world.animate_stall();
                self.world.animate_targets();
            },
        }
    }

    /// A cursor-move event carrying the absolute screen position. While
    /// Playing, the position is centered into world coordinates, the
    /// crosshair jumps to it, the rifle keeps its fixed offset from it, and
    /// the game record remembers it as the last known cursor position.
    pub fn mouse_moved(&mut self, screen_x: i32, screen_y: i32)
        requires
            old(self).wf(),
            screen_x >= i32::MIN + 640,
            screen_y >= i32::MIN + 560,
        ensures
            final(self).wf(),
            !(old(self).state is Playing) ==> *final(self) == *old(self),
            old(self).state is Playing ==> {
                &&& final(self).state == old(self).state
                &&& final(self).game.last_mouse.x == screen_x - 640
                &&& final(self).game.last_mouse.y == screen_y - 360
                &&& final(self).game.score == old(self).game.score
                &&& final(self).game.time_left == old(self).game.time_left
                &&& final(self).game.ammo == old(self).game.ammo
                &&& final(self).world.entities@.len() == old(self).world.entities@.len()
                &&& forall|i: int|
                    0 <= i < old(self).world.entities@.len() ==> final(self).world.entities@[i]
                        == mouse_step(
                        #[trigger] old(self).world.entities@[i],
                        screen_x - 640,
                        screen_y - 360,
                    )
            },
    {
        match self.state {
            GameState::GameOver => {},
            GameState::Playing => {
                let world_pos = screen_to_world(screen_x, screen_y);
                self.world.track_mouse(world_pos);
                self.game.last_mouse = world_pos;
            },
        }
    }

    /// A mouse-button event. While Playing, a left-button press is a shot:
    /// every live target whose hit box contains the last known cursor
    /// position adds its points to the score — simultaneous hits all score,
    /// with no exclusivity and no early exit — and the rifle and crosshair
    /// switch to their fired frames. Any other button event returns them to
    /// their idle frames. Firing never consumes ammunition: the ammo counter
    /// is reserved. Outside Playing the event does nothing.
    pub fn mouse_button(&mut self, left_button: bool, pressed: bool)
        requires
            old(self).wf(),
            old(self).state is Playing && left_button && pressed ==> old(self).game.score
                + hit_points_sum(old(self).world.entities@, old(self).game.last_mouse)
                <= usize::MAX,
        ensures
            final(self).wf(),
            !(old(self).state is Playing) ==> *final(self) == *old(self),
            old(self).state is Playing && left_button && pressed ==> {
                &&& final(self).game.score == old(self).game.score + hit_points_sum(
                    old(self).world.entities@,
                    old(self).game.last_mouse,
                )
                &&& final(self).state == old(self).state
                &&& final(self).game.time_left == old(self).game.time_left
                &&& final(self).game.ammo == old(self).game.ammo
                &&& final(self).game.last_mouse == old(self).game.last_mouse
                &&& final(self).world.entities@.len() == old(self).world.entities@.len()
                &&& forall|i: int|
                    0 <= i < old(self).world.entities@.len() ==> final(self).world.entities@[i]
                        == shot_step(#[trigger] old(self).world.entities@[i], true)
            },
            old(self).state is Playing && !(left_button && pressed) ==> {
                &&& final(self).state == old(self).state
                &&& final(self).game == old(self).game
                &&& final(self).world.entities@.len() == old(self).world.entities@.len()
                &&& forall|i: int|
                    0 <= i < old(self).world.entities@.len() ==> final(self).world.entities@[i]
                        == shot_step(#[trigger] old(self).world.entities@[i], false)
            },
    {
        match self.state {
            GameState::GameOver => {},
            GameState::Playing => {
                if left_button && pressed {
                    let gain = gained_points(&self.world.entities, self.game.last_mouse);
                    self.game.score = self.game.score + gain;
                    self.world.set_shot_sprites(true);
                } else {
                    self.world.set_shot_sprites(false);
                }
            },
        }
    }

    /// The per-frame score display refresh: while Playing, every score digit
    /// sprite is recomputed from the current score. Outside Playing the
    /// digits keep their last value.
    pub fn refresh_score_display(&mut self)
        requires
            old(self).wf(),
        ensures
            final(self).wf(),
            !(old(self).state is Playing) ==> *final(self) == *old(self),
            old(self).state is Playing ==> {
                &&& final(self).state == old(self).state
                &&& final(self).game == old(self).game
                &&& final(self).world.entities@.len() == old(self).world.entities@.len()
                &&& forall|i: int|
                    0 <= i < old(self).world.entities@.len() ==> final(self).world.entities@[i]
                        == score_step(
                        #[trigger] old(self).world.entities@[i],
                        old(self).game.score as nat,
                    )
            },
    {
        match self.state {
            GameState::GameOver => {},
            GameState::Playing => {
                self.world.refresh_score(self.game.score);
            },
        }
    }
}

} // verus!

use vstd::prelude::*;

use crate::world::{Entity, Role, ScoreKind, TimeKind, World};

verus! {

// ---------------------------------------------------------------------------
// What entering the Playing state spawns. Static backdrop sprites (curtains,
// frames, grass, trees, the score label) are rendering configuration owned by
// the host shell; the arena holds every entity the simulation reads or
// writes: the moving scenery, the rifle and crosshair, the targets and their
// sticks, and the HUD digit sprites.
// ---------------------------------------------------------------------------

/// The back water row: eleven tiles, 132 units apart, from -660 to 660.
pub open spec fn back_wave_at(i: int) -> Entity {
    Entity { role: Role::BackWave, x: (-660 + 132 * i) as i32, y: (-90) as i32, sprite: 7 }
}

/// The front water row: ten tiles, 132 units apart, from -620 to 568.
pub open spec fn front_wave_at(i: int) -> Entity {
    Entity { role: Role::FrontWave, x: (-620 + 132 * i) as i32, y: (-120) as i32, sprite: 8 }
}

/// The two drifting clouds.
pub open spec fn cloud_at(x: int, y: int, sprite: u32) -> Entity {
    Entity { role: Role::Cloud, x: x as i32, y: y as i32, sprite }
}

/// Everything the stall setup spawns into the arena, in spawn order.
pub open spec fn stall_entities() -> Seq<Entity> {
    Seq::new(11, |i: int| back_wave_at(i)) + Seq::new(10, |i: int| front_wave_at(i)) + seq![
        cloud_at(-300, 220, 9),
        cloud_at(300, 260, 10),
    ]
}

/// The rifle at its fixed offset from the crosshair, and the crosshair at the
/// world origin, both in their idle frames.
pub open spec fn rifle_entities() -> Seq<Entity> {
    seq![
        Entity { role: Role::Rifle, x: 100, y: (-200) as i32, sprite: 0 },
        Entity { role: Role::Crosshair, x: 0, y: 0, sprite: 13 },
    ]
}

pub open spec fn target_at(
    x: int,
    y: int,
    sprite: u32,
    speed: int,
    points: int,
    hit_box: int,
    is_up_down: bool,
    start_y: int,
) -> Entity {
    Entity {
        role: Role::Target {
            speed: speed as i32,
            points: points as usize,
            hit_box: hit_box as i32,
            is_up_down,
            start_y: start_y as i32,
        },
        x: x as i32,
        y: y as i32,
        sprite,
    }
}

pub open spec fn stick_at(x: int, y: int, sprite: u32, speed: int) -> Entity {
    Entity { role: Role::TargetStick { speed: speed as i32 }, x: x as i32, y: y as i32, sprite }
}

/// The five targets and their four sticks, in spawn order: two ducks on
/// sticks, a colored and a red round target on sticks, and a fast white
/// oscillating target worth the most points.
pub open spec fn target_entities() -> Seq<Entity> {
    seq![
        target_at(-300, 50, 2, 3, 10, 99, false, 0),
        stick_at(-305, -55, 3, 3),
        target_at(300, 70, 7, 15, 20, 99, false, 0),
        stick_at(295, -35, 3, 15),
        target_at(0, 183, 5, 25, 25, 128, false, 0),
        stick_at(0, 60, 4, 25),
        target_at(300, 203, 6, 50, 50, 128, false, 0),
        stick_at(300, 80, 4, 50),
        target_at(-300, 120, 8, 100, 250, 128, true, 120),
    ]
}

pub open spec fn clock_at(x: int, kind: TimeKind, sprite: u32) -> Entity {
    Entity { role: Role::Clock { kind }, x: x as i32, y: 330, sprite }
}

pub open spec fn score_digit_at(x: int, kind: ScoreKind) -> Entity {
    Entity { role: Role::ScoreDigit { kind }, x: x as i32, y: 330, sprite: 0 }
}

/// The HUD: the four clock sprites reading 1:30, and the four score digit
/// sprites reading 0000.
pub open spec fn hud_entities() -> Seq<Entity> {
    seq![
        clock_at(-600, TimeKind::Minute, 1),
        clock_at(-572, TimeKind::Colon, 10),
        clock_at(-544, TimeKind::Ten, 3),
        clock_at(-516, TimeKind::Second, 0),
        score_digit_at(498, ScoreKind::Thousand),
        score_digit_at(526, ScoreKind::Hundred),
        score_digit_at(554, ScoreKind::Ten),
        score_digit_at(582, ScoreKind::One),
    ]
}

/// Everything entering the Playing state spawns, in spawn order.
pub open spec fn playing_entities() -> Seq<Entity> {
    stall_entities() + rifle_entities() + target_entities() + hud_entities()
}

impl World {
    /// Spawn the moving scenery of the stall: the back and front water rows
    /// and the two clouds.
    pub fn setup_stall(&mut self)
        requires
            old(self).wf(),
        ensures
            final(self).wf(),
            final(self).entities@ == old(self).entities@ + stall_entities(),
    {
        let ghost orig = self.entities@;
        let mut k: usize = 0;
        proof {
            assert(orig + Seq::new(0, |i: int| back_wave_at(i)) =~= orig);
        }
        while k < 11
            invariant
                k <= 11,
                self.wf(),
                self.entities@ == orig + Seq::new(k as nat, |i: int| back_wave_at(i)),
            decreases 11 - k,
        {
            let x: i32 = -660 + 132 * (k as i32);
            self.spawn(Entity { role: Role::BackWave, x, y: -90, sprite: 7 });
            proof {
                assert(self.entities@ =~= orig + Seq::new(
                    (k + 1) as nat,
                    |i: int| back_wave_at(i),
                ));
            }
            k += 1;
        }
        let ghost after_back = self.entities@;
        let mut k: usize = 0;
        proof {
            assert(after_back + Seq::new(0, |i: int| front_wave_at(i)) =~= after_back);
        }
        while k < 10
            invariant
                k <= 10,
                self.wf(),
                self.entities@ == after_back + Seq::new(k as nat, |i: int| front_wave_at(i)),
            decreases 10 - k,
        {
            let x: i32 = -620 + 132 * (k as i32);
            self.spawn(Entity { role: Role::FrontWave, x, y: -120, sprite: 8 });
            proof {
                assert(self.entities@ =~= after_back + Seq::new(
                    (k + 1) as nat,
                    |i: int| front_wave_at(i),
                ));
            }
            k += 1;
        }
        self.spawn(Entity { role: Role::Cloud, x: -300, y: 220, sprite: 9 });
        self.spawn(Entity { role: Role::Cloud, x: 300, y: 260, sprite: 10 });
        proof {
            assert(self.entities@ =~= orig + stall_entities());
        }
    }

    /// Spawn the rifle and the crosshair in their idle frames.
    pub fn setup_rifle(&mut self)
        requires
            old(self).wf(),
        ensures
            final(self).wf(),
            final(self).entities@ == old(self).entities@ + rifle_entities(),
    {
        self.spawn(Entity { role: Role::Rifle, x: 100, y: -200, sprite: 0 });
        self.spawn(Entity { role: Role::Crosshair, x: 0, y: 0, sprite: 13 });
        proof {
            assert(self.entities@ =~= old(self).entities@ + rifle_entities());
        }
    }

    /// Spawn the five targets and their four sticks.
    pub fn setup_targets(&mut self)
        requires
            old(self).wf(),
        ensures
            final(self).wf(),
            final(self).entities@ == old(self).entities@ + target_entities(),
    {
        self.spawn(
            Entity {
                role: Role::Target {
                    speed: 3,
                    points: 10,
                    hit_box: 99,
                    is_up_down: false,
                    start_y: 0,
                },
                x: -300,
                y: 50,
                sprite: 2,
            },
        );
        self.spawn(Entity { role: Role::TargetStick { speed: 3 }, x: -305, y: -55, sprite: 3 });
        self.spawn(
            Entity {
                role: Role::Target {
                    speed: 15,
                    points: 20,
                    hit_box: 99,
                    is_up_down: false,
                    start_y: 0,
                },
                x: 300,
                y: 70,
                sprite: 7,
            },
        );
        self.spawn(Entity { role: Role::TargetStick { speed: 15 }, x: 295, y: -35, sprite: 3 });
        self.spawn(
            Entity {
                role: Role::Target {
                    speed: 25,
                    points: 25,
                    hit_box: 128,
                    is_up_down: false,
                    start_y: 0,
                },
                x: 0,
                y: 183,
                sprite: 5,
            },
        );
        self.spawn(Entity { role: Role::TargetStick { speed: 25 }, x: 0, y: 60, sprite: 4 });
        self.spawn(
            Entity {
                role: Role::Target {
                    speed: 50,
                    points: 50,
                    hit_box: 128,
                    is_up_down: false,
                    start_y: 0,
                },
                x: 300,
                y: 203,
                sprite: 6,
            },
        );
        self.spawn(Entity { role: Role::TargetStick { speed: 50 }, x: 300, y: 80, sprite: 4 });
        self.spawn(
            Entity {
                role: Role::Target {
                    speed: 100,
                    points: 250,
                    hit_box: 128,
                    is_up_down: true,
                    start_y: 120,
                },
                x: -300,
                y: 120,
                sprite: 8,
            },
        );
        proof {
            assert(self.entities@ =~= old(self).entities@ + target_entities());
        }
    }

    /// Spawn the HUD sprites: the clock reading 1:30 and the score reading
    /// 0000.
    pub fn setup_hud(&mut self)
        requires
            old(self).wf(),
        ensures
            final(self).wf(),
            final(self).entities@ == old(self).entities@ + hud_entities(),
    {
        self.spawn(Entity { role: Role::Clock { kind: TimeKind::Minute }, x: -600, y: 330, sprite: 1 });
        self.spawn(Entity { role: Role::Clock { kind: TimeKind::Colon }, x: -572, y: 330, sprite: 10 });
        self.spawn(Entity { role: Role::Clock { kind: TimeKind::Ten }, x: -544, y: 330, sprite: 3 });
        self.spawn(Entity { role: Role::Clock { kind: TimeKind::Second }, x: -516, y: 330, sprite: 0 });
        self.spawn(
            Entity { role: Role::ScoreDigit { kind: ScoreKind::Thousand }, x: 498, y: 330, sprite: 0 },
        );
        self.spawn(
            Entity { role: Role::ScoreDigit { kind: ScoreKind::Hundred }, x: 526, y: 330, sprite: 0 },
        );
        self.spawn(
            Entity { role: Role::ScoreDigit { kind: ScoreKind::Ten }, x: 554, y: 330, sprite: 0 },
        );
        self.spawn(
            Entity { role: Role::ScoreDigit { kind: ScoreKind::One }, x: 582, y: 330, sprite: 0 },
        );
        proof {
            assert(self.entities@ =~= old(self).entities@ + hud_entities());
        }
    }

    /// Run every Playing-entry spawn: the stall scenery, the rifle and
    /// crosshair, the targets, and the HUD.
    pub fn enter_playing(&mut self)
        requires
            old(self).wf(),
        ensures
            final(self).wf(),
            final(self).entities@ == old(self).entities@ + playing_entities(),
    {
        self.setup_stall();
        self.setup_rifle();
        self.setup_targets();
        self.setup_hud();
        proof {
            assert(self.entities@ =~= old(self).entities@ + playing_entities());
        }
    }
}

} // verus!

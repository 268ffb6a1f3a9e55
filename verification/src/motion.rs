use vstd::prelude::*;

use crate::world::{Entity, Role, World, entity_wf};

verus! {

// ---------------------------------------------------------------------------
// One fast tick of motion, per entity. Every wrap is a hard reset to the
// opposite bound, not a modulo: motion is visually discontinuous at the wrap,
// and the reset fires on the tick the position first passes the bound.
// ---------------------------------------------------------------------------

/// A cloud drifts right one unit per tick and wraps past 650 back to -650.
pub open spec fn cloud_step_x(x: int) -> int {
    if x + 1 > 650 {
        -650
    } else {
        x + 1
    }
}

/// Back water drifts left two units per tick and wraps below -660 to 660.
pub open spec fn back_wave_step_x(x: int) -> int {
    if x - 2 < -660 {
        660
    } else {
        x - 2
    }
}

/// Front water drifts right two units per tick and wraps past 660 to -655.
pub open spec fn front_wave_step_x(x: int) -> int {
    if x + 2 > 660 {
        -655
    } else {
        x + 2
    }
}

/// A target or its stick advances right by its own speed per tick and wraps
/// past 650 back to -650.
pub open spec fn target_step_x(x: int, speed: int) -> int {
    if x + speed > 650 {
        -650
    } else {
        x + speed
    }
}

/// An oscillating target's height is a binary alternation, not a continuous
/// bob: exactly on the tick where it sits at its reference height it drops to
/// half that height, and on any other it returns to the reference height.
pub open spec fn target_step_y(y: int, start_y: int, is_up_down: bool) -> int {
    if !is_up_down {
        y
    } else if y == start_y {
        start_y / 2
    } else {
        start_y
    }
}

/// One scenery tick applied to a single entity: clouds and waves move and
/// wrap, everything else is untouched.
pub open spec fn scenery_step(e: Entity) -> Entity {
    match e.role {
        Role::Cloud => Entity { x: cloud_step_x(e.x as int) as i32, ..e },
        Role::BackWave => Entity { x: back_wave_step_x(e.x as int) as i32, ..e },
        Role::FrontWave => Entity { x: front_wave_step_x(e.x as int) as i32, ..e },
        _ => e,
    }
}

/// One target tick applied to a single entity: targets advance, wrap and
/// oscillate; sticks mirror the horizontal motion and wrap of their paired
/// target but never move vertically; everything else is untouched.
pub open spec fn target_step(e: Entity) -> Entity {
    match e.role {
        Role::Target { speed, is_up_down, start_y, .. } => Entity {
            x: target_step_x(e.x as int, speed as int) as i32,
            y: target_step_y(e.y as int, start_y as int, is_up_down) as i32,
            ..e
        },
        Role::TargetStick { speed } => Entity {
            x: target_step_x(e.x as int, speed as int) as i32,
            ..e
        },
        _ => e,
    }
}

impl World {
    /// Move the ambient scenery one tick: clouds right, back water left,
    /// front water right, each wrapping at its own bound.
    pub fn animate_stall(&mut self)
        requires
            old(self).wf(),
        ensures
            final(self).wf(),
            final(self).entities@.len() == old(self).entities@.len(),
            forall|i: int|
                0 <= i < old(self).entities@.len() ==> final(self).entities@[i] == scenery_step(
                    #[trigger] old(self).entities@[i],
                ),
    {
        let n = self.entities.len();
        let mut i: usize = 0;
        while i < n
            invariant
                i <= n,
                n == self.entities@.len(),
                n == old(self).entities@.len(),
                forall|j: int|
                    0 <= j < i ==> self.entities@[j] == scenery_step(
                        #[trigger] old(self).entities@[j],
                    ),
                forall|j: int|
                    i <= j < n ==> self.entities@[j] == #[trigger] old(self).entities@[j],
                forall|j: int| 0 <= j < n ==> entity_wf(#[trigger] self.entities@[j]),
            decreases n - i,
        {
            let e = self.entities[i];
            match e.role {
                Role::Cloud => {
                    let nx: i32 = if e.x + 1 > 650 {
                        -650
                    } else {
                        e.x + 1
                    };
                    self.entities.set(i, Entity { x: nx, ..e });
                },
                Role::BackWave => {
                    let nx: i32 = if e.x - 2 < -660 {
                        660
                    } else {
                        e.x - 2
                    };
                    self.entities.set(i, Entity { x: nx, ..e });
                },
                Role::FrontWave => {
                    let nx: i32 = if e.x + 2 > 660 {
                        -655
                    } else {
                        e.x + 2
                    };
                    self.entities.set(i, Entity { x: nx, ..e });
                },
                _ => {},
            }
            i += 1;
        }
    }

    /// Move every target and stick one tick: advance by its own speed, wrap
    /// past 650 to -650, and alternate an oscillating target's height.
    pub fn animate_targets(&mut self)
        requires
            old(self).wf(),
        ensures
            final(self).wf(),
            final(self).entities@.len() == old(self).entities@.len(),
            forall|i: int|
                0 <= i < old(self).entities@.len() ==> final(self).entities@[i] == target_step(
                    #[trigger] old(self).entities@[i],
                ),
    {
        let n = self.entities.len();
        let mut i: usize = 0;
        while i < n
            invariant
                i <= n,
                n == self.entities@.len(),
                n == old(self).entities@.len(),
                forall|j: int|
                    0 <= j < i ==> self.entities@[j] == target_step(
                        #[trigger] old(self).entities@[j],
                    ),
                forall|j: int|
                    i <= j < n ==> self.entities@[j] == #[trigger] old(self).entities@[j],
                forall|j: int| 0 <= j < n ==> entity_wf(#[trigger] self.entities@[j]),
            decreases n - i,
        {
            let e = self.entities[i];
            match e.role {
                Role::Target { speed, is_up_down, start_y, .. } => {
                    let wide: i64 = e.x as i64 + speed as i64;
                    let nx: i32 = if wide > 650 {
                        -650
                    } else {
                        wide as i32
                    };
                    let ny: i32 = if !is_up_down {
                        e.y
                    } else if e.y == start_y {
                        ((start_y as u32) / 2) as i32
                    } else {
                        start_y
                    };
                    self.entities.set(i, Entity { x: nx, y: ny, ..e });
                },
                Role::TargetStick { speed } => {
                    let wide: i64 = e.x as i64 + speed as i64;
                    let nx: i32 = if wide > 650 {
                        -650
                    } else {
                        wide as i32
                    };
                    self.entities.set(i, Entity { x: nx, ..e });
                },
                _ => {},
            }
            i += 1;
        }
    }
}

} // verus!

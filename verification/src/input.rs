use vstd::prelude::*;

use crate::game::{CROSSHAIR_OFFSET_X, CROSSHAIR_OFFSET_Y};
use crate::hit::Pos;
use crate::world::{Entity, Role, World, entity_wf};

verus! {

/// Logical viewport width assumed by the cursor-centering math.
pub const SCREEN_WIDTH: i32 = 1280;

/// Logical viewport height assumed by the cursor-centering math.
pub const SCREEN_HEIGHT: i32 = 720;

/// Convert an absolute screen position into a centered world coordinate:
/// `screen - screen_dimensions / 2`. This conversion is the simulation's only
/// coupling to the fixed assumed viewport size.
pub fn screen_to_world(screen_x: i32, screen_y: i32) -> (world: Pos)
    requires
        screen_x >= i32::MIN + 640,
        screen_y >= i32::MIN + 360,
    ensures
        world.x == screen_x - SCREEN_WIDTH as int / 2,
        world.y == screen_y - SCREEN_HEIGHT as int / 2,
{
    Pos { x: screen_x - 640, y: screen_y - 360 }
}

/// A cursor move applied to a single entity: the crosshair jumps to the
/// cursor's world position, the rifle keeps its fixed offset below and to the
/// right of it; every other entity is untouched.
pub open spec fn mouse_step(e: Entity, wx: int, wy: int) -> Entity {
    match e.role {
        Role::Rifle => Entity { x: (wx + 100) as i32, y: (wy - 200) as i32, ..e },
        Role::Crosshair => Entity { x: wx as i32, y: wy as i32, ..e },
        _ => e,
    }
}

impl World {
    /// Move the crosshair to the cursor's world position and the rifle to its
    /// fixed offset from it.
    pub fn track_mouse(&mut self, world_pos: Pos)
        requires
            old(self).wf(),
            world_pos.x <= i32::MAX - CROSSHAIR_OFFSET_X,
            world_pos.y >= i32::MIN + CROSSHAIR_OFFSET_Y,
        ensures
            final(self).wf(),
            final(self).entities@.len() == old(self).entities@.len(),
            forall|i: int|
                0 <= i < old(self).entities@.len() ==> final(self).entities@[i] == mouse_step(
                    #[trigger] old(self).entities@[i],
                    world_pos.x as int,
                    world_pos.y as int,
                ),
    {
        let n = self.entities.len();
        let mut i: usize = 0;
        while i < n
            invariant
                i <= n,
                n == self.entities@.len(),
                n == old(self).entities@.len(),
                world_pos.x <= i32::MAX - CROSSHAIR_OFFSET_X,
                world_pos.y >= i32::MIN + CROSSHAIR_OFFSET_Y,
                forall|j: int|
                    0 <= j < i ==> self.entities@[j] == mouse_step(
                        #[trigger] old(self).entities@[j],
                        world_pos.x as int,
                        world_pos.y as int,
                    ),
                forall|j: int|
                    i <= j < n ==> self.entities@[j] == #[trigger] old(self).entities@[j],
                forall|j: int| 0 <= j < n ==> entity_wf(#[trigger] self.entities@[j]),
            decreases n - i,
        {
            let e = self.entities[i];
            match e.role {
                Role::Rifle => {
                    self.entities.set(
                        i,
                        Entity {
                            x: world_pos.x + CROSSHAIR_OFFSET_X,
                            y: world_pos.y - CROSSHAIR_OFFSET_Y,
                            ..e
                        },
                    );
                },
                Role::Crosshair => {
                    self.entities.set(i, Entity { x: world_pos.x, y: world_pos.y, ..e });
                },
                _ => {},
            }
            i += 1;
        }
    }
}

} // verus!

use vstd::prelude::*;

use crate::hit::Pos;

verus! {

/// Seconds on the countdown at the start of every round.
pub const TOTAL_TIME: usize = 90;

/// Rounds start with this much ammunition. The counter is reserved: firing is
/// currently unlimited and never depletes it.
pub const TOTAL_AMMO: usize = 3;

/// Horizontal offset of the rifle sprite from the crosshair.
pub const CROSSHAIR_OFFSET_X: i32 = 100;

/// Vertical offset of the rifle sprite from the crosshair.
pub const CROSSHAIR_OFFSET_Y: i32 = 200;

/// The two states of the game flow. Exactly one is current; state-scoped
/// systems run only while their state is current.
#[derive(Clone, Copy, PartialEq, Eq, Structural, Debug)]
pub enum GameState {
    Playing,
    GameOver,
}

/// The single mutable game record: the running score, the countdown in whole
/// seconds, the reserved ammunition counter, and the last known cursor
/// position in world coordinates.
#[derive(Clone, Copy, PartialEq, Eq, Structural, Debug)]
pub struct Game {
    pub score: usize,
    pub time_left: usize,
    pub ammo: usize,
    pub last_mouse: Pos,
}

/// The game record as every round starts it: no score, a full countdown, full
/// ammunition, and the cursor at the world origin.
pub open spec fn initial_game() -> Game {
    Game { score: 0, time_left: TOTAL_TIME, ammo: TOTAL_AMMO, last_mouse: Pos { x: 0, y: 0 } }
}

impl Game {
    /// A fresh game record for the start of a round.
    pub fn new() -> (g: Game)
        ensures
            g == initial_game(),
    {
        Game { score: 0, time_left: TOTAL_TIME, ammo: TOTAL_AMMO, last_mouse: Pos { x: 0, y: 0 } }
    }
}

} // verus!

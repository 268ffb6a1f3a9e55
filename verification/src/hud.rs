use vstd::prelude::*;

use crate::digits::{
    minute_flag, minute_flag_digit, score_hundreds, score_hundreds_digit, score_ones,
    score_ones_digit, score_tens, score_tens_digit, score_thousands, score_thousands_digit,
    time_ones, time_ones_digit, time_tens, time_tens_digit,
};
use crate::world::{Entity, Role, ScoreKind, TimeKind, World, entity_wf};

verus! {

// Sprite indices in the HUD atlas: the digits 0 through 9 sit at their own
// value, the crosshair idle and fired frames at these two slots.
pub const CROSSHAIR_IDLE_SPRITE: u32 = 13;

pub const CROSSHAIR_FIRED_SPRITE: u32 = 14;

// Sprite indices in the objects atlas for the rifle's two frames.
pub const RIFLE_IDLE_SPRITE: u32 = 0;

pub const RIFLE_FIRED_SPRITE: u32 = 1;

/// The clock refresh applied to a single entity when the countdown reads `t`:
/// the minutes sprite shows the binary minutes flag, the tens and ones
/// sprites the seconds digits; the colon and every non-clock entity are
/// untouched.
pub open spec fn clock_step(e: Entity, t: nat) -> Entity {
    match e.role {
        Role::Clock { kind } => match kind {
            TimeKind::Minute => Entity { sprite: minute_flag(t) as u32, ..e },
            TimeKind::Ten => Entity { sprite: time_tens(t) as u32, ..e },
            TimeKind::Second => Entity { sprite: time_ones(t) as u32, ..e },
            TimeKind::Colon => e,
        },
        _ => e,
    }
}

/// The score refresh applied to a single entity when the score reads `s`:
/// each score sprite shows its decimal place of the score; every other
/// entity is untouched.
pub open spec fn score_step(e: Entity, s: nat) -> Entity {
    match e.role {
        Role::ScoreDigit { kind } => match kind {
            ScoreKind::Thousand => Entity { sprite: score_thousands(s) as u32, ..e },
            ScoreKind::Hundred => Entity { sprite: score_hundreds(s) as u32, ..e },
            ScoreKind::Ten => Entity { sprite: score_tens(s) as u32, ..e },
            ScoreKind::One => Entity { sprite: score_ones(s) as u32, ..e },
        },
        _ => e,
    }
}

/// The visual answer to a shot applied to a single entity: the rifle and the
/// crosshair switch to their fired frames on a shot and back to their idle
/// frames otherwise; every other entity is untouched.
pub open spec fn shot_step(e: Entity, fired: bool) -> Entity {
    match e.role {
        Role::Rifle => Entity {
            sprite: if fired {
                RIFLE_FIRED_SPRITE
            } else {
                RIFLE_IDLE_SPRITE
            },
            ..e
        },
        Role::Crosshair => Entity {
            sprite: if fired {
                CROSSHAIR_FIRED_SPRITE
            } else {
                CROSSHAIR_IDLE_SPRITE
            },
            ..e
        },
        _ => e,
    }
}

impl World {
    /// Recompute every clock sprite from the countdown value `t`.
    pub fn refresh_clock(&mut self, t: usize)
        requires
            old(self).wf(),
        ensures
            final(self).wf(),
            final(self).entities@.len() == old(self).entities@.len(),
            forall|i: int|
                0 <= i < old(self).entities@.len() ==> final(self).entities@[i] == clock_step(
                    #[trigger] old(self).entities@[i],
                    t as nat,
                ),
    {
        let n = self.entities.len();
        let mut i: usize = 0;
        while i < n
            invariant
                i <= n,
                n == self.entities@.len(),
                n == old(self).entities@.len(),
                forall|j: int|
                    0 <= j < i ==> self.entities@[j] == clock_step(
                        #[trigger] old(self).entities@[j],
                        t as nat,
                    ),
                forall|j: int|
                    i <= j < n ==> self.entities@[j] == #[trigger] old(self).entities@[j],
                forall|j: int| 0 <= j < n ==> entity_wf(#[trigger] self.entities@[j]),
            decreases n - i,
        {
            let e = self.entities[i];
            match e.role {
                Role::Clock { kind } => match kind {
                    TimeKind::Minute => {
                        self.entities.set(i, Entity { sprite: minute_flag_digit(t), ..e });
                    },
                    TimeKind::Ten => {
                        self.entities.set(i, Entity { sprite: time_tens_digit(t), ..e });
                    },
                    TimeKind::Second => {
                        self.entities.set(i, Entity { sprite: time_ones_digit(t), ..e });
                    },
                    TimeKind::Colon => {},
                },
                _ => {},
            }
            i += 1;
        }
    }

    /// Recompute every score sprite from the score value `s`.
    pub fn refresh_score(&mut self, s: usize)
        requires
            old(self).wf(),
        ensures
            final(self).wf(),
            final(self).entities@.len() == old(self).entities@.len(),
            forall|i: int|
                0 <= i < old(self).entities@.len() ==> final(self).entities@[i] == score_step(
                    #[trigger] old(self).entities@[i],
                    s as nat,
                ),
    {
        let n = self.entities.len();
        let mut i: usize = 0;
        while i < n
            invariant
                i <= n,
                n == self.entities@.len(),
                n == old(self).entities@.len(),
                forall|j: int|
                    0 <= j < i ==> self.entities@[j] == score_step(
                        #[trigger] old(self).entities@[j],
                        s as nat,
                    ),
                forall|j: int|
                    i <= j < n ==> self.entities@[j] == #[trigger] old(self).entities@[j],
                forall|j: int| 0 <= j < n ==> entity_wf(#[trigger] self.entities@[j]),
            decreases n - i,
        {
            let e = self.entities[i];
            match e.role {
                Role::ScoreDigit { kind } => match kind {
                    ScoreKind::Thousand => {
                        self.entities.set(i, Entity { sprite: score_thousands_digit(s), ..e });
                    },
                    ScoreKind::Hundred => {
                        self.entities.set(i, Entity { sprite: score_hundreds_digit(s), ..e });
                    },
                    ScoreKind::Ten => {
                        self.entities.set(i, Entity { sprite: score_tens_digit(s), ..e });
                    },
                    ScoreKind::One => {
                        self.entities.set(i, Entity { sprite: score_ones_digit(s), ..e });
                    },
                },
                _ => {},
            }
            i += 1;
        }
    }

    /// Put the rifle and the crosshair into their fired frames after a shot,
    /// or back into their idle frames on any other button event.
    pub fn set_shot_sprites(&mut self, fired: bool)
        requires
            old(self).wf(),
        ensures
            final(self).wf(),
            final(self).entities@.len() == old(self).entities@.len(),
            forall|i: int|
                0 <= i < old(self).entities@.len() ==> final(self).entities@[i] == shot_step(
                    #[trigger] old(self).entities@[i],
                    fired,
                ),
    {
        let n = self.entities.len();
        let mut i: usize = 0;
        while i < n
            invariant
                i <= n,
                n == self.entities@.len(),
                n == old(self).entities@.len(),
                forall|j: int|
                    0 <= j < i ==> self.entities@[j] == shot_step(
                        #[trigger] old(self).entities@[j],
                        fired,
                    ),
                forall|j: int|
                    i <= j < n ==> self.entities@[j] == #[trigger] old(self).entities@[j],
                forall|j: int| 0 <= j < n ==> entity_wf(#[trigger] self.entities@[j]),
            decreases n - i,
        {
            let e = self.entities[i];
            match e.role {
                Role::Rifle => {
                    let sprite: u32 = if fired {
                        RIFLE_FIRED_SPRITE
                    } else {
                        RIFLE_IDLE_SPRITE
                    };
                    self.entities.set(i, Entity { sprite, ..e });
                },
                Role::Crosshair => {
                    let sprite: u32 = if fired {
                        CROSSHAIR_FIRED_SPRITE
                    } else {
                        CROSSHAIR_IDLE_SPRITE
                    };
                    self.entities.set(i, Entity { sprite, ..e });
                },
                _ => {},
            }
            i += 1;
        }
    }
}

/// For every countdown value the refreshed clock sprites show exactly the
/// digits of the time left: the tens sprite `(t % 60) / 10`, the ones sprite
/// `t % 10`, and the minutes sprite 1 exactly when a minute or more is left.
pub proof fn lemma_clock_display_matches_time(e: Entity, t: nat)
    ensures
        (e.role matches Role::Clock { kind: TimeKind::Ten }) ==> clock_step(e, t).sprite == (t
            % 60) / 10,
        (e.role matches Role::Clock { kind: TimeKind::Second }) ==> clock_step(e, t).sprite == t
            % 10,
        (e.role matches Role::Clock { kind: TimeKind::Minute }) ==> (clock_step(e, t).sprite == 1
            <==> t >= 60),
{
}

} // verus!

use vstd::prelude::*;

verus! {

/// Which positional digit of the countdown a HUD clock sprite shows.
#[derive(Clone, Copy, PartialEq, Eq, Structural, Debug)]
pub enum TimeKind {
    Minute,
    Colon,
    Ten,
    Second,
}

/// Which decimal place of the score a HUD score sprite shows.
#[derive(Clone, Copy, PartialEq, Eq, Structural, Debug)]
pub enum ScoreKind {
    Thousand,
    Hundred,
    Ten,
    One,
}

/// What an entity is to the simulation. Cameras survive teardown; targets can
/// be shot; sticks mirror their paired target's horizontal motion; clouds and
/// waves are looping scenery; the rifle and crosshair track the mouse; clock
/// and score entities are HUD digit sprites.
#[derive(Clone, Copy, PartialEq, Eq, Structural, Debug)]
pub enum Role {
    Camera,
    Cloud,
    BackWave,
    FrontWave,
    Target { speed: i32, points: usize, hit_box: i32, is_up_down: bool, start_y: i32 },
    TargetStick { speed: i32 },
    Crosshair,
    Rifle,
    Clock { kind: TimeKind },
    ScoreDigit { kind: ScoreKind },
}

/// A game object: its role, its world position, and the index of the sprite
/// it is drawn with.
#[derive(Clone, Copy, PartialEq, Eq, Structural, Debug)]
pub struct Entity {
    pub role: Role,
    pub x: i32,
    pub y: i32,
    pub sprite: u32,
}

/// Entities that move horizontally stay within the wrap range, movers never
/// run backwards, and an oscillating target's reference height is not
/// negative, so that halving it is exact whole-unit arithmetic.
pub open spec fn entity_wf(e: Entity) -> bool {
    match e.role {
        Role::Cloud => -660 <= e.x <= 660,
        Role::BackWave => -660 <= e.x <= 660,
        Role::FrontWave => -660 <= e.x <= 660,
        Role::Target { speed, start_y, .. } => -660 <= e.x <= 660 && 0 <= speed && 0 <= start_y,
        Role::TargetStick { speed } => -660 <= e.x <= 660 && 0 <= speed,
        _ => true,
    }
}

pub open spec fn is_camera(e: Entity) -> bool {
    e.role is Camera
}

/// The subsequence of camera entities, in order: what teardown leaves behind.
pub open spec fn camera_only(s: Seq<Entity>) -> Seq<Entity> {
    s.filter(|e: Entity| is_camera(e))
}

/// How many entities other than cameras a sequence holds.
pub open spec fn non_camera_count(s: Seq<Entity>) -> nat {
    s.filter(|e: Entity| !is_camera(e)).len()
}

/// The arena of live game objects.
pub struct World {
    pub entities: Vec<Entity>,
}

impl World {
    pub open spec fn wf(self) -> bool {
        forall|i: int| 0 <= i < self.entities@.len() ==> entity_wf(#[trigger] self.entities@[i])
    }

    /// An empty arena.
    pub fn new() -> (w: World)
        ensures
            w.wf(),
            w.entities@ == Seq::<Entity>::empty(),
    {
        World { entities: Vec::new() }
    }

    /// Append one entity.
    pub fn spawn(&mut self, e: Entity)
        requires
            old(self).wf(),
            entity_wf(e),
        ensures
            final(self).wf(),
            final(self).entities@ == old(self).entities@.push(e),
    {
        self.entities.push(e);
    }

    /// Destroy every entity that is not a camera. Runs on leaving either game
    /// state, so that no stale entity persists across a state transition; it
    /// succeeds on an already-empty arena.
    pub fn teardown(&mut self)
        requires
            old(self).wf(),
        ensures
            final(self).wf(),
            final(self).entities@ == camera_only(old(self).entities@),
            non_camera_count(final(self).entities@) == 0,
    {
        let ghost orig = self.entities@;
        let mut kept: Vec<Entity> = Vec::new();
        let n = self.entities.len();
        let mut i: usize = 0;
        proof {
            reveal_with_fuel(Seq::filter, 1);
            assert(orig.take(0) =~= Seq::<Entity>::empty());
            assert(kept@ =~= camera_only(orig.take(0)));
        }
        while i < n
            invariant
                i <= n,
                n == orig.len(),
                self.entities@ == orig,
                kept@ == camera_only(orig.take(i as int)),
            decreases n - i,
        {
            let e = self.entities[i];
            if let Role::Camera = e.role {
                kept.push(e);
            }
            proof {
                lemma_camera_only_take_succ(orig, i as int);
            }
            i += 1;
        }
        proof {
            broadcast use vstd::seq_lib::group_filter_ensures;

            assert(orig.take(n as int) =~= orig);
            lemma_camera_only_all_cameras(camera_only(orig));
            assert forall|j: int| 0 <= j < kept@.len() implies entity_wf(#[trigger] kept@[j]) by {
                assert(is_camera(kept@[j]));
            }
        }
        self.entities = kept;
    }
}

/// Taking one more entity extends the camera subsequence by that entity
/// exactly when it is a camera.
proof fn lemma_camera_only_take_succ(s: Seq<Entity>, i: int)
    requires
        0 <= i < s.len(),
    ensures
        camera_only(s.take(i + 1)) == if is_camera(s[i]) {
            camera_only(s.take(i)).push(s[i])
        } else {
            camera_only(s.take(i))
        },
{
    assert(s.take(i + 1) =~= s.take(i) + seq![s[i]]);
    Seq::filter_distributes_over_add(s.take(i), seq![s[i]], |e: Entity| is_camera(e));
    reveal_with_fuel(Seq::filter, 2);
    if is_camera(s[i]) {
        assert(camera_only(s.take(i)) + seq![s[i]].filter(|e: Entity| is_camera(e))
            =~= camera_only(s.take(i)).push(s[i]));
    } else {
        assert(camera_only(s.take(i)) + seq![s[i]].filter(|e: Entity| is_camera(e))
            =~= camera_only(s.take(i)));
    }
}

/// A sequence of cameras only is left unchanged by filtering for cameras and
/// holds no non-camera entity.
proof fn lemma_camera_only_all_cameras(s: Seq<Entity>)
    requires
        forall|i: int| 0 <= i < s.len() ==> is_camera(#[trigger] s[i]),
    ensures
        camera_only(s) == s,
        non_camera_count(s) == 0,
    decreases s.len(),
{
    reveal_with_fuel(Seq::filter, 2);
    if s.len() == 0 {
        assert(camera_only(s) =~= s);
        assert(s.filter(|e: Entity| !is_camera(e)) =~= s);
    } else {
        lemma_camera_only_all_cameras(s.drop_last());
        assert(camera_only(s) =~= camera_only(s.drop_last()).push(s.last()));
        assert(camera_only(s) =~= s.drop_last().push(s.last()));
        assert(s.drop_last().push(s.last()) =~= s);
        assert(s.filter(|e: Entity| !is_camera(e)) =~= s.drop_last().filter(
            |e: Entity| !is_camera(e),
        ));
    }
}

/// Teardown is idempotent: what one teardown leaves holds zero non-camera
/// entities, and a second teardown leaves it exactly as it is.
pub proof fn lemma_teardown_idempotent(s: Seq<Entity>)
    ensures
        non_camera_count(camera_only(s)) == 0,
        camera_only(camera_only(s)) == camera_only(s),
{
    broadcast use vstd::seq_lib::group_filter_ensures;

    lemma_camera_only_all_cameras(camera_only(s));
}

} // verus!

use vstd::prelude::*;

use crate::hit::{Pos, hit_spec, is_hit};
use crate::world::{Entity, Role};

verus! {

/// The points a single entity is worth for a shot from `mouse`: a target's
/// point value when the shot lands inside its hit box, nothing otherwise.
/// Sticks and every other entity carry no hit box and never score.
pub open spec fn entity_hit_points(e: Entity, mouse: Pos) -> int {
    match e.role {
        Role::Target { points, hit_box, .. } => {
            if hit_spec(mouse.x as int, mouse.y as int, e.x as int, e.y as int, hit_box as int) {
                points as int
            } else {
                0
            }
        },
        _ => 0,
    }
}

/// The total points one shot from `mouse` scores against a sequence of
/// entities: every hit target scores, with no exclusivity and no early exit.
pub open spec fn hit_points_sum(s: Seq<Entity>, mouse: Pos) -> int
    decreases s.len(),
{
    if s.len() == 0 {
        0
    } else {
        hit_points_sum(s.drop_last(), mouse) + entity_hit_points(s.last(), mouse)
    }
}

/// Extending the scored prefix by one entity adds exactly that entity's hit
/// points.
proof fn lemma_hit_points_sum_take_succ(s: Seq<Entity>, mouse: Pos, i: int)
    requires
        0 <= i < s.len(),
    ensures
        hit_points_sum(s.take(i + 1), mouse) == hit_points_sum(s.take(i), mouse)
            + entity_hit_points(s[i], mouse),
{
    assert(s.take(i + 1).drop_last() =~= s.take(i));
    assert(s.take(i + 1).last() == s[i]);
}

/// One shot never scores negatively, whatever the cursor position: together
/// with the button handler's contract, the score never decreases while a
/// round is being played.
pub proof fn lemma_hit_points_sum_nonneg(s: Seq<Entity>, mouse: Pos)
    ensures
        0 <= hit_points_sum(s, mouse),
    decreases s.len(),
{
    if s.len() > 0 {
        lemma_hit_points_sum_nonneg(s.drop_last(), mouse);
    }
}

/// What a prefix scores never exceeds what the whole sequence scores, and is
/// never negative.
pub proof fn lemma_hit_points_sum_prefix(s: Seq<Entity>, mouse: Pos, i: int)
    requires
        0 <= i <= s.len(),
    ensures
        0 <= hit_points_sum(s.take(i), mouse) <= hit_points_sum(s, mouse),
    decreases s.len() - i,
{
    lemma_hit_points_sum_nonneg(s.take(i), mouse);
    if i == s.len() {
        assert(s.take(i) =~= s);
    } else {
        lemma_hit_points_sum_prefix(s, mouse, i + 1);
        lemma_hit_points_sum_take_succ(s, mouse, i);
        assert(0 <= entity_hit_points(s[i], mouse));
    }
}

/// The points one shot from `mouse` scores against every live target: each
/// hit target's value is added, multiple simultaneous hits all score.
pub fn gained_points(entities: &Vec<Entity>, mouse: Pos) -> (gain: usize)
    requires
        hit_points_sum(entities@, mouse) <= usize::MAX,
    ensures
        gain == hit_points_sum(entities@, mouse),
{
    let n = entities.len();
    let mut gain: usize = 0;
    let mut i: usize = 0;
    proof {
        assert(entities@.take(0) =~= Seq::<Entity>::empty());
    }
    while i < n
        invariant
            i <= n,
            n == entities@.len(),
            hit_points_sum(entities@, mouse) <= usize::MAX,
            gain == hit_points_sum(entities@.take(i as int), mouse),
        decreases n - i,
    {
        let e = entities[i];
        proof {
            lemma_hit_points_sum_take_succ(entities@, mouse, i as int);
            lemma_hit_points_sum_prefix(entities@, mouse, i as int + 1);
        }
        match e.role {
            Role::Target { points, hit_box, .. } => {
                if is_hit(mouse, Pos { x: e.x, y: e.y }, hit_box) {
                    gain = gain + points;
                }
            },
            _ => {},
        }
        i += 1;
    }
    proof {
        assert(entities@.take(n as int) =~= entities@);
    }
    gain
}

} // verus!

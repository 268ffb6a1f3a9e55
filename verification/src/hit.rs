use vstd::prelude::*;

verus! {

/// A point in world coordinates. The simulation works on whole units, so
/// coordinates are integers.
#[derive(Clone, Copy, PartialEq, Eq, Structural, Debug)]
pub struct Pos {
    pub x: i32,
    pub y: i32,
}

/// The mouse lies strictly inside the axis-aligned square of side `hit_box`
/// centered on the target iff each coordinate offset from the center is
/// strictly smaller in magnitude than half the side. Both sides of each
/// comparison are doubled so that an odd `hit_box` keeps its exact half-unit
/// boundary.
pub open spec fn hit_spec(mx: int, my: int, tx: int, ty: int, hit_box: int) -> bool {
    &&& 2 * (mx - tx) < hit_box
    &&& 2 * (tx - mx) < hit_box
    &&& 2 * (my - ty) < hit_box
    &&& 2 * (ty - my) < hit_box
}

/// Axis-aligned square hit test: true iff `mouse` lies strictly inside the
/// square of side `hit_box` centered on `target`.
pub fn is_hit(mouse: Pos, target: Pos, hit_box: i32) -> (r: bool)
    ensures
        r == hit_spec(
            mouse.x as int,
            mouse.y as int,
            target.x as int,
            target.y as int,
            hit_box as int,
        ),
{
    let dx: i64 = mouse.x as i64 - target.x as i64;
    let dy: i64 = mouse.y as i64 - target.y as i64;
    let hb: i64 = hit_box as i64;
    2 * dx < hb && 2 * (-dx) < hb && 2 * dy < hb && 2 * (-dy) < hb
}

/// The hit test is symmetric under simultaneous negation of both coordinate
/// offsets from the target center: the box is axis-aligned and centered.
pub proof fn lemma_hit_symmetric(tx: int, ty: int, dx: int, dy: int, hit_box: int)
    ensures
        hit_spec(tx + dx, ty + dy, tx, ty, hit_box) == hit_spec(tx - dx, ty - dy, tx, ty, hit_box),
{
}

} // verus!

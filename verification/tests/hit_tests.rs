use shooting_gallery::hit::{Pos, is_hit};

fn at(x: i32, y: i32) -> Pos {
    Pos { x, y }
}

#[test]
fn hit_at_center() {
    // Mouse at world (0,0), target at (0,0) with hit box 128: a hit.
    assert!(is_hit(at(0, 0), at(0, 0), 128));
}

#[test]
fn miss_at_half_box_boundary() {
    // Target at (65,0) with hit box 128: the boundary at 64 = half-box is
    // strictly exclusive, so 65 misses.
    assert!(!is_hit(at(0, 0), at(65, 0), 128));
    // 64 away is exactly on the boundary: still a miss.
    assert!(!is_hit(at(64, 0), at(0, 0), 128));
    assert!(!is_hit(at(0, 64), at(0, 0), 128));
    // 63 away is strictly inside: a hit.
    assert!(is_hit(at(63, 0), at(0, 0), 128));
    assert!(is_hit(at(0, 63), at(0, 0), 128));
}

#[test]
fn odd_hit_box_keeps_half_unit_boundary() {
    // Half of 99 is 49.5: an offset of 49 is strictly inside, 50 is not.
    assert!(is_hit(at(49, 0), at(0, 0), 99));
    assert!(!is_hit(at(50, 0), at(0, 0), 99));
    assert!(is_hit(at(0, -49), at(0, 0), 99));
    assert!(!is_hit(at(0, -50), at(0, 0), 99));
}

#[test]
fn hit_requires_both_axes() {
    assert!(!is_hit(at(63, 64), at(0, 0), 128));
    assert!(!is_hit(at(64, 63), at(0, 0), 128));
    assert!(is_hit(at(63, 63), at(0, 0), 128));
}

#[test]
fn hit_symmetric_under_offset_negation() {
    // Negating both coordinate offsets from the target center never changes
    // the outcome: the box is axis-aligned and centered.
    let targets = [at(0, 0), at(10, -20), at(-300, 120), at(650, -650)];
    let offsets = [(0, 0), (49, 0), (50, 13), (-63, 63), (64, -1), (7, -49)];
    for t in targets {
        for (dx, dy) in offsets {
            for hb in [99, 128, 0, 1] {
                let plus = is_hit(at(t.x + dx, t.y + dy), t, hb);
                let minus = is_hit(at(t.x - dx, t.y - dy), t, hb);
                assert_eq!(plus, minus);
            }
        }
    }
}

#[test]
fn degenerate_hit_box_never_hits() {
    assert!(!is_hit(at(0, 0), at(0, 0), 0));
    assert!(!is_hit(at(0, 0), at(0, 0), -5));
}

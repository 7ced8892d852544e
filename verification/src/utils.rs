//! Direction helpers shared by the species rules.

use vstd::prelude::*;

verus! {

/// The eight neighbour directions `(dx, dy)`, in rotation order starting
/// below the cell: each step of the ring turns the direction by 45 degrees.
pub open spec fn ring(i: int) -> (i32, i32) {
    let k = i % 8;
    if k == 0 {
        (0i32, 1i32)
    } else if k == 1 {
        (1i32, 1i32)
    } else if k == 2 {
        (1i32, 0i32)
    } else if k == 3 {
        (1i32, -1i32)
    } else if k == 4 {
        (0i32, -1i32)
    } else if k == 5 {
        (-1i32, -1i32)
    } else if k == 6 {
        (-1i32, 0i32)
    } else {
        (-1i32, 1i32)
    }
}

/// Whether `dir` is one of the eight neighbour directions.
pub open spec fn is_neighbour_dir(dir: (i32, i32)) -> bool {
    exists|i: int| 0 <= i < 8 && #[trigger] ring(i) == dir
}

/// The position of a neighbour direction on the ring.
pub open spec fn ring_pos(dir: (i32, i32)) -> int {
    choose|i: int| 0 <= i < 8 && #[trigger] ring(i) == dir
}

/// The next direction on the ring; `(0, 0)` for anything that is not a
/// neighbour direction.
pub open spec fn spec_adjacency_right(dir: (i32, i32)) -> (i32, i32) {
    if is_neighbour_dir(dir) {
        ring(ring_pos(dir) + 1)
    } else {
        (0, 0)
    }
}

/// The previous direction on the ring; `(0, 0)` for anything that is not a
/// neighbour direction.
pub open spec fn spec_adjacency_left(dir: (i32, i32)) -> (i32, i32) {
    if is_neighbour_dir(dir) {
        ring(ring_pos(dir) + 7)
    } else {
        (0, 0)
    }
}

proof fn lemma_ring_values()
    ensures
        ring(0) == (0i32, 1i32),
        ring(1) == (1i32, 1i32),
        ring(2) == (1i32, 0i32),
        ring(3) == (1i32, -1i32),
        ring(4) == (0i32, -1i32),
        ring(5) == (-1i32, -1i32),
        ring(6) == (-1i32, 0i32),
        ring(7) == (-1i32, 1i32),
        forall|i: int| 0 <= i < 8 ==> #[trigger] ring(i + 8) == ring(i),
        forall|i: int| 0 <= i < 8 ==> #[trigger] ring(i + 7) == ring(if i == 0 { 7 } else { i - 1 }),
        forall|i: int| 0 <= i < 8 ==> #[trigger] ring(i + 1) == ring(if i == 7 { 0 } else { i + 1 }),
{
}

proof fn lemma_ring_injective(i: int, j: int)
    requires
        0 <= i < 8,
        0 <= j < 8,
        ring(i) == ring(j),
    ensures
        i == j,
{
}

proof fn lemma_pos(dir: (i32, i32), i: int)
    requires
        0 <= i < 8,
        ring(i) == dir,
    ensures
        is_neighbour_dir(dir),
        ring_pos(dir) == i,
{
    let j = ring_pos(dir);
    lemma_ring_injective(i, j);
}

/// Turns a neighbour direction one step further round the ring.
pub fn adjacency_right(dir: (i32, i32)) -> (r: (i32, i32))
    ensures
        r == spec_adjacency_right(dir),
        -1 <= r.0 <= 1,
        -1 <= r.1 <= 1,
{
    proof {
        lemma_ring_values();
    }
    let r = match dir {
        (0, 1) => (1, 1),
        (1, 1) => (1, 0),
        (1, 0) => (1, -1),
        (1, -1) => (0, -1),
        (0, -1) => (-1, -1),
        (-1, -1) => (-1, 0),
        (-1, 0) => (-1, 1),
        (-1, 1) => (0, 1),
        _ => (0, 0),
    };
    proof {
        if dir == ring(0) { lemma_pos(dir, 0); }
        else if dir == ring(1) { lemma_pos(dir, 1); }
        else if dir == ring(2) { lemma_pos(dir, 2); }
        else if dir == ring(3) { lemma_pos(dir, 3); }
        else if dir == ring(4) { lemma_pos(dir, 4); }
        else if dir == ring(5) { lemma_pos(dir, 5); }
        else if dir == ring(6) { lemma_pos(dir, 6); }
        else if dir == ring(7) { lemma_pos(dir, 7); }
    }
    r
}


/// Turns a neighbour direction one step back round the ring.
pub fn adjacency_left(dir: (i32, i32)) -> (r: (i32, i32))
    ensures
        r == spec_adjacency_left(dir),
        -1 <= r.0 <= 1,
        -1 <= r.1 <= 1,
{
    proof {
        lemma_ring_values();
    }
    let r = match dir {
        (0, 1) => (-1, 1),
        (1, 1) => (0, 1),
        (1, 0) => (1, 1),
        (1, -1) => (1, 0),
        (0, -1) => (1, -1),
        (-1, -1) => (0, -1),
        (-1, 0) => (-1, -1),
        (-1, 1) => (-1, 0),
        _ => (0, 0),
    };
    proof {
        if dir == ring(0) { lemma_pos(dir, 0); }
        else if dir == ring(1) { lemma_pos(dir, 1); }
        else if dir == ring(2) { lemma_pos(dir, 2); }
        else if dir == ring(3) { lemma_pos(dir, 3); }
        else if dir == ring(4) { lemma_pos(dir, 4); }
        else if dir == ring(5) { lemma_pos(dir, 5); }
        else if dir == ring(6) { lemma_pos(dir, 6); }
        else if dir == ring(7) { lemma_pos(dir, 7); }
    }
    r
}

/// Turning one step right and then one step left, or the other way round,
/// gives back any neighbour direction.
pub proof fn lemma_adjacency_inverse(dir: (i32, i32))
    requires
        is_neighbour_dir(dir),
    ensures
        spec_adjacency_left(spec_adjacency_right(dir)) == dir,
        spec_adjacency_right(spec_adjacency_left(dir)) == dir,
        is_neighbour_dir(spec_adjacency_right(dir)),
        is_neighbour_dir(spec_adjacency_left(dir)),
{
    lemma_ring_values();
    let i = ring_pos(dir);
    let r = if i == 7 { 0 } else { i + 1 };
    let l = if i == 0 { 7 } else { i - 1 };
    lemma_pos(dir, i);
    lemma_pos(ring(r), r);
    lemma_pos(ring(l), l);
    let rr = if r == 0 { 7 } else { r - 1 };
    let ll = if l == 7 { 0 } else { l + 1 };
    assert(rr == i && ll == i);
}

/// Turning `k` steps right moves `k` places along the ring.
pub proof fn lemma_adjacency_full_turn(dir: (i32, i32), k: nat)
    requires
        is_neighbour_dir(dir),
    ensures
        is_neighbour_dir(turn_right(dir, k)),
        ring_pos(turn_right(dir, k)) == (ring_pos(dir) + k) % 8,
    decreases k,
{
    lemma_ring_values();
    let i = ring_pos(dir);
    lemma_pos(dir, i);
    if k > 0 {
        lemma_adjacency_full_turn(dir, (k - 1) as nat);
        let prev = turn_right(dir, (k - 1) as nat);
        let j = ring_pos(prev);
        lemma_pos(prev, j);
        let n = if j == 7 { 0 } else { j + 1 };
        lemma_pos(ring(n), n);
    }
}

/// `dir` turned `k` steps to the right.
pub open spec fn turn_right(dir: (i32, i32), k: nat) -> (i32, i32)
    decreases k,
{
    if k == 0 {
        dir
    } else {
        spec_adjacency_right(turn_right(dir, (k - 1) as nat))
    }
}

/// Packs a step `(dx, dy)` into one number: `(dx + 1) * 3 + (dy + 1)`,
/// truncated to a byte (0..9 for steps of -1, 0 or 1).
pub fn join_dy_dx(dx: i32, dy: i32) -> (r: u8)
    requires
        i32::MIN <= (dx + 1) * 3 + (dy + 1) <= i32::MAX,
        dx < i32::MAX,
        dy < i32::MAX,
        i32::MIN <= (dx + 1) * 3 <= i32::MAX,
    ensures
        r == ((dx + 1) * 3 + (dy + 1)) as u8,
{
    (((dx + 1) * 3) + (dy + 1)) as u8
}

/// Unpacks a number made by `join_dy_dx`: `(s / 3 - 1, s % 3 - 1)`.
pub fn split_dy_dx(s: u8) -> (r: (i32, i32))
    ensures
        r.0 == s / 3 - 1,
        r.1 == s % 3 - 1,
{
    let s: i32 = s as i32;
    let dx: i32 = (s / 3) - 1;
    let dy: i32 = (s % 3) - 1;
    (dx, dy)
}

/// Packing a step with both parts in -1..=1 and unpacking it gives the step
/// back.
pub proof fn lemma_join_split(dx: i32, dy: i32)
    requires
        -1 <= dx <= 1,
        -1 <= dy <= 1,
    ensures
        0 <= (dx + 1) * 3 + (dy + 1) < 9,
        ((dx + 1) * 3 + (dy + 1)) as u8 / 3 - 1 == dx,
        ((dx + 1) * 3 + (dy + 1)) as u8 % 3 - 1 == dy,
{
}

/// Unpacking a number below 9 and packing the step gives the number back.
pub proof fn lemma_split_join(s: u8)
    requires
        s < 9,
    ensures
        ((s / 3 - 1 + 1) * 3 + (s % 3 - 1 + 1)) as u8 == s,
{
}

} // verus!

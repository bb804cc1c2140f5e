//! Movement along the strip shared by the player and the enemy.
use vstd::prelude::*;

verus! {

/// `p` pulled into `[0, len - 1]`.
pub open spec fn clamp_position(p: int, len: int) -> int {
    if p < 0 {
        0
    } else if p >= len {
        len - 1
    } else {
        p
    }
}

/// The position reached from `position` by a move of `speed * direction`,
/// clamped to a strip of `len` cells.
pub open spec fn moved_position(position: int, speed: int, direction: int, len: int) -> int {
    clamp_position(position + speed * direction, len)
}

/// The position after the moves `moves`, each a `(speed, direction)` pair
/// applied in order and clamped to a strip of `len` cells.
pub open spec fn run_moves(position: int, moves: Seq<(int, int)>, len: int) -> int
    decreases moves.len(),
{
    if moves.len() == 0 {
        position
    } else {
        let m = moves.last();
        moved_position(run_moves(position, moves.drop_last(), len), m.0, m.1, len)
    }
}

/// A clamped move lands on the strip whatever the speed and direction.
pub proof fn lemma_moved_position_on_strip(position: int, speed: int, direction: int, len: int)
    requires
        0 < len,
    ensures
        0 <= moved_position(position, speed, direction, len) < len,
{
}

/// Starting on a strip of `len` cells, an entity stays on it through any
/// sequence of moves, of any speed and sign.
pub proof fn lemma_moves_stay_on_strip(position: int, moves: Seq<(int, int)>, len: int)
    requires
        0 < len,
        0 <= position < len,
    ensures
        0 <= run_moves(position, moves, len) < len,
    decreases moves.len(),
{
    if moves.len() > 0 {
        lemma_moves_stay_on_strip(position, moves.drop_last(), len);
    }
}

/// Moves `position` by `speed * direction` and clamps the result to a strip
/// of `len` cells.
pub fn step_position(position: i32, speed: i32, direction: i32, len: usize) -> (p: i32)
    requires
        0 < len <= i32::MAX,
    ensures
        p == moved_position(position as int, speed as int, direction as int, len as int),
        0 <= p < len,
{
    proof {
        assert(-0x4000_0000_0000_0000 <= speed as int * direction as int <= 0x4000_0000_0000_0000)
            by (nonlinear_arith)
            requires
                i32::MIN <= speed <= i32::MAX,
                i32::MIN <= direction <= i32::MAX;
    }
    let amount: i64 = speed as i64 * direction as i64;
    let next: i64 = position as i64 + amount;
    let last: i64 = len as i64 - 1;
    if next < 0 {
        0
    } else if next > last {
        last as i32
    } else {
        next as i32
    }
}

} // verus!

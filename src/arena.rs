//! Arena boundary culling.
//!
//! The arena is framed by up to four walls. A shot that has passed any wall
//! that exists (left of the left wall, right of the right wall, above the top
//! wall or below the bottom wall) leaves play. A wall that does not exist
//! culls nothing.
//!
//! Coordinates are integers that order positions as the world does. World
//! positions are IEEE single-precision numbers; `coordinate_from_bits` turns
//! the bits of one into such an integer.
use vstd::prelude::*;

verus! {

/// The positions of the arena's walls: `left` and `right` on the x axis,
/// `top` and `bottom` on the y axis. `None` where that wall is absent.
#[derive(Clone, Copy, Debug, PartialEq, Eq, Structural)]
pub struct ArenaWalls {
    pub left: Option<i32>,
    pub right: Option<i32>,
    pub top: Option<i32>,
    pub bottom: Option<i32>,
}

/// Where a shot is.
#[derive(Clone, Copy, Debug, PartialEq, Eq, Structural)]
pub struct ShotPosition {
    pub x: i32,
    pub y: i32,
}

/// Whether `shot` lies beyond one of the walls that exist.
pub open spec fn past_walls(walls: ArenaWalls, shot: ShotPosition) -> bool {
    (walls.left matches Some(l) && shot.x < l)
        || (walls.right matches Some(r) && shot.x > r)
        || (walls.top matches Some(t) && shot.y > t)
        || (walls.bottom matches Some(b) && shot.y < b)
}

/// The indices, in increasing order, of the first `n` shots that lie beyond a
/// wall.
pub open spec fn culled_prefix(walls: ArenaWalls, shots: Seq<ShotPosition>, n: nat) -> Seq<usize>
    decreases n,
{
    if n == 0 {
        Seq::empty()
    } else {
        let before = culled_prefix(walls, shots, (n - 1) as nat);
        if past_walls(walls, shots[n - 1]) {
            before.push((n - 1) as usize)
        } else {
            before
        }
    }
}

/// The indices, in increasing order, of the shots that lie beyond a wall.
pub open spec fn culled(walls: ArenaWalls, shots: Seq<ShotPosition>) -> Seq<usize> {
    culled_prefix(walls, shots, shots.len())
}

/// A shot leaves play exactly when it lies beyond a wall that exists: every
/// index in `culled(walls, shots)` names such a shot, every such shot is
/// named, and the indices are strictly increasing, so none is named twice.
/// (The shots are those of a `Vec`, so their count fits in `usize`.)
pub proof fn lemma_culled_exactly_past(walls: ArenaWalls, shots: Seq<ShotPosition>)
    requires
        shots.len() <= usize::MAX,
    ensures
        forall|k: int|
            0 <= k < culled(walls, shots).len() ==> {
                let i = #[trigger] culled(walls, shots)[k];
                i < shots.len() && past_walls(walls, shots[i as int])
            },
        forall|j: int, k: int|
            0 <= j < k < culled(walls, shots).len() ==> culled(walls, shots)[j] < culled(
                walls,
                shots,
            )[k],
        forall|i: int|
            0 <= i < shots.len() && past_walls(walls, #[trigger] shots[i]) ==> culled(
                walls,
                shots,
            ).contains(i as usize),
{
    lemma_culled_prefix(walls, shots, shots.len());
}

proof fn lemma_culled_prefix(walls: ArenaWalls, shots: Seq<ShotPosition>, n: nat)
    requires
        n <= shots.len(),
        shots.len() <= usize::MAX,
    ensures
        forall|k: int|
            0 <= k < culled_prefix(walls, shots, n).len() ==> {
                let i = #[trigger] culled_prefix(walls, shots, n)[k];
                i < n && past_walls(walls, shots[i as int])
            },
        forall|j: int, k: int|
            0 <= j < k < culled_prefix(walls, shots, n).len() ==> culled_prefix(walls, shots, n)[j]
                < culled_prefix(walls, shots, n)[k],
        forall|i: int|
            0 <= i < n && past_walls(walls, #[trigger] shots[i]) ==> culled_prefix(
                walls,
                shots,
                n,
            ).contains(i as usize),
    decreases n,
{
    if n > 0 {
        let m = (n - 1) as nat;
        lemma_culled_prefix(walls, shots, m);
        let before = culled_prefix(walls, shots, m);
        let now = culled_prefix(walls, shots, n);
        assert forall|i: int| 0 <= i < n && past_walls(walls, #[trigger] shots[i]) implies now.contains(
            i as usize,
        ) by {
            if i < m {
                let k = choose|k: int| 0 <= k < before.len() && before[k] == i as usize;
                assert(now[k] == i as usize);
            } else {
                assert(now[now.len() - 1] == i as usize);
            }
        }
    }
}

impl ArenaWalls {
    /// Walls at the given positions, each present.
    pub fn new(left: i32, right: i32, top: i32, bottom: i32) -> (r: Self)
        ensures
            r.left == Some(left),
            r.right == Some(right),
            r.top == Some(top),
            r.bottom == Some(bottom),
    {
        ArenaWalls { left: Some(left), right: Some(right), top: Some(top), bottom: Some(bottom) }
    }
}

/// The sign bit of an IEEE single-precision number.
pub const SIGN_BIT: u32 = 0x8000_0000;

/// The coordinate of the number whose IEEE single-precision bits are `bits`:
/// the bits read as sign and magnitude. For numbers that are not NaN this
/// orders as the numbers do, and both zeros give 0.
pub open spec fn coordinate_of_bits(bits: u32) -> int {
    if bits >= SIGN_BIT {
        -(bits - SIGN_BIT)
    } else {
        bits as int
    }
}

/// The coordinate of the number whose IEEE single-precision bits are `bits`.
pub fn coordinate_from_bits(bits: u32) -> (r: i32)
    ensures
        r as int == coordinate_of_bits(bits),
{
    if bits >= SIGN_BIT {
        -((bits - SIGN_BIT) as i32)
    } else {
        bits as i32
    }
}

/// Whether `shot` lies beyond one of the walls that exist, and so leaves play.
pub fn is_past_walls(walls: &ArenaWalls, shot: ShotPosition) -> (r: bool)
    ensures
        r == past_walls(*walls, shot),
{
    if let Some(l) = walls.left {
        if shot.x < l {
            return true;
        }
    }
    if let Some(r) = walls.right {
        if shot.x > r {
            return true;
        }
    }
    if let Some(t) = walls.top {
        if shot.y > t {
            return true;
        }
    }
    if let Some(b) = walls.bottom {
        if shot.y < b {
            return true;
        }
    }
    false
}

/// The indices, in increasing order, of the shots in `shots` that leave play.
pub fn shots_to_despawn(walls: &ArenaWalls, shots: &Vec<ShotPosition>) -> (r: Vec<usize>)
    ensures
        r@ == culled(*walls, shots@),
{
    let mut r: Vec<usize> = Vec::new();
    let mut i: usize = 0;
    while i < shots.len()
        invariant
            i <= shots@.len(),
            r@ == culled_prefix(*walls, shots@, i as nat),
        decreases shots@.len() - i,
    {
        if is_past_walls(walls, shots[i]) {
            r.push(i);
        }
        i = i + 1;
    }
    r
}

} // verus!

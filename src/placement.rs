use rand::Rng;
use vstd::prelude::*;

verus! {

/// Left edge of the band where entities enter the road, inclusive.
pub const SPAWN_X_MIN: i64 = 800_000_000;
/// Right edge of the entry band, exclusive.
pub const SPAWN_X_END: i64 = 1_600_000_000;
/// Lowest entry height, inclusive.
pub const SPAWN_Y_MIN: i64 = -300_000_000;
/// Highest entry height, exclusive.
pub const SPAWN_Y_END: i64 = 300_000_000;

/// A spot where an obstacle or a collectible may enter the road.
pub open spec fn spawn_ok(p: (i64, i64)) -> bool {
    &&& SPAWN_X_MIN <= p.0 < SPAWN_X_END
    &&& SPAWN_Y_MIN <= p.1 < SPAWN_Y_END
}

/// Relies on `rand::thread_rng` and `Rng::gen_range` of rand: a value drawn
/// from the half-open range `lo..hi`; it panics when that range is empty.
#[verifier::external_body]
fn draw_in(lo: i64, hi: i64) -> (r: i64)
    requires
        lo < hi,
    ensures
        lo <= r < hi,
{
    rand::thread_rng().gen_range(lo..hi)
}

/// A random entry spot, drawn uniformly from the entry band.
pub fn random_spot() -> (r: (i64, i64))
    ensures
        spawn_ok(r),
{
    let x = draw_in(SPAWN_X_MIN, SPAWN_X_END);
    let y = draw_in(SPAWN_Y_MIN, SPAWN_Y_END);
    (x, y)
}

/// `n` random entry spots.
pub fn random_spots(n: usize) -> (r: Vec<(i64, i64)>)
    ensures
        r@.len() == n,
        forall|i: int| 0 <= i < n ==> spawn_ok(#[trigger] r@[i]),
{
    let mut r: Vec<(i64, i64)> = Vec::new();
    let mut i: usize = 0;
    while i < n
        invariant
            0 <= i <= n,
            r@.len() == i,
            forall|j: int| 0 <= j < i ==> spawn_ok(#[trigger] r@[j]),
        decreases n - i,
    {
        let p = random_spot();
        r.push(p);
        i = i + 1;
    }
    r
}

} // verus!

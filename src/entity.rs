use vstd::prelude::*;

verus! {

/// What an entity is for; collisions are resolved by the pair of kinds.
#[derive(Clone, Copy, Debug, PartialEq, Eq, Structural)]
pub enum Kind {
    Player,
    RoadMarker,
    Obstacle,
    Collectible,
}

/// A scrolling entity of the scene. `style` picks the look of an obstacle
/// from a small palette; it is zero for the other kinds.
#[derive(Clone, Copy, Debug, PartialEq, Eq, Structural)]
pub struct Entity {
    pub id: u64,
    pub kind: Kind,
    pub style: u64,
    pub x: i64,
    pub y: i64,
}

/// The entities of a sequence whose id differs from `id`.
pub open spec fn without(s: Seq<Entity>, id: u64) -> Seq<Entity> {
    s.filter(|e: Entity| e.id != id)
}

/// The entities of a sequence that are of kind `k`.
pub open spec fn of_kind(s: Seq<Entity>, k: Kind) -> Seq<Entity> {
    s.filter(|e: Entity| e.kind == k)
}

/// Every id lies in `1..next` and no two entities share one.
pub open spec fn ids_ok(s: Seq<Entity>, next: u64) -> bool {
    &&& 0 < next
    &&& forall|i: int| 0 <= i < s.len() ==> 0 < #[trigger] s[i].id < next
    &&& forall|i: int, j: int| 0 <= i < j < s.len() ==> #[trigger] s[i].id != #[trigger] s[j].id
}

/// Removing an id keeps the ids in range and distinct.
pub proof fn lemma_without_keeps_ids(s: Seq<Entity>, id: u64, next: u64)
    requires
        ids_ok(s, next),
    ensures
        ids_ok(without(s, id), next),
    decreases s.len(),
{
    reveal_with_fuel(Seq::filter, 1);
    if s.len() > 0 {
        let d = s.drop_last();
        let last = s.last();
        assert(ids_ok(d, next));
        lemma_without_keeps_ids(d, id, next);
        let wd = without(d, id);
        if last.id != id {
            assert(without(s, id) == wd.push(last));
            assert forall|k: int| 0 <= k < wd.len() implies wd[k].id != last.id by {
                let e = wd[k];
                assert(wd.contains(e));
                d.lemma_filter_contains_rev(|e: Entity| e.id != id, e);
                let j = choose|j: int| 0 <= j < d.len() && d[j] == e;
                assert(s[j] == e);
            }
            assert(ids_ok(wd.push(last), next));
        } else {
            assert(without(s, id) == wd);
        }
    }
}

/// Removes every entity with the given id; an absent id leaves the
/// sequence as it was.
pub fn remove_id(v: &mut Vec<Entity>, id: u64)
    ensures
        final(v)@ == without(old(v)@, id),
{
    let ghost s = old(v)@;
    let mut kept: Vec<Entity> = Vec::new();
    let mut i: usize = 0;
    while i < v.len()
        invariant
            v@ == s,
            0 <= i <= s.len(),
            kept@ == without(s.subrange(0, i as int), id),
        decreases s.len() - i,
    {
        let e = v[i];
        proof {
            let t = s.subrange(0, i + 1);
            assert(t.drop_last() =~= s.subrange(0, i as int));
            assert(t.last() == e);
            reveal_with_fuel(Seq::filter, 1);
        }
        if e.id != id {
            kept.push(e);
        }
        i = i + 1;
    }
    proof {
        assert(s.subrange(0, s.len() as int) =~= s);
    }
    *v = kept;
}

/// The number of entities of kind `k`.
pub fn count_kind(v: &Vec<Entity>, k: Kind) -> (r: usize)
    ensures
        r == of_kind(v@, k).len(),
{
    let ghost s = v@;
    let mut n: usize = 0;
    let mut i: usize = 0;
    while i < v.len()
        invariant
            v@ == s,
            0 <= i <= s.len(),
            n == of_kind(s.subrange(0, i as int), k).len(),
            n <= i,
        decreases s.len() - i,
    {
        proof {
            let t = s.subrange(0, i + 1);
            assert(t.drop_last() =~= s.subrange(0, i as int));
            assert(t.last() == s[i as int]);
            reveal_with_fuel(Seq::filter, 1);
        }
        if v[i].kind == k {
            n = n + 1;
        }
        i = i + 1;
    }
    proof {
        assert(s.subrange(0, s.len() as int) =~= s);
    }
    n
}

} // verus!

use vstd::prelude::*;

verus! {

/// Member `i` holds the nearest hit of `keys`: it has a hit, no member's hit is
/// nearer, and every member before it with a hit is strictly farther.
pub open spec fn is_nearest(keys: Seq<Option<u32>>, i: int) -> bool {
    &&& 0 <= i < keys.len()
    &&& keys[i] is Some
    &&& forall|j: int| 0 <= j < keys.len() && keys[j] is Some ==> keys[i]->0 <= keys[j]->0
    &&& forall|j: int| 0 <= j < i && keys[j] is Some ==> keys[i]->0 < keys[j]->0
}

/// No member is hit.
pub open spec fn no_hit(keys: Seq<Option<u32>>) -> bool {
    forall|j: int| 0 <= j < keys.len() ==> keys[j] is None
}

/// Picks the member whose hit is nearest along the ray, from each member's hit
/// key over the same parameter range (`None` where a member is missed), the
/// keys ordered as the ray parameters are (see `crate::order::ordered_key`).
/// The range is narrowed to the nearest hit so far while scanning, so a later
/// member at the same distance does not replace an earlier one.
pub fn closest_hit(keys: &Vec<Option<u32>>) -> (r: Option<usize>)
    ensures
        r is None <==> no_hit(keys@),
        r matches Some(i) ==> is_nearest(keys@, i as int),
{
    let mut best: Option<usize> = None;
    let mut closest: u32 = 0;
    let mut i: usize = 0;
    while i < keys.len()
        invariant
            0 <= i <= keys@.len(),
            best is None ==> forall|j: int| 0 <= j < i ==> keys@[j] is None,
            best matches Some(b) ==> {
                &&& b < i
                &&& keys@[b as int] == Some(closest)
                &&& forall|j: int| 0 <= j < i && keys@[j] is Some ==> closest <= keys@[j]->0
                &&& forall|j: int| 0 <= j < b && keys@[j] is Some ==> closest < keys@[j]->0
            },
        decreases keys@.len() - i,
    {
        if let Some(k) = keys[i] {
            let nearer = match best {
                None => true,
                Some(_) => k < closest,
            };
            if nearer {
                best = Some(i);
                closest = k;
            }
        }
        i = i + 1;
    }
    best
}

/// At most one member holds the nearest hit.
pub proof fn lemma_nearest_unique(keys: Seq<Option<u32>>, a: int, b: int)
    requires
        is_nearest(keys, a),
        is_nearest(keys, b),
    ensures
        a == b,
{
}

/// Some member holds the nearest hit whenever any member is hit.
pub proof fn lemma_nearest_exists(keys: Seq<Option<u32>>) -> (m: int)
    requires
        !no_hit(keys),
    ensures
        is_nearest(keys, m),
    decreases keys.len(),
{
    let n = keys.len() - 1;
    let init = keys.drop_last();
    if no_hit(init) {
        let w = choose|w: int| 0 <= w < keys.len() && !(keys[w] is None);
        if w < n {
            assert(init[w] == keys[w]);
        }
        assert forall|j: int| 0 <= j < n implies keys[j] is None by {
            assert(init[j] == keys[j]);
        }
        assert(is_nearest(keys, n));
        n
    } else {
        let m0 = lemma_nearest_exists(init);
        assert(init[m0] == keys[m0]);
        if keys[n] matches Some(k) && k < keys[m0]->0 {
            assert forall|j: int| 0 <= j < keys.len() && keys[j] is Some implies keys[n]->0
                <= keys[j]->0 by {
                if j < n {
                    assert(init[j] == keys[j]);
                }
            }
            assert forall|j: int| 0 <= j < n && keys[j] is Some implies keys[n]->0 < keys[j]->0 by {
                assert(init[j] == keys[j]);
            }
            n
        } else {
            assert forall|j: int| 0 <= j < keys.len() && keys[j] is Some implies keys[m0]->0
                <= keys[j]->0 by {
                if j < n {
                    assert(init[j] == keys[j]);
                }
            }
            assert forall|j: int| 0 <= j < m0 && keys[j] is Some implies keys[m0]->0
                < keys[j]->0 by {
                assert(init[j] == keys[j]);
            }
            m0
        }
    }
}

/// Giving one member a hit nearer than the current nearest hit (any hit, if
/// there is none) makes that member the nearest.
pub proof fn lemma_nearer_member_wins(keys: Seq<Option<u32>>, i: int, k: u32)
    requires
        0 <= i < keys.len(),
        forall|m: int| is_nearest(keys, m) ==> k < keys[m]->0,
    ensures
        forall|m: int| is_nearest(keys.update(i, Some(k)), m) <==> m == i,
{
    let upd = keys.update(i, Some(k));
    assert forall|j: int| 0 <= j < upd.len() && j != i && upd[j] is Some implies k
        < upd[j]->0 by {
        assert(!no_hit(keys));
        let m = lemma_nearest_exists(keys);
    }
    assert(is_nearest(upd, i));
    assert forall|m: int| is_nearest(upd, m) implies m == i by {
        lemma_nearest_unique(upd, m, i);
    }
}

} // verus!

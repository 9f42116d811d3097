//! The sequencer of light changes: a list of pending points, each a time,
//! a light value and the set of addresses that go to that value then,
//! kept in time order. A new sequence for some addresses takes them out of
//! the points from its start on, and its points are merged with pending
//! points close in time that have the same value.
//!
//! Times are integers (such as milliseconds). A light value is held as a
//! key: two points have the same value exactly when their keys are equal.
use vstd::prelude::*;
use crate::address_set::AddressSet;

verus! {

/// A point of a light sequence: when the light takes the value `value`.
#[derive(Debug, Clone, Copy, PartialEq, Eq, Structural)]
pub struct LightSequencePoint {
    pub when: i64,
    pub value: u64,
}

/// A pending point: the addresses it is for, and the point.
pub type Entry = (Set<u8>, LightSequencePoint);

/// The pending points, their address sets taken by their members.
pub open spec fn entries(v: Seq<(AddressSet, LightSequencePoint)>) -> Seq<Entry> {
    v.map_values(|e: (AddressSet, LightSequencePoint)| (e.0@, e.1))
}

/// The points of `p` with the addresses `addrs` taken out of those from
/// time `from` on; a point left without addresses is dropped.
pub open spec fn spec_withdraw(p: Seq<Entry>, from: i64, addrs: Set<u8>) -> Seq<Entry>
    decreases p.len(),
{
    if p.len() == 0 {
        p
    } else {
        let rest = spec_withdraw(p.drop_last(), from, addrs);
        let e = p.last();
        if from <= e.1.when {
            let s = e.0.difference(addrs);
            if s == Set::<u8>::empty() {
                rest
            } else {
                rest.push((s, e.1))
            }
        } else {
            rest.push(e)
        }
    }
}

/// The search for the place of a point at `when`: from `next` on, move
/// past the points not later than `when`; `prev` is the last point passed.
pub open spec fn spec_advance(p: Seq<Entry>, prev: Option<int>, next: int, when: i64) -> (
    Option<int>,
    int,
)
    decreases p.len() - next,
{
    if 0 <= next < p.len() && when >= p[next].1.when {
        spec_advance(p, Some(next), next + 1, when)
    } else {
        (prev, next)
    }
}

/// Point `k` of `p` has value `value` and lies less than `limit` away in time
/// (by `dist`).
pub open spec fn mergeable(p: Seq<Entry>, k: int, value: u64, dist: int, limit: i64) -> bool {
    dist < limit && p[k].1.value == value
}

/// `p` with `addrs` added to the addresses of point `k`.
pub open spec fn merge_into(p: Seq<Entry>, k: int, addrs: Set<u8>) -> Seq<Entry> {
    p.update(k, (p[k].0.union(addrs), p[k].1))
}

/// Placing point `l` for `addrs`, the search starting at (`prev`, `next`):
/// the point is merged into the point before its place when that one is
/// close enough and has the same value, else into the point after its
/// place when that one is, else it is inserted at its place. The result is
/// the points and where the search goes on.
pub open spec fn spec_place(
    p: Seq<Entry>,
    prev: Option<int>,
    next: int,
    l: LightSequencePoint,
    addrs: Set<u8>,
    limit: i64,
) -> (Seq<Entry>, Option<int>, int) {
    let (pv, nx) = spec_advance(p, prev, next, l.when);
    if pv is Some && mergeable(p, pv->0, l.value, l.when - p[pv->0].1.when, limit) {
        (merge_into(p, pv->0, addrs), pv, nx)
    } else if nx < p.len() && mergeable(p, nx, l.value, p[nx].1.when - l.when, limit) {
        (merge_into(p, nx, addrs), pv, nx)
    } else {
        (p.insert(nx, (addrs, l)), pv, nx + 1)
    }
}

/// Placing the points `light[i..]` in turn.
pub open spec fn spec_place_all(
    p: Seq<Entry>,
    prev: Option<int>,
    next: int,
    light: Seq<LightSequencePoint>,
    i: int,
    addrs: Set<u8>,
    limit: i64,
) -> Seq<Entry>
    decreases light.len() - i,
{
    if i < 0 || i >= light.len() {
        p
    } else {
        let (p2, pv, nx) = spec_place(p, prev, next, light[i], addrs, limit);
        spec_place_all(p2, pv, nx, light, i + 1, addrs, limit)
    }
}

/// The pending points after adding the sequence `light` for `addrs`: the
/// addresses leave the points from the sequence's start on; then, when no
/// point is left, the sequence's points become the pending points, else
/// each is placed in turn.
pub open spec fn spec_add_sequence(
    p: Seq<Entry>,
    addrs: Set<u8>,
    light: Seq<LightSequencePoint>,
    limit: i64,
) -> Seq<Entry> {
    if light.len() == 0 {
        p
    } else {
        let w = spec_withdraw(p, light[0].when, addrs);
        if w.len() == 0 {
            light.map_values(|l: LightSequencePoint| (addrs, l))
        } else {
            spec_place_all(w, None, 0, light, 0, addrs, limit)
        }
    }
}

/// The points are in time order.
pub open spec fn in_time_order(p: Seq<Entry>) -> bool {
    forall|i: int, j: int| 0 <= i <= j < p.len() ==> p[i].1.when <= p[j].1.when
}

/// The light points are in time order.
pub open spec fn light_in_time_order(light: Seq<LightSequencePoint>) -> bool {
    forall|i: int, j: int| 0 <= i <= j < light.len() ==> light[i].when <= light[j].when
}

/// No point is without addresses.
pub open spec fn all_addressed(p: Seq<Entry>) -> bool {
    forall|i: int| 0 <= i < p.len() ==> p[i].0 != Set::<u8>::empty()
}

/// What the search finds: it moves on from `next` past points not later
/// than `when`, to the first later point or the end; `prev` becomes the
/// last point passed.
proof fn lemma_advance(p: Seq<Entry>, prev: Option<int>, next: int, when: i64)
    requires
        0 <= next <= p.len(),
        prev matches Some(k) ==> 0 <= k < next,
    ensures
        ({
            let (pv, nx) = spec_advance(p, prev, next, when);
            &&& next <= nx <= p.len()
            &&& pv matches Some(k) ==> 0 <= k < nx
            &&& forall|j: int| next <= j < nx ==> p[j].1.when <= when
            &&& nx < p.len() ==> p[nx].1.when > when
        }),
    decreases p.len() - next,
{
    if 0 <= next < p.len() && when >= p[next].1.when {
        lemma_advance(p, Some(next), next + 1, when);
    }
}

proof fn lemma_withdraw_bound(p: Seq<Entry>, from: i64, addrs: Set<u8>, b: int)
    requires
        forall|j: int| 0 <= j < p.len() ==> p[j].1.when <= b,
    ensures
        forall|j: int|
            0 <= j < spec_withdraw(p, from, addrs).len() ==> spec_withdraw(p, from, addrs)[j].1.when
                <= b,
    decreases p.len(),
{
    if p.len() > 0 {
        let q = p.drop_last();
        assert forall|j: int| 0 <= j < q.len() implies q[j].1.when <= b by {
            assert(q[j] == p[j]);
        }
        lemma_withdraw_bound(q, from, addrs, b);
        assert(p.last() == p[p.len() - 1]);
        let rest = spec_withdraw(q, from, addrs);
        let w = spec_withdraw(p, from, addrs);
        assert forall|j: int| 0 <= j < w.len() implies w[j].1.when <= b by {
            if j < rest.len() {
                assert(w[j] == rest[j]);
            }
        }
    }
}

proof fn lemma_withdraw_order(p: Seq<Entry>, from: i64, addrs: Set<u8>)
    requires
        in_time_order(p),
    ensures
        in_time_order(spec_withdraw(p, from, addrs)),
    decreases p.len(),
{
    if p.len() > 0 {
        let q = p.drop_last();
        lemma_withdraw_order(q, from, addrs);
        lemma_withdraw_bound(q, from, addrs, p.last().1.when as int);
    }
}

proof fn lemma_withdraw_addressed(p: Seq<Entry>, from: i64, addrs: Set<u8>)
    requires
        all_addressed(p),
    ensures
        all_addressed(spec_withdraw(p, from, addrs)),
    decreases p.len(),
{
    if p.len() > 0 {
        lemma_withdraw_addressed(p.drop_last(), from, addrs);
    }
}

/// The search state is sound for a point at `when`: the points are in time
/// order, and those before `next` are not later than `when`.
pub open spec fn search_ok(p: Seq<Entry>, prev: Option<int>, next: int, when: int) -> bool {
    &&& in_time_order(p)
    &&& 0 <= next <= p.len()
    &&& prev matches Some(k) ==> 0 <= k < next
    &&& forall|j: int| 0 <= j < next ==> p[j].1.when <= when
}

proof fn lemma_place_order(
    p: Seq<Entry>,
    prev: Option<int>,
    next: int,
    l: LightSequencePoint,
    addrs: Set<u8>,
    limit: i64,
)
    requires
        search_ok(p, prev, next, l.when as int),
    ensures
        ({
            let (p2, pv, nx) = spec_place(p, prev, next, l, addrs, limit);
            search_ok(p2, pv, nx, l.when as int)
        }),
{
    lemma_advance(p, prev, next, l.when);
    let (pv, nx) = spec_advance(p, prev, next, l.when);
    let (p2, pv2, nx2) = spec_place(p, prev, next, l, addrs, limit);
    if pv is Some && mergeable(p, pv->0, l.value, l.when - p[pv->0].1.when, limit) {
        assert(forall|j: int| 0 <= j < p.len() ==> p2[j].1 == p[j].1);
    } else if nx < p.len() && mergeable(p, nx, l.value, p[nx].1.when - l.when, limit) {
        assert(forall|j: int| 0 <= j < p.len() ==> p2[j].1 == p[j].1);
    } else {
        assert(p2 == p.insert(nx, (addrs, l)));
        assert forall|i: int, j: int| 0 <= i <= j < p2.len() implies p2[i].1.when <= p2[j].1.when by {
            if i < nx && j > nx {
                assert(p2[j] == p[j - 1]);
            }
        }
    }
}

proof fn lemma_place_addressed(
    p: Seq<Entry>,
    prev: Option<int>,
    next: int,
    l: LightSequencePoint,
    addrs: Set<u8>,
    limit: i64,
)
    requires
        all_addressed(p),
        addrs != Set::<u8>::empty(),
        0 <= next <= p.len(),
        prev matches Some(k) ==> 0 <= k < next,
    ensures
        ({
            let (p2, pv, nx) = spec_place(p, prev, next, l, addrs, limit);
            &&& all_addressed(p2)
            &&& 0 <= nx <= p2.len()
            &&& pv matches Some(k) ==> 0 <= k < nx
        }),
{
    lemma_advance(p, prev, next, l.when);
    let (pv, nx) = spec_advance(p, prev, next, l.when);
    let (p2, pv2, nx2) = spec_place(p, prev, next, l, addrs, limit);
    if pv is Some && mergeable(p, pv->0, l.value, l.when - p[pv->0].1.when, limit) {
        let k = pv->0;
        if p2[k].0 == Set::<u8>::empty() {
            assert(p[k].0 =~= Set::<u8>::empty());
        }
    } else if nx < p.len() && mergeable(p, nx, l.value, p[nx].1.when - l.when, limit) {
        if p2[nx].0 == Set::<u8>::empty() {
            assert(p[nx].0 =~= Set::<u8>::empty());
        }
    } else {
        assert forall|i: int| 0 <= i < p2.len() implies p2[i].0 != Set::<u8>::empty() by {
            if i > nx {
                assert(p2[i] == p[i - 1]);
            }
        }
    }
}

proof fn lemma_place_all_order(
    p: Seq<Entry>,
    prev: Option<int>,
    next: int,
    light: Seq<LightSequencePoint>,
    i: int,
    addrs: Set<u8>,
    limit: i64,
)
    requires
        light_in_time_order(light),
        0 <= i,
        i < light.len() ==> search_ok(p, prev, next, light[i].when as int),
        i >= light.len() ==> in_time_order(p),
    ensures
        in_time_order(spec_place_all(p, prev, next, light, i, addrs, limit)),
    decreases light.len() - i,
{
    if i < light.len() {
        lemma_place_order(p, prev, next, light[i], addrs, limit);
        let (p2, pv, nx) = spec_place(p, prev, next, light[i], addrs, limit);
        if i + 1 < light.len() {
            assert(light[i].when <= light[i + 1].when);
        }
        lemma_place_all_order(p2, pv, nx, light, i + 1, addrs, limit);
    }
}

proof fn lemma_place_all_addressed(
    p: Seq<Entry>,
    prev: Option<int>,
    next: int,
    light: Seq<LightSequencePoint>,
    i: int,
    addrs: Set<u8>,
    limit: i64,
)
    requires
        all_addressed(p),
        addrs != Set::<u8>::empty(),
        0 <= next <= p.len(),
        prev matches Some(k) ==> 0 <= k < next,
    ensures
        all_addressed(spec_place_all(p, prev, next, light, i, addrs, limit)),
    decreases light.len() - i,
{
    if 0 <= i < light.len() {
        lemma_place_addressed(p, prev, next, light[i], addrs, limit);
        let (p2, pv, nx) = spec_place(p, prev, next, light[i], addrs, limit);
        lemma_place_all_addressed(p2, pv, nx, light, i + 1, addrs, limit);
    }
}

/// Adding a sequence whose points are in time order keeps the pending
/// points in time order.
pub proof fn lemma_add_sequence_keeps_time_order(
    p: Seq<Entry>,
    addrs: Set<u8>,
    light: Seq<LightSequencePoint>,
    limit: i64,
)
    requires
        in_time_order(p),
        light_in_time_order(light),
    ensures
        in_time_order(spec_add_sequence(p, addrs, light, limit)),
{
    if light.len() > 0 {
        let w = spec_withdraw(p, light[0].when, addrs);
        lemma_withdraw_order(p, light[0].when, addrs);
        if w.len() > 0 {
            lemma_place_all_order(w, None, 0, light, 0, addrs, limit);
        }
    }
}

/// Adding a sequence for a non-empty set of addresses leaves no pending
/// point without addresses.
pub proof fn lemma_add_sequence_keeps_addressed(
    p: Seq<Entry>,
    addrs: Set<u8>,
    light: Seq<LightSequencePoint>,
    limit: i64,
)
    requires
        all_addressed(p),
        addrs != Set::<u8>::empty(),
    ensures
        all_addressed(spec_add_sequence(p, addrs, light, limit)),
{
    if light.len() > 0 {
        let w = spec_withdraw(p, light[0].when, addrs);
        lemma_withdraw_addressed(p, light[0].when, addrs);
        if w.len() > 0 {
            lemma_place_all_addressed(w, None, 0, light, 0, addrs, limit);
        }
    }
}

/// Point `a` has the value of `l` and lies less than `limit` away from it in
/// time, before or after.
pub open spec fn near(a: LightSequencePoint, l: LightSequencePoint, limit: i64) -> bool {
    &&& a.value == l.value
    &&& a.when - l.when < limit
    &&& l.when - a.when < limit
}

/// Pending point `e` stands for light point `l` of the addresses `addrs`:
/// it holds them all and is near `l`.
pub open spec fn covers(e: Entry, l: LightSequencePoint, addrs: Set<u8>, limit: i64) -> bool {
    addrs.subset_of(e.0) && near(e.1, l, limit)
}

/// Some point of `p` stands for light point `l` of the addresses `addrs`.
pub open spec fn covered(p: Seq<Entry>, l: LightSequencePoint, addrs: Set<u8>, limit: i64) -> bool {
    exists|j: int| 0 <= j < p.len() && #[trigger] covers(p[j], l, addrs, limit)
}

/// Pending point `e` stands for some point of `light` of the addresses
/// `addrs`.
pub open spec fn taken_from(
    e: Entry,
    light: Seq<LightSequencePoint>,
    addrs: Set<u8>,
    limit: i64,
) -> bool {
    exists|k: int| 0 <= k < light.len() && #[trigger] covers(e, light[k], addrs, limit)
}

/// Every point of `p` from time `from` on either holds none of `addrs` or
/// stands for a point of `light` of them.
pub open spec fn withdrawn_unless_taken(
    p: Seq<Entry>,
    from: i64,
    addrs: Set<u8>,
    light: Seq<LightSequencePoint>,
    limit: i64,
) -> bool {
    forall|j: int|
        0 <= j < p.len() && from <= p[j].1.when ==> (#[trigger] p[j]).0.disjoint(addrs)
            || taken_from(p[j], light, addrs, limit)
}

/// The first `i` points of `light` are covered in `p`, and the points of `p`
/// from `from` on were withdrawn from `addrs` or stand for a light point.
pub open spec fn placed_so_far(
    p: Seq<Entry>,
    from: i64,
    addrs: Set<u8>,
    light: Seq<LightSequencePoint>,
    i: int,
    limit: i64,
) -> bool {
    &&& forall|k: int| 0 <= k < i ==> covered(p, #[trigger] light[k], addrs, limit)
    &&& withdrawn_unless_taken(p, from, addrs, light, limit)
}

proof fn lemma_withdraw_disjoint(p: Seq<Entry>, from: i64, addrs: Set<u8>)
    ensures
        forall|j: int|
            0 <= j < spec_withdraw(p, from, addrs).len() && from <= spec_withdraw(
                p,
                from,
                addrs,
            )[j].1.when ==> spec_withdraw(p, from, addrs)[j].0.disjoint(addrs),
    decreases p.len(),
{
    if p.len() > 0 {
        let q = p.drop_last();
        lemma_withdraw_disjoint(q, from, addrs);
        let rest = spec_withdraw(q, from, addrs);
        let w = spec_withdraw(p, from, addrs);
        assert forall|j: int| 0 <= j < w.len() && from <= w[j].1.when implies w[j].0.disjoint(
            addrs,
        ) by {
            if j < rest.len() {
                assert(w[j] == rest[j]);
            }
        }
    }
}

proof fn lemma_covered_merge(p: Seq<Entry>, m: int, l: LightSequencePoint, addrs: Set<u8>, limit: i64)
    requires
        0 <= m < p.len(),
        covered(p, l, addrs, limit),
    ensures
        covered(merge_into(p, m, addrs), l, addrs, limit),
{
    let j = choose|j: int| 0 <= j < p.len() && #[trigger] covers(p[j], l, addrs, limit);
    let q = merge_into(p, m, addrs);
    assert(covers(q[j], l, addrs, limit));
}

proof fn lemma_covered_insert(
    p: Seq<Entry>,
    x: int,
    e: Entry,
    l: LightSequencePoint,
    addrs: Set<u8>,
    limit: i64,
)
    requires
        0 <= x <= p.len(),
        covered(p, l, addrs, limit),
    ensures
        covered(p.insert(x, e), l, addrs, limit),
{
    let j = choose|j: int| 0 <= j < p.len() && #[trigger] covers(p[j], l, addrs, limit);
    let q = p.insert(x, e);
    if j < x {
        assert(q[j] == p[j]);
        assert(covers(q[j], l, addrs, limit));
    } else {
        assert(q[j + 1] == p[j]);
        assert(covers(q[j + 1], l, addrs, limit));
    }
}

/// Placing light point `i` keeps what the earlier ones placed and covers it.
proof fn lemma_place_covers(
    p: Seq<Entry>,
    prev: Option<int>,
    next: int,
    from: i64,
    light: Seq<LightSequencePoint>,
    i: int,
    addrs: Set<u8>,
    limit: i64,
)
    requires
        0 <= i < light.len(),
        limit > 0,
        search_ok(p, prev, next, light[i].when as int),
        placed_so_far(p, from, addrs, light, i, limit),
    ensures
        ({
            let (p2, pv, nx) = spec_place(p, prev, next, light[i], addrs, limit);
            placed_so_far(p2, from, addrs, light, i + 1, limit)
        }),
{
    let l = light[i];
    lemma_advance(p, prev, next, l.when);
    let (pv, nx) = spec_advance(p, prev, next, l.when);
    let (p2, pv2, nx2) = spec_place(p, prev, next, l, addrs, limit);
    if pv is Some && mergeable(p, pv->0, l.value, l.when - p[pv->0].1.when, limit) {
        let m = pv->0;
        assert(p[m].1.when <= l.when);
        assert(covers(p2[m], l, addrs, limit));
        assert forall|k: int| 0 <= k < i + 1 implies covered(p2, #[trigger] light[k], addrs, limit) by {
            if k < i {
                lemma_covered_merge(p, m, light[k], addrs, limit);
            }
        }
        assert forall|j: int| 0 <= j < p2.len() && from <= p2[j].1.when implies (#[trigger] p2[j]).0.disjoint(
            addrs,
        ) || taken_from(p2[j], light, addrs, limit) by {
            if j == m {
                assert(covers(p2[j], light[i], addrs, limit));
            } else {
                assert(p2[j] == p[j]);
            }
        }
    } else if nx < p.len() && mergeable(p, nx, l.value, p[nx].1.when - l.when, limit) {
        assert(covers(p2[nx], l, addrs, limit));
        assert forall|k: int| 0 <= k < i + 1 implies covered(p2, #[trigger] light[k], addrs, limit) by {
            if k < i {
                lemma_covered_merge(p, nx, light[k], addrs, limit);
            }
        }
        assert forall|j: int| 0 <= j < p2.len() && from <= p2[j].1.when implies (#[trigger] p2[j]).0.disjoint(
            addrs,
        ) || taken_from(p2[j], light, addrs, limit) by {
            if j == nx {
                assert(covers(p2[j], light[i], addrs, limit));
            } else {
                assert(p2[j] == p[j]);
            }
        }
    } else {
        let e = (addrs, l);
        assert(p2 == p.insert(nx, e));
        assert(p2[nx] == e);
        assert(covers(p2[nx], l, addrs, limit));
        assert forall|k: int| 0 <= k < i + 1 implies covered(p2, #[trigger] light[k], addrs, limit) by {
            if k < i {
                lemma_covered_insert(p, nx, e, light[k], addrs, limit);
            }
        }
        assert forall|j: int| 0 <= j < p2.len() && from <= p2[j].1.when implies (#[trigger] p2[j]).0.disjoint(
            addrs,
        ) || taken_from(p2[j], light, addrs, limit) by {
            if j == nx {
                assert(covers(p2[j], light[i], addrs, limit));
            } else if j < nx {
                assert(p2[j] == p[j]);
            } else {
                assert(p2[j] == p[j - 1]);
            }
        }
    }
}

proof fn lemma_place_all_covers(
    p: Seq<Entry>,
    prev: Option<int>,
    next: int,
    from: i64,
    light: Seq<LightSequencePoint>,
    i: int,
    addrs: Set<u8>,
    limit: i64,
)
    requires
        light_in_time_order(light),
        limit > 0,
        0 <= i <= light.len(),
        i < light.len() ==> search_ok(p, prev, next, light[i].when as int),
        placed_so_far(p, from, addrs, light, i, limit),
    ensures
        placed_so_far(
            spec_place_all(p, prev, next, light, i, addrs, limit),
            from,
            addrs,
            light,
            light.len() as int,
            limit,
        ),
    decreases light.len() - i,
{
    if i < light.len() {
        lemma_place_covers(p, prev, next, from, light, i, addrs, limit);
        lemma_place_order(p, prev, next, light[i], addrs, limit);
        let (p2, pv, nx) = spec_place(p, prev, next, light[i], addrs, limit);
        if i + 1 < light.len() {
            assert(light[i].when <= light[i + 1].when);
        }
        lemma_place_all_covers(p2, pv, nx, from, light, i + 1, addrs, limit);
    }
}

/// Adding a sequence in time order to pending points in time order, with a
/// positive merge limit: each point of the sequence is stood for by a
/// pending point of its value, less than the limit away in time, that holds
/// all the sequence's addresses; and each pending point from the sequence's
/// start on either holds none of those addresses or stands for a point of
/// the sequence. An empty sequence changes nothing.
pub proof fn lemma_add_sequence_places_points(
    p: Seq<Entry>,
    addrs: Set<u8>,
    light: Seq<LightSequencePoint>,
    limit: i64,
)
    requires
        in_time_order(p),
        light_in_time_order(light),
        limit > 0,
    ensures
        light.len() == 0 ==> spec_add_sequence(p, addrs, light, limit) == p,
        forall|k: int|
            0 <= k < light.len() ==> covered(
                spec_add_sequence(p, addrs, light, limit),
                #[trigger] light[k],
                addrs,
                limit,
            ),
        light.len() > 0 ==> withdrawn_unless_taken(
            spec_add_sequence(p, addrs, light, limit),
            light[0].when,
            addrs,
            light,
            limit,
        ),
{
    if light.len() > 0 {
        let from = light[0].when;
        let w = spec_withdraw(p, from, addrs);
        lemma_withdraw_disjoint(p, from, addrs);
        if w.len() == 0 {
            let r = light.map_values(|l: LightSequencePoint| (addrs, l));
            assert forall|k: int| 0 <= k < light.len() implies covered(r, #[trigger] light[k], addrs, limit) by {
                assert(covers(r[k], light[k], addrs, limit));
            }
            assert forall|j: int| 0 <= j < r.len() && from <= r[j].1.when implies (#[trigger] r[j]).0.disjoint(
                addrs,
            ) || taken_from(r[j], light, addrs, limit) by {
                assert(covers(r[j], light[j], addrs, limit));
            }
        } else {
            lemma_withdraw_order(p, from, addrs);
            lemma_place_all_covers(w, None, 0, from, light, 0, addrs, limit);
        }
    }
}

/// An index as an integer.
pub open spec fn opt_int(o: Option<usize>) -> Option<int> {
    match o {
        Some(k) => Some(k as int),
        None => None,
    }
}

fn withdraw(pending: &Vec<(AddressSet, LightSequencePoint)>, from: i64, addrs: AddressSet) -> (r: Vec<
    (AddressSet, LightSequencePoint),
>)
    ensures
        entries(r@) == spec_withdraw(entries(pending@), from, addrs@),
{
    let ghost all = entries(pending@);
    let mut out: Vec<(AddressSet, LightSequencePoint)> = Vec::new();
    let mut i: usize = 0;
    while i < pending.len()
        invariant
            i <= pending.len(),
            all == entries(pending@),
            entries(out@) == spec_withdraw(all.take(i as int), from, addrs@),
        decreases pending.len() - i,
    {
        let (s, pt) = pending[i];
        assert(all.take(i + 1).drop_last() =~= all.take(i as int));
        assert(all.take(i + 1).last() == (s@, pt));
        let ghost before = out@;
        if from <= pt.when {
            let s2 = s - addrs;
            if !s2.is_empty() {
                out.push((s2, pt));
                assert(entries(out@) =~= entries(before).push((s2@, pt)));
            }
        } else {
            out.push((s, pt));
            assert(entries(out@) =~= entries(before).push((s@, pt)));
        }
        i = i + 1;
    }
    assert(all.take(pending.len() as int) =~= all);
    out
}

/// Places point `l` for `addrs` in `pending`, the search starting at
/// (`prev`, `next`): see `spec_place`. The result is where the search goes on.
fn place(
    pending: &mut Vec<(AddressSet, LightSequencePoint)>,
    prev: Option<usize>,
    next: usize,
    l: LightSequencePoint,
    addrs: AddressSet,
    merge_limit: i64,
) -> (r: (Option<usize>, usize))
    requires
        next <= old(pending)@.len(),
        prev matches Some(k) ==> k < next,
    ensures
        ({
            let (p2, pv, nx) = spec_place(
                entries(old(pending)@),
                opt_int(prev),
                next as int,
                l,
                addrs@,
                merge_limit,
            );
            entries(final(pending)@) == p2 && opt_int(r.0) == pv && r.1 as int == nx
        }),
        r.1 <= final(pending)@.len(),
        r.0 matches Some(k) ==> k < r.1,
{
    let ghost p = entries(pending@);
    let ghost target = spec_advance(p, opt_int(prev), next as int, l.when);
    let mut prev = prev;
    let mut next = next;
    while next < pending.len() && l.when >= pending[next].1.when
        invariant
            next <= pending@.len(),
            p == entries(pending@),
            prev matches Some(k) ==> k < next,
            spec_advance(p, opt_int(prev), next as int, l.when) == target,
        decreases pending.len() - next,
    {
        prev = Some(next);
        next = next + 1;
    }
    let merge_prev = match prev {
        Some(k) => (l.when as i128) - (pending[k].1.when as i128) < merge_limit as i128
            && pending[k].1.value == l.value,
        None => false,
    };
    if merge_prev {
        let k = prev.unwrap();
        let (s, pt) = pending[k];
        pending.set(k, (s + addrs, pt));
        assert(entries(pending@) =~= merge_into(p, k as int, addrs@));
        (prev, next)
    } else if next < pending.len() && (pending[next].1.when as i128) - (l.when as i128)
        < merge_limit as i128 && pending[next].1.value == l.value {
        let (s, pt) = pending[next];
        pending.set(next, (s + addrs, pt));
        assert(entries(pending@) =~= merge_into(p, next as int, addrs@));
        (prev, next)
    } else {
        pending.insert(next, (addrs, l));
        assert(entries(pending@) =~= p.insert(next as int, (addrs@, l)));
        let len = pending.len();
        assert(next < len);
        (prev, next + 1)
    }
}

/// The sequencer: the pending points.
pub struct Sequencer {
    pending: Vec<(AddressSet, LightSequencePoint)>,
}

impl View for Sequencer {
    type V = Seq<Entry>;

    closed spec fn view(&self) -> Seq<Entry> {
        entries(self.pending@)
    }
}

impl Sequencer {
    /// A sequencer with no pending point.
    pub fn new() -> (s: Sequencer)
        ensures
            s@ == Seq::<Entry>::empty(),
    {
        let s = Sequencer { pending: Vec::new() };
        assert(s@ =~= Seq::<Entry>::empty());
        s
    }

    /// Adds the sequence `light` for the addresses `addrs`: see
    /// `spec_add_sequence`. A point is merged with a pending point of the
    /// same value less than `merge_limit` away in time.
    pub fn add_sequence(&mut self, addrs: AddressSet, light: &[LightSequencePoint], merge_limit: i64)
        ensures
            final(self)@ == spec_add_sequence(old(self)@, addrs@, light@, merge_limit),
    {
        if light.len() == 0 {
            return;
        }
        let first_ts = light[0].when;
        let mut pending = withdraw(&self.pending, first_ts, addrs);
        if pending.len() == 0 {
            let mut i: usize = 0;
            while i < light.len()
                invariant
                    i <= light@.len(),
                    entries(pending@) == light@.take(i as int).map_values(
                        |l: LightSequencePoint| (addrs@, l),
                    ),
                decreases light.len() - i,
            {
                let ghost before = pending@;
                pending.push((addrs, light[i]));
                assert(entries(pending@) =~= entries(before).push((addrs@, light@[i as int])));
                assert(light@.take(i + 1).map_values(|l: LightSequencePoint| (addrs@, l))
                    =~= light@.take(i as int).map_values(|l: LightSequencePoint| (addrs@, l)).push(
                    (addrs@, light@[i as int]),
                ));
                i = i + 1;
            }
            assert(light@.take(light.len() as int) =~= light@);
            self.pending = pending;
            return;
        }
        let ghost target = spec_place_all(entries(pending@), None, 0, light@, 0, addrs@, merge_limit);
        let mut prev: Option<usize> = None;
        let mut next: usize = 0;
        let mut i: usize = 0;
        while i < light.len()
            invariant
                i <= light@.len(),
                next <= pending@.len(),
                prev matches Some(k) ==> k < next,
                spec_place_all(entries(pending@), opt_int(prev), next as int, light@, i as int, addrs@, merge_limit)
                    == target,
            decreases light.len() - i,
        {
            let (pv, nx) = place(&mut pending, prev, next, light[i], addrs, merge_limit);
            prev = pv;
            next = nx;
            i = i + 1;
        }
        self.pending = pending;
    }

    /// The pending points, in the order they are kept.
    pub fn pending(&self) -> (r: &[(AddressSet, LightSequencePoint)])
        ensures
            entries(r@) == self@,
    {
        self.pending.as_slice()
    }
}

} // verus!

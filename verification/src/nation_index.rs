//! Index between planets and the nations based on them, kept in step with the
//! nations' home-planet assignments. Entities are held as their 64-bit ids.
use vstd::prelude::*;

verus! {

/// A map from entity id to entity id, stored in bevy's hash map.
#[verifier::external_body]
#[derive(Debug)]
pub struct EntityMap {
    map: bevy::utils::HashMap<u64, u64>,
}

/// The map with no pair.
pub open spec fn no_pairs() -> Map<u64, u64> {
    Map::empty()
}

/// The pairs an `EntityMap` holds.
pub uninterp spec fn entity_map_contents(m: EntityMap) -> Map<u64, u64>;

impl EntityMap {
    /// An empty map: `bevy::utils::HashMap::default()`, which holds no pair.
    #[verifier::external_body]
    pub(crate) fn empty() -> (m: EntityMap)
        ensures
            entity_map_contents(m) == no_pairs(),
    {
        EntityMap { map: bevy::utils::HashMap::default() }
    }

    /// `HashMap::insert`: maps `k` to `v` and hands back the value that `k`
    /// had, if any.
    #[verifier::external_body]
    pub(crate) fn insert(&mut self, k: u64, v: u64) -> (prev: Option<u64>)
        ensures
            entity_map_contents(*final(self)) == entity_map_contents(*old(self)).insert(k, v),
            prev == if entity_map_contents(*old(self)).contains_key(k) {
                Some(entity_map_contents(*old(self))[k])
            } else {
                None
            },
    {
        self.map.insert(k, v)
    }

    /// `HashMap::remove`: removes `k` and hands back its value, if it had one.
    #[verifier::external_body]
    pub(crate) fn remove(&mut self, k: u64) -> (prev: Option<u64>)
        ensures
            entity_map_contents(*final(self)) == entity_map_contents(*old(self)).remove(k),
            prev == if entity_map_contents(*old(self)).contains_key(k) {
                Some(entity_map_contents(*old(self))[k])
            } else {
                None
            },
    {
        self.map.remove(&k)
    }

    /// `HashMap::clear`: removes every pair.
    #[verifier::external_body]
    pub(crate) fn clear(&mut self)
        ensures
            entity_map_contents(*final(self)) == no_pairs(),
    {
        self.map.clear()
    }

    /// `HashMap::get`: the value of `k`, if any.
    #[verifier::external_body]
    pub(crate) fn get(&self, k: u64) -> (v: Option<u64>)
        ensures
            v == if entity_map_contents(*self).contains_key(k) {
                Some(entity_map_contents(*self)[k])
            } else {
                None
            },
    {
        self.map.get(&k).copied()
    }
}

/// The two directions of the index.
pub struct IndexView {
    pub planet_to_nation: Map<u64, u64>,
    pub nation_to_planet: Map<u64, u64>,
}

/// `v` holds `nation`'s entry for `planet`: the planet's entry names that nation.
pub open spec fn names(m: Map<u64, u64>, planet: u64, nation: u64) -> bool {
    m.contains_key(planet) && m[planet] == nation
}

/// Forget a nation that no longer has a home planet, and its planet's entry
/// if that entry still names the nation.
pub open spec fn forget_nation(v: IndexView, nation: u64) -> IndexView {
    if v.nation_to_planet.contains_key(nation) {
        let p = v.nation_to_planet[nation];
        IndexView {
            planet_to_nation: if names(v.planet_to_nation, p, nation) {
                v.planet_to_nation.remove(p)
            } else {
                v.planet_to_nation
            },
            nation_to_planet: v.nation_to_planet.remove(nation),
        }
    } else {
        v
    }
}

/// Record that `nation` is now based on `planet`. When it moved from another
/// planet, that planet's entry is dropped only if it still names this nation
/// (another nation may have taken the planet earlier in the same batch).
pub open spec fn assign_planet(v: IndexView, nation: u64, planet: u64) -> IndexView {
    let p2n = if v.nation_to_planet.contains_key(nation) && v.nation_to_planet[nation] != planet
        && names(v.planet_to_nation, v.nation_to_planet[nation], nation) {
        v.planet_to_nation.remove(v.nation_to_planet[nation])
    } else {
        v.planet_to_nation
    };
    IndexView { planet_to_nation: p2n.insert(planet, nation), nation_to_planet: v.nation_to_planet.insert(nation, planet) }
}

/// `forget_nation` for each nation in order.
pub open spec fn forget_all(v: IndexView, nations: Seq<u64>) -> IndexView
    decreases nations.len(),
{
    if nations.len() == 0 {
        v
    } else {
        forget_nation(forget_all(v, nations.drop_last()), nations.last())
    }
}

/// `assign_planet` for each (nation, planet) pair in order.
pub open spec fn assign_all(v: IndexView, pairs: Seq<(u64, u64)>) -> IndexView
    decreases pairs.len(),
{
    if pairs.len() == 0 {
        v
    } else {
        let (n, p) = pairs.last();
        assign_planet(assign_all(v, pairs.drop_last()), n, p)
    }
}

/// Both directions built from scratch out of (nation, planet) pairs, later
/// pairs overriding earlier ones.
pub open spec fn index_of_pairs(pairs: Seq<(u64, u64)>) -> IndexView
    decreases pairs.len(),
{
    if pairs.len() == 0 {
        IndexView { planet_to_nation: Map::empty(), nation_to_planet: Map::empty() }
    } else {
        let prev = index_of_pairs(pairs.drop_last());
        let (n, p) = pairs.last();
        IndexView { planet_to_nation: prev.planet_to_nation.insert(p, n), nation_to_planet: prev.nation_to_planet.insert(n, p) }
    }
}

/// The two directions are inverse of each other: every planet entry names a
/// nation whose entry points back to it, and every nation entry names a
/// planet whose entry points back to it.
pub open spec fn index_mutual(v: IndexView) -> bool {
    &&& forall|p: u64| #[trigger] v.planet_to_nation.contains_key(p) ==> names(v.nation_to_planet, v.planet_to_nation[p], p)
    &&& forall|n: u64| #[trigger] v.nation_to_planet.contains_key(n) ==> names(v.planet_to_nation, v.nation_to_planet[n], n)
}

/// `homes` without the given nations.
pub open spec fn drop_nations(homes: Map<u64, u64>, nations: Seq<u64>) -> Map<u64, u64>
    decreases nations.len(),
{
    if nations.len() == 0 {
        homes
    } else {
        drop_nations(homes, nations.drop_last()).remove(nations.last())
    }
}

/// `homes` with each (nation, planet) change applied in order.
pub open spec fn apply_changes(homes: Map<u64, u64>, changed: Seq<(u64, u64)>) -> Map<u64, u64>
    decreases changed.len(),
{
    if changed.len() == 0 {
        homes
    } else {
        apply_changes(homes, changed.drop_last()).insert(changed.last().0, changed.last().1)
    }
}

/// Every nation's home planet after a batch: the previous homes, without the
/// nations that lost theirs, with the changed assignments.
pub open spec fn homes_after(homes: Map<u64, u64>, removed: Seq<u64>, changed: Seq<(u64, u64)>) -> Map<u64, u64> {
    apply_changes(drop_nations(homes, removed), changed)
}

/// No two nations share a planet.
pub open spec fn no_shared_planet(homes: Map<u64, u64>) -> bool {
    forall|a: u64, b: u64| #[trigger] homes.contains_key(a) && #[trigger] homes.contains_key(b) && a != b ==> homes[a] != homes[b]
}

/// Each nation appears at most once in the batch.
pub open spec fn listed_once(changed: Seq<(u64, u64)>) -> bool {
    forall|i: int, j: int| 0 <= i < j < changed.len() ==> (#[trigger] changed[i]).0 != (#[trigger] changed[j]).0
}

/// The nation appears in the batch.
pub open spec fn nation_listed(changed: Seq<(u64, u64)>, n: u64) -> bool {
    exists|j: int| 0 <= j < changed.len() && (#[trigger] changed[j]).0 == n
}

/// The planet appears in the batch.
pub open spec fn planet_listed(changed: Seq<(u64, u64)>, p: u64) -> bool {
    exists|j: int| 0 <= j < changed.len() && (#[trigger] changed[j]).1 == p
}

/// Reverse lookup between planets and the nations based on them.
#[derive(Debug)]
pub struct NationPlanetIndex {
    planet_to_nation: EntityMap,
    nation_to_planet: EntityMap,
}

impl View for NationPlanetIndex {
    type V = IndexView;

    closed spec fn view(&self) -> IndexView {
        IndexView {
            planet_to_nation: entity_map_contents(self.planet_to_nation),
            nation_to_planet: entity_map_contents(self.nation_to_planet),
        }
    }
}

impl Default for NationPlanetIndex {
    fn default() -> (i: Self)
        ensures
            i@.planet_to_nation == Map::<u64, u64>::empty(),
            i@.nation_to_planet == Map::<u64, u64>::empty(),
    {
        NationPlanetIndex { planet_to_nation: EntityMap::empty(), nation_to_planet: EntityMap::empty() }
    }
}

impl NationPlanetIndex {
    /// The nation based on `planet`, if any.
    pub fn nation_of(&self, planet: u64) -> (n: Option<u64>)
        ensures
            n == if self@.planet_to_nation.contains_key(planet) {
                Some(self@.planet_to_nation[planet])
            } else {
                None
            },
    {
        self.planet_to_nation.get(planet)
    }

    /// The home planet of `nation`, if any.
    pub fn planet_of(&self, nation: u64) -> (p: Option<u64>)
        ensures
            p == if self@.nation_to_planet.contains_key(nation) {
                Some(self@.nation_to_planet[nation])
            } else {
                None
            },
    {
        self.nation_to_planet.get(nation)
    }

    /// Bring the index up to date: first forget the nations that lost their
    /// home planet (`removed`), then record each changed assignment
    /// (`changed`, as (nation, planet) pairs). A planet's entry is dropped only
    /// while it still names the nation that left it, so the order of the batch
    /// does not matter.
    pub fn update(&mut self, removed: &Vec<u64>, changed: &Vec<(u64, u64)>)
        ensures
            final(self)@ == assign_all(forget_all(old(self)@, removed@), changed@),
    {
        let mut i: usize = 0;
        while i < removed.len()
            invariant
                0 <= i <= removed@.len(),
                self@ == forget_all(old(self)@, removed@.take(i as int)),
            decreases removed@.len() - i,
        {
            let nation = removed[i];
            let ghost before = self@;
            if let Some(planet) = self.nation_to_planet.remove(nation) {
                if let Some(holder) = self.planet_to_nation.get(planet) {
                    if holder == nation {
                        self.planet_to_nation.remove(planet);
                    }
                }
            }
            proof {
                assert(removed@.take(i as int + 1).drop_last() =~= removed@.take(i as int));
                assert(self@.nation_to_planet =~= forget_nation(before, nation).nation_to_planet);
                assert(self@.planet_to_nation =~= forget_nation(before, nation).planet_to_nation);
            }
            i = i + 1;
        }
        assert(removed@.take(removed@.len() as int) =~= removed@);
        let ghost mid = self@;
        let mut j: usize = 0;
        while j < changed.len()
            invariant
                0 <= j <= changed@.len(),
                self@ == assign_all(mid, changed@.take(j as int)),
            decreases changed@.len() - j,
        {
            let (nation, planet) = changed[j];
            let ghost before = self@;
            if let Some(old_planet) = self.nation_to_planet.insert(nation, planet) {
                if old_planet != planet {
                    if let Some(holder) = self.planet_to_nation.get(old_planet) {
                        if holder == nation {
                            self.planet_to_nation.remove(old_planet);
                        }
                    }
                }
            }
            self.planet_to_nation.insert(planet, nation);
            proof {
                assert(changed@.take(j as int + 1).drop_last() =~= changed@.take(j as int));
                assert(self@.nation_to_planet =~= assign_planet(before, nation, planet).nation_to_planet);
                assert(self@.planet_to_nation =~= assign_planet(before, nation, planet).planet_to_nation);
            }
            j = j + 1;
        }
        assert(changed@.take(changed@.len() as int) =~= changed@);
    }

    /// Rebuild the index from scratch out of every (nation, planet) assignment.
    pub fn rebuild(&mut self, assignments: &Vec<(u64, u64)>)
        ensures
            final(self)@ == index_of_pairs(assignments@),
    {
        self.planet_to_nation.clear();
        self.nation_to_planet.clear();
        let mut i: usize = 0;
        while i < assignments.len()
            invariant
                0 <= i <= assignments@.len(),
                self@ == index_of_pairs(assignments@.take(i as int)),
            decreases assignments@.len() - i,
        {
            let (nation, planet) = assignments[i];
            self.planet_to_nation.insert(planet, nation);
            self.nation_to_planet.insert(nation, planet);
            proof {
                assert(assignments@.take(i as int + 1).drop_last() =~= assignments@.take(i as int));
            }
            i = i + 1;
        }
        assert(assignments@.take(assignments@.len() as int) =~= assignments@);
    }
}

proof fn lemma_forget_all_mutual(v: IndexView, nations: Seq<u64>)
    requires
        index_mutual(v),
    ensures
        index_mutual(forget_all(v, nations)),
        forget_all(v, nations).nation_to_planet == drop_nations(v.nation_to_planet, nations),
    decreases nations.len(),
{
    if nations.len() > 0 {
        lemma_forget_all_mutual(v, nations.drop_last());
        let w = forget_all(v, nations.drop_last());
        let n = nations.last();
        let r = forget_nation(w, n);
        if w.nation_to_planet.contains_key(n) {
            let p = w.nation_to_planet[n];
            assert(names(w.planet_to_nation, p, n));
            assert forall|q: u64| #[trigger] r.planet_to_nation.contains_key(q) implies names(
                r.nation_to_planet,
                r.planet_to_nation[q],
                q,
            ) by {
                assert(w.planet_to_nation.contains_key(q));
                let m = w.planet_to_nation[q];
                assert(names(w.nation_to_planet, m, q));
            }
            assert forall|m: u64| #[trigger] r.nation_to_planet.contains_key(m) implies names(
                r.planet_to_nation,
                r.nation_to_planet[m],
                m,
            ) by {
                assert(w.nation_to_planet.contains_key(m));
                let q = w.nation_to_planet[m];
                assert(names(w.planet_to_nation, q, m));
            }
        } else {
            assert(w.nation_to_planet.remove(n) =~= w.nation_to_planet);
        }
    }
}

proof fn lemma_drop_nations_lacks(homes: Map<u64, u64>, nations: Seq<u64>, n: u64)
    requires
        nations.contains(n),
    ensures
        !drop_nations(homes, nations).contains_key(n),
    decreases nations.len(),
{
    if nations.last() != n {
        let k = choose|k: int| 0 <= k < nations.len() && nations[k] == n;
        assert(nations.drop_last()[k] == n);
        lemma_drop_nations_lacks(homes, nations.drop_last(), n);
    }
}

proof fn lemma_apply_changes_unlisted(homes: Map<u64, u64>, changed: Seq<(u64, u64)>, n: u64)
    requires
        !nation_listed(changed, n),
    ensures
        apply_changes(homes, changed).contains_key(n) == homes.contains_key(n),
        homes.contains_key(n) ==> apply_changes(homes, changed)[n] == homes[n],
    decreases changed.len(),
{
    if changed.len() > 0 {
        let prefix = changed.drop_last();
        assert(changed[changed.len() - 1].0 != n);
        assert forall|j: int| 0 <= j < prefix.len() implies (#[trigger] prefix[j]).0 != n by {
            assert(prefix[j] == changed[j]);
        }
        lemma_apply_changes_unlisted(homes, prefix, n);
    }
}

proof fn lemma_apply_changes_listed(homes: Map<u64, u64>, changed: Seq<(u64, u64)>, i: int)
    requires
        listed_once(changed),
        0 <= i < changed.len(),
    ensures
        names(apply_changes(homes, changed), changed[i].0, changed[i].1),
    decreases changed.len(),
{
    if i < changed.len() - 1 {
        let prefix = changed.drop_last();
        assert forall|a: int, b: int| 0 <= a < b < prefix.len() implies (#[trigger] prefix[a]).0 != (#[trigger] prefix[b]).0 by {
            assert(prefix[a] == changed[a] && prefix[b] == changed[b]);
        }
        assert(prefix[i] == changed[i]);
        lemma_apply_changes_listed(homes, prefix, i);
        assert(changed[i].0 != changed[changed.len() - 1].0);
    }
}

/// What a batch of changes does to a mutual index `b`, when each nation and
/// each planet appears at most once in the batch: the nation map takes the
/// changes, every changed planet names its new nation, and any other planet
/// keeps its entry exactly when its nation did not move.
proof fn lemma_assign_all_tracks(b: IndexView, pairs: Seq<(u64, u64)>)
    requires
        index_mutual(b),
        listed_once(pairs),
        forall|i: int, j: int| 0 <= i < j < pairs.len() ==> (#[trigger] pairs[i]).1 != (#[trigger] pairs[j]).1,
    ensures
        assign_all(b, pairs).nation_to_planet == apply_changes(b.nation_to_planet, pairs),
        forall|j: int| 0 <= j < pairs.len() ==> names(assign_all(b, pairs).planet_to_nation, (#[trigger] pairs[j]).1, pairs[j].0),
        forall|p: u64| #![trigger planet_listed(pairs, p)] !planet_listed(pairs, p) ==> {
            &&& (assign_all(b, pairs).planet_to_nation.contains_key(p) <==> (b.planet_to_nation.contains_key(p)
                && !nation_listed(pairs, b.planet_to_nation[p])))
            &&& (assign_all(b, pairs).planet_to_nation.contains_key(p) ==> assign_all(b, pairs).planet_to_nation[p]
                == b.planet_to_nation[p])
        },
    decreases pairs.len(),
{
    if pairs.len() > 0 {
        let prefix = pairs.drop_last();
        let last = pairs.len() - 1;
        assert forall|a: int, c: int| 0 <= a < c < prefix.len() implies (#[trigger] prefix[a]).0 != (#[trigger] prefix[c]).0 by {
            assert(prefix[a] == pairs[a] && prefix[c] == pairs[c]);
        }
        assert forall|a: int, c: int| 0 <= a < c < prefix.len() implies (#[trigger] prefix[a]).1 != (#[trigger] prefix[c]).1 by {
            assert(prefix[a] == pairs[a] && prefix[c] == pairs[c]);
        }
        lemma_assign_all_tracks(b, prefix);
        let w = assign_all(b, prefix);
        let n = pairs[last].0;
        let p0 = pairs[last].1;
        let r = assign_all(b, pairs);
        assert(r == assign_planet(w, n, p0));
        assert(!nation_listed(prefix, n)) by {
            if nation_listed(prefix, n) {
                let j = choose|j: int| 0 <= j < prefix.len() && (#[trigger] prefix[j]).0 == n;
                assert(pairs[j] == prefix[j]);
            }
        }
        lemma_apply_changes_unlisted(b.nation_to_planet, prefix, n);
        // The guard of `assign_planet`: n moves away from its old planet o,
        // which still names n exactly when no earlier change took o.
        let has_old = w.nation_to_planet.contains_key(n);
        let o = w.nation_to_planet[n];
        let guard = has_old && o != p0 && names(w.planet_to_nation, o, n);
        if has_old {
            assert(b.nation_to_planet.contains_key(n) && b.nation_to_planet[n] == o);
            assert(names(b.planet_to_nation, o, n));
            if o != p0 {
                if planet_listed(prefix, o) {
                    let j = choose|j: int| 0 <= j < prefix.len() && (#[trigger] prefix[j]).1 == o;
                    assert(names(w.planet_to_nation, prefix[j].1, prefix[j].0));
                    assert(pairs[j] == prefix[j]);
                    assert(!guard);
                } else {
                    assert(!nation_listed(prefix, b.planet_to_nation[o]));
                    assert(guard);
                }
            }
        }
        assert forall|j: int| 0 <= j < pairs.len() implies names(r.planet_to_nation, (#[trigger] pairs[j]).1, pairs[j].0) by {
            if j < last {
                assert(pairs[j] == prefix[j]);
                assert(names(w.planet_to_nation, prefix[j].1, prefix[j].0));
                assert(pairs[j].1 != p0);
                if guard && pairs[j].1 == o {
                    assert(planet_listed(prefix, o));
                }
            }
        }
        assert forall|p: u64| #![trigger planet_listed(pairs, p)] !planet_listed(pairs, p) implies {
            &&& (r.planet_to_nation.contains_key(p) <==> (b.planet_to_nation.contains_key(p) && !nation_listed(
                pairs,
                b.planet_to_nation[p],
            )))
            &&& (r.planet_to_nation.contains_key(p) ==> r.planet_to_nation[p] == b.planet_to_nation[p])
        } by {
            assert(p != pairs[last].1);
            assert(!planet_listed(prefix, p)) by {
                if planet_listed(prefix, p) {
                    let j = choose|j: int| 0 <= j < prefix.len() && (#[trigger] prefix[j]).1 == p;
                    assert(pairs[j] == prefix[j]);
                }
            }
            if guard && p == o {
                assert(b.planet_to_nation[o] == n);
                assert(nation_listed(pairs, n)) by {
                    assert(pairs[last].0 == n);
                }
            } else {
                if b.planet_to_nation.contains_key(p) {
                    let m = b.planet_to_nation[p];
                    assert(names(b.nation_to_planet, m, p));
                    if m == n {
                        assert(has_old && o == p);
                        assert(false);
                    }
                    assert(nation_listed(pairs, m) == nation_listed(prefix, m)) by {
                        if nation_listed(pairs, m) {
                            let j = choose|j: int| 0 <= j < pairs.len() && (#[trigger] pairs[j]).0 == m;
                            assert(j != last);
                            assert(prefix[j] == pairs[j]);
                        }
                        if nation_listed(prefix, m) {
                            let j = choose|j: int| 0 <= j < prefix.len() && (#[trigger] prefix[j]).0 == m;
                            assert(pairs[j] == prefix[j]);
                        }
                    }
                }
            }
        }
    }
}

/// After an update that leaves no two nations sharing a planet, the index is
/// exact: each nation's entry names its home planet after the batch, each
/// changed planet names its new nation, a nation that lost its home planet
/// (and got no new one) has no entry, and the two directions stay inverse of
/// each other, whatever the order of the batch.
pub proof fn lemma_update_keeps_index_exact(v: IndexView, removed: Seq<u64>, changed: Seq<(u64, u64)>)
    requires
        index_mutual(v),
        listed_once(changed),
        no_shared_planet(homes_after(v.nation_to_planet, removed, changed)),
    ensures
        ({
            let r = assign_all(forget_all(v, removed), changed);
            &&& r.nation_to_planet == homes_after(v.nation_to_planet, removed, changed)
            &&& index_mutual(r)
            &&& forall|i: int| 0 <= i < changed.len() ==> names(r.nation_to_planet, (#[trigger] changed[i]).0, changed[i].1)
                && names(r.planet_to_nation, changed[i].1, changed[i].0)
            &&& forall|n: u64| removed.contains(n) && !nation_listed(changed, n) ==> !#[trigger] r.nation_to_planet.contains_key(n)
        }),
{
    lemma_forget_all_mutual(v, removed);
    let b = forget_all(v, removed);
    let homes = homes_after(v.nation_to_planet, removed, changed);
    assert(homes == apply_changes(b.nation_to_planet, changed));
    assert forall|i: int, j: int| 0 <= i < j < changed.len() implies (#[trigger] changed[i]).1 != (#[trigger] changed[j]).1 by {
        lemma_apply_changes_listed(b.nation_to_planet, changed, i);
        lemma_apply_changes_listed(b.nation_to_planet, changed, j);
        assert(homes.contains_key(changed[i].0) && homes.contains_key(changed[j].0));
    }
    lemma_assign_all_tracks(b, changed);
    let r = assign_all(b, changed);
    assert forall|i: int| 0 <= i < changed.len() implies names(r.nation_to_planet, (#[trigger] changed[i]).0, changed[i].1)
        && names(r.planet_to_nation, changed[i].1, changed[i].0) by {
        lemma_apply_changes_listed(b.nation_to_planet, changed, i);
    }
    assert forall|n: u64| removed.contains(n) && !nation_listed(changed, n) implies !#[trigger] r.nation_to_planet.contains_key(n) by {
        lemma_drop_nations_lacks(v.nation_to_planet, removed, n);
        lemma_apply_changes_unlisted(b.nation_to_planet, changed, n);
    }
    assert forall|n: u64| #[trigger] r.nation_to_planet.contains_key(n) implies names(r.planet_to_nation, r.nation_to_planet[n], n) by {
        if nation_listed(changed, n) {
            let j = choose|j: int| 0 <= j < changed.len() && (#[trigger] changed[j]).0 == n;
            lemma_apply_changes_listed(b.nation_to_planet, changed, j);
        } else {
            lemma_apply_changes_unlisted(b.nation_to_planet, changed, n);
            let q = b.nation_to_planet[n];
            assert(names(b.planet_to_nation, q, n));
            if planet_listed(changed, q) {
                let j = choose|j: int| 0 <= j < changed.len() && (#[trigger] changed[j]).1 == q;
                lemma_apply_changes_listed(b.nation_to_planet, changed, j);
                assert(changed[j].0 != n);
                assert(homes.contains_key(n) && homes.contains_key(changed[j].0));
                assert(false);
            }
            assert(!planet_listed(changed, q));
        }
    }
    assert forall|p: u64| #[trigger] r.planet_to_nation.contains_key(p) implies names(r.nation_to_planet, r.planet_to_nation[p], p) by {
        if planet_listed(changed, p) {
            let j = choose|j: int| 0 <= j < changed.len() && (#[trigger] changed[j]).1 == p;
            lemma_apply_changes_listed(b.nation_to_planet, changed, j);
            assert(names(r.planet_to_nation, changed[j].1, changed[j].0));
        } else {
            let m = b.planet_to_nation[p];
            assert(!nation_listed(changed, m));
            assert(names(b.nation_to_planet, m, p));
            lemma_apply_changes_unlisted(b.nation_to_planet, changed, m);
        }
    }
}

proof fn lemma_planet_key_from_prefix(pairs: Seq<(u64, u64)>, p: u64)
    requires
        index_of_pairs(pairs).planet_to_nation.contains_key(p),
    ensures
        exists|k: int| 0 <= k < pairs.len() && pairs[k].1 == p,
    decreases pairs.len(),
{
    if pairs.len() > 0 {
        if pairs.last().1 != p {
            lemma_planet_key_from_prefix(pairs.drop_last(), p);
            let k = choose|k: int| 0 <= k < pairs.drop_last().len() && pairs.drop_last()[k].1 == p;
            assert(pairs[k].1 == p);
        } else {
            assert(pairs[pairs.len() - 1].1 == p);
        }
    }
}

proof fn lemma_nation_key_from_prefix(pairs: Seq<(u64, u64)>, n: u64)
    requires
        index_of_pairs(pairs).nation_to_planet.contains_key(n),
    ensures
        exists|k: int| 0 <= k < pairs.len() && pairs[k].0 == n,
    decreases pairs.len(),
{
    if pairs.len() > 0 {
        if pairs.last().0 != n {
            lemma_nation_key_from_prefix(pairs.drop_last(), n);
            let k = choose|k: int| 0 <= k < pairs.drop_last().len() && pairs.drop_last()[k].0 == n;
            assert(pairs[k].0 == n);
        } else {
            assert(pairs[pairs.len() - 1].0 == n);
        }
    }
}

/// An index rebuilt from assignments in which no nation and no planet appears
/// twice holds exactly the given pairs, and its two directions are inverse of
/// each other.
pub proof fn lemma_rebuilt_index_exact(pairs: Seq<(u64, u64)>)
    requires
        listed_once(pairs),
        forall|a: int, b: int| 0 <= a < b < pairs.len() ==> (#[trigger] pairs[a]).1 != (#[trigger] pairs[b]).1,
    ensures
        index_mutual(index_of_pairs(pairs)),
        forall|i: int| 0 <= i < pairs.len() ==> names(index_of_pairs(pairs).nation_to_planet, (#[trigger] pairs[i]).0, pairs[i].1)
            && names(index_of_pairs(pairs).planet_to_nation, pairs[i].1, pairs[i].0),
    decreases pairs.len(),
{
    if pairs.len() > 0 {
        let prefix = pairs.drop_last();
        let last = pairs.len() - 1;
        assert forall|a: int, c: int| 0 <= a < c < prefix.len() implies (#[trigger] prefix[a]).0 != (#[trigger] prefix[c]).0 by {
            assert(prefix[a] == pairs[a] && prefix[c] == pairs[c]);
        }
        assert forall|a: int, c: int| 0 <= a < c < prefix.len() implies (#[trigger] prefix[a]).1 != (#[trigger] prefix[c]).1 by {
            assert(prefix[a] == pairs[a] && prefix[c] == pairs[c]);
        }
        lemma_rebuilt_index_exact(prefix);
        let w = index_of_pairs(prefix);
        let n = pairs[last].0;
        let p0 = pairs[last].1;
        let r = index_of_pairs(pairs);
        if w.nation_to_planet.contains_key(n) {
            lemma_nation_key_from_prefix(prefix, n);
            let k = choose|k: int| 0 <= k < prefix.len() && prefix[k].0 == n;
            assert(pairs[k] == prefix[k]);
            assert(false);
        }
        if w.planet_to_nation.contains_key(p0) {
            lemma_planet_key_from_prefix(prefix, p0);
            let k = choose|k: int| 0 <= k < prefix.len() && prefix[k].1 == p0;
            assert(pairs[k] == prefix[k]);
            assert(false);
        }
        assert forall|p: u64| #[trigger] r.planet_to_nation.contains_key(p) implies names(r.nation_to_planet, r.planet_to_nation[p], p) by {
            if p != p0 {
                assert(names(w.nation_to_planet, w.planet_to_nation[p], p));
            }
        }
        assert forall|m: u64| #[trigger] r.nation_to_planet.contains_key(m) implies names(r.planet_to_nation, r.nation_to_planet[m], m) by {
            if m != n {
                assert(names(w.planet_to_nation, w.nation_to_planet[m], m));
            }
        }
        assert forall|i: int| 0 <= i < pairs.len() implies names(r.nation_to_planet, (#[trigger] pairs[i]).0, pairs[i].1)
            && names(r.planet_to_nation, pairs[i].1, pairs[i].0) by {
            if i < last {
                assert(prefix[i] == pairs[i]);
                assert(names(w.nation_to_planet, prefix[i].0, prefix[i].1));
            }
        }
    }
}
} // verus!

//! The waypoint path manager: an indexed collection of 3D track points,
//! answering nearest-point, successor and lookup queries.
//!
//! Points are stored as an insertion-ordered association list with unique
//! indices; the list models a map from index to point. The nearest-point
//! query scans linearly and breaks distance ties in favour of the earliest
//! stored point, so results are deterministic per run.

use vstd::prelude::*;

use crate::math::Vec3i;

verus! {

/// No index occurs twice in the association list.
pub open spec fn unique_keys(s: Seq<(usize, Vec3i)>) -> bool {
    forall|i: int, j: int| 0 <= i < j < s.len() ==> s[i].0 != s[j].0
}

/// The map an association list denotes (later entries win, which is moot
/// under `unique_keys`).
pub open spec fn assoc_map(s: Seq<(usize, Vec3i)>) -> Map<usize, Vec3i>
    decreases s.len(),
{
    if s.len() == 0 {
        Map::empty()
    } else {
        assoc_map(s.drop_last()).insert(s.last().0, s.last().1)
    }
}

/// Every entry of the list is present in its map.
pub proof fn lemma_assoc_map_entry(s: Seq<(usize, Vec3i)>, i: int)
    requires
        unique_keys(s),
        0 <= i < s.len(),
    ensures
        assoc_map(s).dom().contains(s[i].0),
        assoc_map(s)[s[i].0] == s[i].1,
    decreases s.len(),
{
    if i < s.len() - 1 {
        assert(s.drop_last()[i] == s[i]);
        lemma_assoc_map_entry(s.drop_last(), i);
        assert(s[i].0 != s.last().0);
    }
}

/// A key that no entry carries is absent from the map.
pub proof fn lemma_assoc_map_absent(s: Seq<(usize, Vec3i)>, k: usize)
    requires
        forall|i: int| 0 <= i < s.len() ==> (#[trigger] s[i]).0 != k,
    ensures
        !assoc_map(s).dom().contains(k),
    decreases s.len(),
{
    if s.len() > 0 {
        assert(forall|i: int|
            0 <= i < s.drop_last().len() ==> (#[trigger] s.drop_last()[i]).0 != k);
        lemma_assoc_map_absent(s.drop_last(), k);
    }
}

/// Every key of the map comes from some entry.
pub proof fn lemma_assoc_map_source(s: Seq<(usize, Vec3i)>, k: usize)
    requires
        assoc_map(s).dom().contains(k),
    ensures
        exists|i: int| 0 <= i < s.len() && (#[trigger] s[i]).0 == k,
    decreases s.len(),
{
    if s.len() > 0 {
        if s.last().0 == k {
            assert(s[s.len() - 1].0 == k);
        } else {
            lemma_assoc_map_source(s.drop_last(), k);
            let i = choose|i: int|
                0 <= i < s.drop_last().len() && (#[trigger] s.drop_last()[i]).0 == k;
            assert(s[i].0 == k);
        }
    }
}

/// Updating the point stored at position `i` only rewrites that key's value.
proof fn lemma_assoc_map_update(s: Seq<(usize, Vec3i)>, i: int, v: Vec3i)
    requires
        unique_keys(s),
        0 <= i < s.len(),
    ensures
        assoc_map(s.update(i, (s[i].0, v))) == assoc_map(s).insert(s[i].0, v),
    decreases s.len(),
{
    let t = s.update(i, (s[i].0, v));
    if i == s.len() - 1 {
        assert(t.drop_last() =~= s.drop_last());
    } else {
        lemma_assoc_map_update(s.drop_last(), i, v);
        assert(t.drop_last() =~= s.drop_last().update(i, (s[i].0, v)));
        assert(s[i].0 != s.last().0);
        assert(assoc_map(t.drop_last()).insert(t.last().0, t.last().1)
            =~= assoc_map(s).insert(s[i].0, v));
    }
}

/// The points of `m` with indices below `b`, in increasing index order.
pub open spec fn values_upto(m: Map<usize, Vec3i>, b: nat) -> Seq<Vec3i>
    decreases b,
{
    if b == 0 {
        Seq::empty()
    } else {
        let prefix = values_upto(m, (b - 1) as nat);
        if m.dom().contains((b - 1) as usize) {
            prefix.push(m[(b - 1) as usize])
        } else {
            prefix
        }
    }
}

/// An ordered polyline of track waypoints, built from indexed samples.
pub struct PathManager {
    points: Vec<(usize, Vec3i)>,
    path: Vec<Vec3i>,
}

impl PathManager {
    /// The stored samples, in insertion order.
    pub closed spec fn entries(self) -> Seq<(usize, Vec3i)> {
        self.points@
    }

    /// The index-to-point map the samples denote.
    pub open spec fn map(self) -> Map<usize, Vec3i> {
        assoc_map(self.entries())
    }

    /// The ordered polyline, as rebuilt by the last `build`.
    pub closed spec fn path_view(self) -> Seq<Vec3i> {
        self.path@
    }

    /// Indices are unique and every stored point is in coordinate range.
    pub open spec fn wf(self) -> bool {
        unique_keys(self.entries())
            && forall|i: int|
                0 <= i < self.entries().len() ==> (#[trigger] self.entries()[i]).1.wf()
    }

    pub open spec fn contains_index(self, index: usize) -> bool {
        self.map().dom().contains(index)
    }

    pub fn new() -> (r: PathManager)
        ensures
            r.wf(),
            r.map() == Map::<usize, Vec3i>::empty(),
            r.path_view() == Seq::<Vec3i>::empty(),
    {
        PathManager { points: Vec::new(), path: Vec::new() }
    }

    /// Forget all samples and the built path.
    pub fn clear(&mut self)
        ensures
            final(self).wf(),
            final(self).map() == Map::<usize, Vec3i>::empty(),
            final(self).path_view() == Seq::<Vec3i>::empty(),
    {
        self.points = Vec::new();
        self.path = Vec::new();
    }

    /// Position of `index` in the association list, if stored.
    fn position_of(&self, index: usize) -> (r: Option<usize>)
        ensures
            match r {
                Some(i) => i < self.entries().len() && self.entries()[i as int].0 == index,
                None => forall|i: int|
                    0 <= i < self.entries().len() ==> (#[trigger] self.entries()[i]).0 != index,
            },
    {
        let mut i: usize = 0;
        while i < self.points.len()
            invariant
                i <= self.entries().len(),
                forall|j: int| 0 <= j < i ==> (#[trigger] self.entries()[j]).0 != index,
            decreases self.entries().len() - i,
        {
            if self.points[i].0 == index {
                return Some(i);
            }
            i = i + 1;
        }
        None
    }

    /// Whether a sample with this index is stored.
    pub fn contains(&self, index: usize) -> (r: bool)
        requires
            self.wf(),
        ensures
            r == self.contains_index(index),
    {
        let pos = self.position_of(index);
        proof {
            match pos {
                Some(i) => lemma_assoc_map_entry(self.entries(), i as int),
                None => lemma_assoc_map_absent(self.entries(), index),
            }
        }
        pos.is_some()
    }

    /// Store a sample: a later sample with the same index replaces the
    /// earlier one.
    pub fn insert(&mut self, index: usize, point: Vec3i)
        requires
            old(self).wf(),
            point.wf(),
        ensures
            final(self).wf(),
            final(self).map() == old(self).map().insert(index, point),
            final(self).path_view() == old(self).path_view(),
    {
        let pos = self.position_of(index);
        match pos {
            Some(i) => {
                proof {
                    lemma_assoc_map_update(self.entries(), i as int, point);
                }
                self.points.set(i, (index, point));
            },
            None => {
                self.points.push((index, point));
                proof {
                    assert(self.entries().drop_last() =~= old(self).entries());
                }
            },
        }
    }

    /// Rebuild the ordered polyline from the stored samples: the points in
    /// increasing index order, one for every stored index up to the largest.
    pub fn build(&mut self)
        requires
            old(self).wf(),
        ensures
            final(self).wf(),
            final(self).map() == old(self).map(),
            final(self).path_view() =~= values_upto(
                final(self).map(),
                if final(self).entries().len() == 0 {
                    0nat
                } else {
                    (final(self).largest_index() + 1) as nat
                },
            ),
    {
        let mut max_index: usize = 0;
        let mut any: bool = false;
        let mut i: usize = 0;
        while i < self.points.len()
            invariant
                i <= self.entries().len(),
                any == (i > 0),
                any ==> exists|j: int|
                    0 <= j < i && (#[trigger] self.entries()[j]).0 == max_index,
                forall|j: int| 0 <= j < i ==> (#[trigger] self.entries()[j]).0 <= max_index,
            decreases self.entries().len() - i,
        {
            if !any || self.points[i].0 > max_index {
                max_index = self.points[i].0;
            }
            any = true;
            i = i + 1;
        }

        let ghost m = self.map();
        self.path = Vec::new();
        if !any {
            proof {
                assert(self.path_view() =~= values_upto(m, 0));
            }
            return;
        }

        proof {
            let j = choose|j: int|
                0 <= j < self.entries().len() && (#[trigger] self.entries()[j]).0 == max_index;
            lemma_assoc_map_entry(self.entries(), j);
            assert forall|k2: usize| m.dom().contains(k2) implies k2 <= max_index by {
                lemma_assoc_map_source(self.entries(), k2);
            }
        }
        let mut next: usize = 0;
        loop
            invariant_except_break
                self.path_view() =~= values_upto(m, next as nat),
            invariant
                self.wf(),
                self.map() == m,
                next <= max_index,
                forall|j: int|
                    0 <= j < self.entries().len()
                        ==> (#[trigger] self.entries()[j]).0 <= max_index,
            ensures
                self.wf(),
                self.map() == m,
                self.path_view() =~= values_upto(m, max_index as nat + 1),
                forall|j: int|
                    0 <= j < self.entries().len()
                        ==> (#[trigger] self.entries()[j]).0 <= max_index,
            decreases max_index - next,
        {
            let pos = self.position_of(next);
            match pos {
                Some(p) => {
                    proof {
                        lemma_assoc_map_entry(self.entries(), p as int);
                    }
                    let pt = self.points[p].1;
                    self.path.push(pt);
                },
                None => {
                    proof {
                        lemma_assoc_map_absent(self.entries(), next);
                    }
                },
            }
            if next == max_index {
                break;
            }
            next = next + 1;
        }
        proof {
            let c = choose|k: usize|
                self.contains_index(k) && forall|k2: usize| self.contains_index(k2) ==> k2 <= k;
            assert(self.contains_index(max_index) && forall|k2: usize|
                self.contains_index(k2) ==> k2 <= max_index);
            assert(c <= max_index && max_index <= c);
            assert(self.largest_index() == max_index);
        }
    }

    /// `i` is the position the nearest-point scan settles on: no stored point
    /// is strictly closer, and every earlier point is strictly farther.
    pub open spec fn nearest_pos(self, p: Vec3i, i: int) -> bool {
        &&& 0 <= i < self.entries().len()
        &&& forall|j: int|
            0 <= j < self.entries().len()
                ==> p.dist_sq_spec(self.entries()[i].1) <= p.dist_sq_spec(
                (#[trigger] self.entries()[j]).1,
            )
        &&& forall|j: int|
            0 <= j < i
                ==> p.dist_sq_spec((#[trigger] self.entries()[j]).1) > p.dist_sq_spec(
                self.entries()[i].1,
            )
    }

    /// Only one position can win the nearest-point scan.
    pub proof fn lemma_nearest_pos_unique(self, p: Vec3i, i1: int, i2: int)
        requires
            self.nearest_pos(p, i1),
            self.nearest_pos(p, i2),
        ensures
            i1 == i2,
    {
        if i1 < i2 {
            assert(p.dist_sq_spec(self.entries()[i1].1) > p.dist_sq_spec(self.entries()[i2].1));
        }
        if i2 < i1 {
            assert(p.dist_sq_spec(self.entries()[i2].1) > p.dist_sq_spec(self.entries()[i1].1));
        }
    }

    /// The index the nearest-point query returns: that of the stored point
    /// with minimum distance to `p`, earliest such point first.
    pub open spec fn nearest_index_of(self, p: Vec3i) -> Option<usize> {
        if self.entries().len() == 0 {
            None
        } else {
            Some(self.entries()[choose|i: int| self.nearest_pos(p, i)].0)
        }
    }

    /// Index of the stored point nearest to `point`; ties go to the earliest
    /// stored sample. `None` only when nothing is stored.
    pub fn get_closest_index(&self, point: Vec3i) -> (r: Option<usize>)
        requires
            self.wf(),
            point.wf(),
        ensures
            r == self.nearest_index_of(point),
            match r {
                None => self.entries().len() == 0,
                Some(k) => {
                    &&& exists|i: int| self.nearest_pos(point, i) && (#[trigger] self.entries()[i]).0 == k
                    &&& self.contains_index(k)
                },
            },
    {
        if self.points.len() == 0 {
            return None;
        }
        let mut best: usize = 0;
        let mut best_dist: i128 = point.dist_sq(&self.points[0].1);
        let mut i: usize = 1;
        while i < self.points.len()
            invariant
                self.wf(),
                point.wf(),
                best < i <= self.entries().len(),
                best_dist == point.dist_sq_spec(self.entries()[best as int].1),
                forall|j: int|
                    0 <= j < i
                        ==> best_dist <= point.dist_sq_spec((#[trigger] self.entries()[j]).1),
                forall|j: int|
                    0 <= j < best
                        ==> point.dist_sq_spec((#[trigger] self.entries()[j]).1) > best_dist,
            decreases self.entries().len() - i,
        {
            let d = point.dist_sq(&self.points[i].1);
            if d < best_dist {
                best = i;
                best_dist = d;
            }
            i = i + 1;
        }
        proof {
            lemma_assoc_map_entry(self.entries(), best as int);
            assert(self.nearest_pos(point, best as int));
            let c = choose|i: int| self.nearest_pos(point, i);
            self.lemma_nearest_pos_unique(point, c, best as int);
        }
        Some(self.points[best].0)
    }

    /// What `get_next` returns: the successor index if stored, else the wrap
    /// to index 0 if stored, else nothing.
    pub open spec fn next_spec(self, index: usize) -> Option<usize> {
        if index < usize::MAX && self.contains_index((index + 1) as usize) {
            Some((index + 1) as usize)
        } else if self.contains_index(0) {
            Some(0usize)
        } else {
            None
        }
    }

    /// Successor of `index` on the closed loop.
    pub fn get_next(&self, index: usize) -> (r: Option<usize>)
        requires
            self.wf(),
        ensures
            r == self.next_spec(index),
    {
        if index < usize::MAX {
            let next = index + 1;
            if self.contains(next) {
                return Some(next);
            }
        }
        if self.contains(0) {
            Some(0)
        } else {
            None
        }
    }

    /// The largest stored index (meaningful only when something is stored).
    pub open spec fn largest_index(self) -> usize {
        choose|k: usize|
            self.contains_index(k) && forall|k2: usize| self.contains_index(k2) ==> k2 <= k
    }

    /// What `get_previous` returns: the predecessor index if stored, else
    /// the wrap to the largest stored index, else nothing.
    pub open spec fn previous_spec(self, index: usize) -> Option<usize> {
        if index > 0 && self.contains_index((index - 1) as usize) {
            Some((index - 1) as usize)
        } else if self.entries().len() > 0 {
            Some(self.largest_index())
        } else {
            None
        }
    }

    /// Predecessor of `index` on the closed loop: `index - 1` if stored,
    /// otherwise the largest stored index (the wrap point).
    pub fn get_previous(&self, index: usize) -> (r: Option<usize>)
        requires
            self.wf(),
        ensures
            r == self.previous_spec(index),
            match r {
                Some(k) => {
                    &&& self.contains_index(k)
                    &&& (index > 0 && self.contains_index((index - 1) as usize) ==> k == index
                        - 1)
                    &&& (!(index > 0 && self.contains_index((index - 1) as usize))
                        ==> forall|k2: usize| self.contains_index(k2) ==> k2 <= k)
                },
                None => self.entries().len() == 0,
            },
    {
        if index > 0 {
            let prev = index - 1;
            if self.contains(prev) {
                return Some(prev);
            }
        }
        if self.points.len() == 0 {
            proof {
                if exists|k: usize| self.contains_index(k) {
                    let k = choose|k: usize| self.contains_index(k);
                    lemma_assoc_map_source(self.entries(), k);
                }
            }
            return None;
        }
        let mut best: usize = self.points[0].0;
        let mut i: usize = 1;
        while i < self.points.len()
            invariant
                self.wf(),
                1 <= i <= self.entries().len(),
                exists|j: int| 0 <= j < i && (#[trigger] self.entries()[j]).0 == best,
                forall|j: int| 0 <= j < i ==> (#[trigger] self.entries()[j]).0 <= best,
            decreases self.entries().len() - i,
        {
            if self.points[i].0 > best {
                best = self.points[i].0;
            }
            i = i + 1;
        }
        proof {
            let j = choose|j: int|
                0 <= j < self.entries().len() && (#[trigger] self.entries()[j]).0 == best;
            lemma_assoc_map_entry(self.entries(), j);
            assert forall|k2: usize| self.contains_index(k2) implies k2 <= best by {
                lemma_assoc_map_source(self.entries(), k2);
            }
            let c = choose|k: usize|
                self.contains_index(k) && forall|k2: usize| self.contains_index(k2) ==> k2 <= k;
            assert(self.contains_index(best) && forall|k2: usize|
                self.contains_index(k2) ==> k2 <= best);
            assert(c <= best && best <= c);
        }
        Some(best)
    }

    /// The stored point at `index`. Callers must only pass stored indices;
    /// they always derive them from the query functions above.
    pub fn get(&self, index: usize) -> (r: Vec3i)
        requires
            self.wf(),
            self.contains_index(index),
        ensures
            r == self.map()[index],
            r.wf(),
    {
        proof {
            lemma_assoc_map_source(self.entries(), index);
        }
        let pos = self.position_of(index);
        match pos {
            Some(i) => {
                proof {
                    lemma_assoc_map_entry(self.entries(), i as int);
                }
                self.points[i].1
            },
            None => {
                // unreachable: the index is stored
                proof {
                    assert(false);
                }
                Vec3i { x: 0, y: 0, z: 0 }
            },
        }
    }
}

/// The map holds exactly the indices `0 .. n`: a densely numbered track.
pub open spec fn dense(m: Map<usize, Vec3i>, n: nat) -> bool {
    forall|k: usize| m.dom().contains(k) <==> (k as nat) < n
}

/// The successor on a closed loop of `n` densely numbered waypoints, as
/// `get_next` computes it.
pub open spec fn next_index(n: nat, i: nat) -> nat {
    if i + 1 < n {
        i + 1
    } else {
        0
    }
}

/// `k` applications of `next_index` starting from `s`.
pub open spec fn iter_next(n: nat, s: nat, k: nat) -> nat
    decreases k,
{
    if k == 0 {
        s
    } else {
        next_index(n, iter_next(n, s, (k - 1) as nat))
    }
}

proof fn lemma_iter_next_closed(n: nat, s: nat, k: nat)
    requires
        1 <= n,
        s < n,
        k <= n,
    ensures
        iter_next(n, s, k) == if s + k < n {
            s + k
        } else {
            (s + k - n) as nat
        },
        iter_next(n, s, k) < n,
    decreases k,
{
    if k > 0 {
        lemma_iter_next_closed(n, s, (k - 1) as nat);
    }
}

/// Law: on a densely numbered closed-loop track of `n` waypoints, following
/// the successor from any starting index (for instance one returned by the
/// nearest-point query) visits every waypoint index exactly once before
/// returning to the start, and the manager's `get_next` agrees with that
/// successor at every stored index.
pub proof fn lemma_closed_loop_coverage(m: PathManager, n: nat, s: nat)
    requires
        m.wf(),
        1 <= n <= usize::MAX,
        dense(m.map(), n),
        s < n,
    ensures
        forall|k: nat| k <= n ==> #[trigger] iter_next(n, s, k) < n,
        forall|k1: nat, k2: nat|
            k1 < k2 < n ==> iter_next(n, s, k1) != iter_next(n, s, k2),
        iter_next(n, s, n) == s,
        forall|i: usize|
            (i as nat) < n ==> #[trigger] m.next_spec(i) == Some(
                next_index(n, i as nat) as usize,
            ),
{
    assert forall|k: nat| k <= n implies #[trigger] iter_next(n, s, k) < n by {
        lemma_iter_next_closed(n, s, k);
    }
    assert forall|k1: nat, k2: nat|
        k1 < k2 < n implies iter_next(n, s, k1) != iter_next(n, s, k2) by {
        lemma_iter_next_closed(n, s, k1);
        lemma_iter_next_closed(n, s, k2);
    }
    lemma_iter_next_closed(n, s, n);
    assert forall|i: usize| (i as nat) < n implies #[trigger] m.next_spec(i) == Some(
        next_index(n, i as nat) as usize,
    ) by {
        assert(m.map().dom().contains(0usize));
        if (i as nat) + 1 < n {
            assert(m.map().dom().contains((i + 1) as usize));
        } else {
            if i < usize::MAX {
                assert(!m.map().dom().contains((i + 1) as usize));
            }
        }
    }
}

/// Law, continued: every waypoint index `j` is reached from any start `s`
/// within `n` steps, so the walk of `lemma_closed_loop_coverage` covers the
/// whole track.
pub proof fn lemma_closed_loop_hits(n: nat, s: nat, j: nat)
    requires
        1 <= n,
        s < n,
        j < n,
    ensures
        exists|k: nat| k < n && #[trigger] iter_next(n, s, k) == j,
{
    if j >= s {
        lemma_iter_next_closed(n, s, (j - s) as nat);
        assert(((j - s) as nat) < n && iter_next(n, s, (j - s) as nat) == j);
    } else {
        lemma_iter_next_closed(n, s, (j + n - s) as nat);
        assert(((j + n - s) as nat) < n && iter_next(n, s, (j + n - s) as nat) == j);
    }
}

} // verus!

use vstd::prelude::*;
use vstd::relations::injective_on;
use vstd::set_lib::{lemma_int_range, lemma_len_subset, lemma_map_size, lemma_set_disjoint_lens, lemma_subset_equality, set_int_range};

verus! {

/// A decryption share: an opaque vector of words.
pub type DecryptionShare = Vec<u64>;

/// `(o1, p1)` comes strictly before `(o2, p2)` in the order of increasing
/// output index, then increasing participant id.
pub open spec fn pair_before(a: (int, int), b: (int, int)) -> bool {
    a.0 < b.0 || (a.0 == b.0 && a.1 < b.1)
}

/// The shares a participant derived itself, as recorded in a fresh matrix:
/// each `(o, share)` of `own`, in order, lands at `(o, participant)` when
/// that pair lies in `[0, n) x [0, m)` and holds no share yet.
pub open spec fn seeded(own: Seq<(usize, Vec<u64>)>, participant: int, n: int, m: int) -> Map<
    (int, int),
    Seq<u64>,
>
    decreases own.len(),
{
    if own.len() == 0 {
        Map::empty()
    } else {
        let prev = seeded(own.drop_last(), participant, n, m);
        let k = (own.last().0 as int, participant);
        if 0 <= k.0 < n && 0 <= participant < m && !prev.contains_key(k) {
            prev.insert(k, own.last().1@)
        } else {
            prev
        }
    }
}

/// The pairs of `[0, n) x [0, m)`.
pub open spec fn grid(n: int, m: int) -> Set<(int, int)> {
    Set::new(|k: (int, int)| 0 <= k.0 < n && 0 <= k.1 < m)
}

proof fn lemma_grid_len(n: nat, m: nat)
    ensures
        grid(n as int, m as int).finite(),
        grid(n as int, m as int).len() == n * m,
    decreases n,
{
    if n == 0 {
        assert(grid(0, m as int) =~= Set::empty());
    } else {
        let o = n - 1;
        lemma_grid_len(o as nat, m);
        let f = |p: int| (o as int, p);
        let row = set_int_range(0, m as int).map(f);
        lemma_int_range(0, m as int);
        assert(injective_on(f, set_int_range(0, m as int)));
        lemma_map_size(set_int_range(0, m as int), row, f);
        assert forall|k: (int, int)| #[trigger] row.contains(k) <==> k.0 == o && 0 <= k.1 < m by {
            if k.0 == o && 0 <= k.1 < m {
                assert(set_int_range(0, m as int).contains(k.1));
                assert(f(k.1) == k);
            }
        }
        assert(grid(o as int, m as int).disjoint(row));
        lemma_set_disjoint_lens(grid(o as int, m as int), row);
        assert(grid(n as int, m as int) =~= grid(o as int, m as int) + row);
        assert((o + 1) * m == o * m + m) by (nonlinear_arith);
    }
}

/// Decryption shares indexed by `(output_index, participant_id)` over the
/// domain `[0, n) x [0, m)`. Entries are only ever added, never replaced.
pub struct ShareMatrix {
    outputs: usize,
    participants: usize,
    rows: Vec<Vec<Option<DecryptionShare>>>,
}

impl View for ShareMatrix {
    type V = Map<(int, int), Seq<u64>>;

    closed spec fn view(&self) -> Map<(int, int), Seq<u64>> {
        Map::new(
            |k: (int, int)|
                0 <= k.0 < self.rows@.len() && 0 <= k.1 < self.rows@[k.0]@.len()
                    && self.rows@[k.0]@[k.1] is Some,
            |k: (int, int)| self.rows@[k.0]@[k.1]->Some_0@,
        )
    }
}

impl ShareMatrix {
    /// Number of outputs `n`.
    pub closed spec fn n(&self) -> nat {
        self.outputs as nat
    }

    /// Number of participants `m`.
    pub closed spec fn m(&self) -> nat {
        self.participants as nat
    }

    pub closed spec fn wf(&self) -> bool {
        &&& self.rows@.len() == self.outputs
        &&& forall|o: int| 0 <= o < self.rows@.len() ==> #[trigger] self.rows@[o]@.len()
            == self.participants
    }

    /// `(o, p)` lies in `[0, n) x [0, m)`.
    pub open spec fn in_domain(&self, k: (int, int)) -> bool {
        0 <= k.0 < self.n() && 0 <= k.1 < self.m()
    }

    /// Every pair of the domain holds a share.
    pub open spec fn is_complete(&self) -> bool {
        forall|o: int, p: int| #![auto] self.in_domain((o, p)) ==> self@.contains_key((o, p))
    }

    /// The pairs of the domain that hold no share yet.
    pub open spec fn is_missing(&self, k: (int, int)) -> bool {
        self.in_domain(k) && !self@.contains_key(k)
    }

    /// An empty matrix over `[0, n) x [0, m)`.
    pub fn new(n: usize, m: usize) -> (r: Self)
        ensures
            r.wf(),
            r.n() == n,
            r.m() == m,
            r@ == Map::<(int, int), Seq<u64>>::empty(),
    {
        let mut rows: Vec<Vec<Option<DecryptionShare>>> = Vec::new();
        let mut i: usize = 0;
        while i < n
            invariant
                i <= n,
                rows@.len() == i,
                forall|o: int| 0 <= o < i ==> #[trigger] rows@[o]@.len() == m,
                forall|o: int, p: int|
                    0 <= o < i && 0 <= p < m ==> #[trigger] rows@[o]@[p] is None,
            decreases n - i,
        {
            let mut row: Vec<Option<DecryptionShare>> = Vec::new();
            let mut j: usize = 0;
            while j < m
                invariant
                    j <= m,
                    row@.len() == j,
                    forall|p: int| 0 <= p < j ==> #[trigger] row@[p] is None,
                decreases m - j,
            {
                row.push(None);
                j = j + 1;
            }
            rows.push(row);
            i = i + 1;
        }
        let r = ShareMatrix { outputs: n, participants: m, rows };
        assert(r@ =~= Map::<(int, int), Seq<u64>>::empty());
        r
    }

    /// The number of outputs `n`.
    pub fn outputs(&self) -> (r: usize)
        ensures
            r == self.n(),
    {
        self.outputs
    }

    /// The number of participants `m`.
    pub fn participants(&self) -> (r: usize)
        ensures
            r == self.m(),
    {
        self.participants
    }

    /// Whether the share for `(o, p)` is present.
    pub fn contains(&self, o: usize, p: usize) -> (r: bool)
        requires
            self.wf(),
        ensures
            r == self@.contains_key((o as int, p as int)),
    {
        if o < self.outputs && p < self.participants {
            self.rows[o][p].is_some()
        } else {
            false
        }
    }

    /// Records the share for `(o, p)` unless that pair lies outside the
    /// domain or already holds a share; an existing share is never replaced.
    /// Returns whether the share was stored.
    pub fn insert(&mut self, o: usize, p: usize, share: DecryptionShare) -> (r: bool)
        requires
            old(self).wf(),
        ensures
            final(self).wf(),
            final(self).n() == old(self).n(),
            final(self).m() == old(self).m(),
            r == old(self).is_missing((o as int, p as int)),
            r ==> final(self)@ == old(self)@.insert((o as int, p as int), share@),
            !r ==> final(self)@ == old(self)@,
            old(self)@.submap_of(final(self)@),
    {
        if o < self.outputs && p < self.participants && self.rows[o][p].is_none() {
            let ghost before = self@;
            let mut row = self.rows.remove(o);
            row.set(p, Some(share));
            self.rows.insert(o, row);
            assert(self@ =~= before.insert((o as int, p as int), share@));
            true
        } else {
            false
        }
    }

    /// The first pair, in order of increasing output index then increasing
    /// participant id, that holds no share; `None` once the matrix is complete.
    pub fn next_missing(&self) -> (r: Option<(usize, usize)>)
        requires
            self.wf(),
        ensures
            r is None <==> self.is_complete(),
            r matches Some(k) ==> self.is_missing((k.0 as int, k.1 as int)) && forall|
                o: int,
                p: int,
            |
                #![auto]
                self.in_domain((o, p)) && pair_before((o, p), (k.0 as int, k.1 as int))
                    ==> self@.contains_key((o, p)),
    {
        let mut o: usize = 0;
        while o < self.outputs
            invariant
                self.wf(),
                o <= self.outputs,
                forall|a: int, b: int|
                    #![auto]
                    self.in_domain((a, b)) && a < o ==> self@.contains_key((a, b)),
            decreases self.outputs - o,
        {
            let mut p: usize = 0;
            while p < self.participants
                invariant
                    self.wf(),
                    o < self.outputs,
                    p <= self.participants,
                    forall|a: int, b: int|
                        #![auto]
                        self.in_domain((a, b)) && (a < o || (a == o && b < p))
                            ==> self@.contains_key((a, b)),
                decreases self.participants - p,
            {
                if self.rows[o][p].is_none() {
                    proof {
                        assert(self.in_domain((o as int, p as int)));
                        assert(!self@.contains_key((o as int, p as int)));
                    }
                    return Some((o, p));
                }
                p = p + 1;
            }
            o = o + 1;
        }
        None
    }

    /// Every pair that holds no share, each once, in order of increasing
    /// output index then increasing participant id.
    pub fn missing_pairs(&self) -> (r: Vec<(usize, usize)>)
        requires
            self.wf(),
        ensures
            forall|i: int|
                0 <= i < r@.len() ==> self.is_missing(
                    (#[trigger] r@[i].0 as int, r@[i].1 as int),
                ),
            forall|k: (int, int)|
                #[trigger] self.is_missing(k) ==> exists|i: int|
                    0 <= i < r@.len() && r@[i].0 == k.0 && r@[i].1 == k.1,
            forall|i: int, j: int|
                0 <= i < j < r@.len() ==> pair_before(
                    (#[trigger] r@[i].0 as int, r@[i].1 as int),
                    (#[trigger] r@[j].0 as int, r@[j].1 as int),
                ),
            r@.len() == 0 <==> self.is_complete(),
    {
        let mut r: Vec<(usize, usize)> = Vec::new();
        let mut o: usize = 0;
        while o < self.outputs
            invariant
                self.wf(),
                o <= self.outputs,
                forall|i: int|
                    0 <= i < r@.len() ==> self.is_missing(
                        (#[trigger] r@[i].0 as int, r@[i].1 as int),
                    ) && r@[i].0 < o,
                forall|k: (int, int)|
                    #[trigger] self.is_missing(k) && k.0 < o ==> exists|i: int|
                        0 <= i < r@.len() && r@[i].0 == k.0 && r@[i].1 == k.1,
                forall|i: int, j: int|
                    0 <= i < j < r@.len() ==> pair_before(
                        (#[trigger] r@[i].0 as int, r@[i].1 as int),
                        (#[trigger] r@[j].0 as int, r@[j].1 as int),
                    ),
            decreases self.outputs - o,
        {
            let mut p: usize = 0;
            while p < self.participants
                invariant
                    self.wf(),
                    o < self.outputs,
                    p <= self.participants,
                    forall|i: int|
                        0 <= i < r@.len() ==> self.is_missing(
                            (#[trigger] r@[i].0 as int, r@[i].1 as int),
                        ) && pair_before((r@[i].0 as int, r@[i].1 as int), (o as int, p as int)),
                    forall|k: (int, int)|
                        #[trigger] self.is_missing(k) && pair_before(k, (o as int, p as int))
                            ==> exists|i: int|
                            0 <= i < r@.len() && r@[i].0 == k.0 && r@[i].1 == k.1,
                    forall|i: int, j: int|
                        0 <= i < j < r@.len() ==> pair_before(
                            (#[trigger] r@[i].0 as int, r@[i].1 as int),
                            (#[trigger] r@[j].0 as int, r@[j].1 as int),
                        ),
                decreases self.participants - p,
            {
                let ghost before = r@;
                if self.rows[o][p].is_none() {
                    r.push((o, p));
                }
                proof {
                    assert forall|k: (int, int)|
                        #[trigger] self.is_missing(k) && pair_before(k, (o as int, p + 1))
                            implies exists|i: int|
                        0 <= i < r@.len() && r@[i].0 == k.0 && r@[i].1 == k.1 by {
                        if pair_before(k, (o as int, p as int)) {
                            let i = choose|i: int|
                                0 <= i < before.len() && before[i].0 == k.0 && before[i].1 == k.1;
                            assert(r@[i] == before[i]);
                        } else {
                            assert(r@[r@.len() - 1] == (o, p));
                        }
                    }
                }
                p = p + 1;
            }
            o = o + 1;
        }
        proof {
            if r@.len() == 0 {
                assert forall|a: int, b: int| #![auto] self.in_domain((a, b)) implies self@.contains_key(
                    (a, b),
                ) by {
                    if !self@.contains_key((a, b)) {
                        assert(self.is_missing((a, b)));
                    }
                }
            } else {
                assert(self.is_missing((r@[0].0 as int, r@[0].1 as int)));
            }
        }
        r
    }

    /// Once the matrix is complete, the shares of each output index as a list
    /// ordered by participant id; `None`, without touching any share, while a
    /// pair is still missing.
    pub fn assemble(&self) -> (r: Option<Vec<Vec<DecryptionShare>>>)
        requires
            self.wf(),
        ensures
            r is Some <==> self.is_complete(),
            r matches Some(lists) ==> {
                &&& lists@.len() == self.n()
                &&& forall|o: int| 0 <= o < self.n() ==> (#[trigger] lists@[o])@.len() == self.m()
                &&& forall|o: int, p: int|
                    #![auto]
                    self.in_domain((o, p)) ==> lists@[o]@[p]@ == self@[(o, p)]
            },
    {
        if self.next_missing().is_some() {
            return None;
        }
        let mut lists: Vec<Vec<DecryptionShare>> = Vec::new();
        let mut o: usize = 0;
        while o < self.outputs
            invariant
                self.wf(),
                self.is_complete(),
                o <= self.outputs,
                lists@.len() == o,
                forall|a: int| 0 <= a < o ==> (#[trigger] lists@[a])@.len() == self.m(),
                forall|a: int, b: int|
                    #![auto]
                    self.in_domain((a, b)) && a < o ==> lists@[a]@[b]@ == self@[(a, b)],
            decreases self.outputs - o,
        {
            let mut list: Vec<DecryptionShare> = Vec::new();
            let mut p: usize = 0;
            while p < self.participants
                invariant
                    self.wf(),
                    self.is_complete(),
                    o < self.outputs,
                    p <= self.participants,
                    list@.len() == p,
                    forall|b: int|
                        0 <= b < p ==> (#[trigger] list@[b])@ == self.rows@[o as int]@[b]->Some_0@,
                decreases self.participants - p,
            {
                assert(self.in_domain((o as int, p as int)));
                assert(self@.contains_key((o as int, p as int)));
                let share = self.rows[o][p].as_ref().unwrap().clone();
                assert(share@ =~= self.rows@[o as int]@[p as int]->Some_0@);
                list.push(share);
                p = p + 1;
            }
            proof {
                assert forall|b: int| #![auto] self.in_domain((o as int, b)) implies list@[b]@
                    == self@[(o as int, b)] by {
                    assert(self@.contains_key((o as int, b)));
                }
            }
            lists.push(list);
            o = o + 1;
        }
        Some(lists)
    }

    /// A matrix over `[0, n) x [0, m)` holding the shares that `participant`
    /// derived itself, `own` being a list of `(output_index, share)`.
    pub fn seeded(n: usize, m: usize, participant: usize, own: &Vec<(usize, DecryptionShare)>) -> (r:
        Self)
        ensures
            r.wf(),
            r.n() == n,
            r.m() == m,
            r@ == seeded(own@, participant as int, n as int, m as int),
    {
        let mut r = ShareMatrix::new(n, m);
        let mut i: usize = 0;
        while i < own.len()
            invariant
                r.wf(),
                r.n() == n,
                r.m() == m,
                i <= own@.len(),
                r@ == seeded(own@.take(i as int), participant as int, n as int, m as int),
            decreases own@.len() - i,
        {
            let o = own[i].0;
            let share = own[i].1.clone();
            assert(share@ =~= own@[i as int].1@);
            assert(own@.take(i as int + 1).drop_last() =~= own@.take(i as int));
            r.insert(o, participant, share);
            i = i + 1;
        }
        assert(own@.take(own@.len() as int) =~= own@);
        r
    }

    /// A share, once present, stays present with the same value in every
    /// later matrix: a pair that holds a share is never missing again, so
    /// no later aggregation pass fetches it.
    pub proof fn lemma_present_never_refetched(before: ShareMatrix, after: ShareMatrix, k: (int, int))
        requires
            before.wf(),
            after.wf(),
            before@.contains_key(k),
            before@.submap_of(after@),
        ensures
            !after.is_missing(k),
            after@[k] == before@[k],
    {
        assert(before@.dom().contains(k));
        assert(after@.dom().contains(k));
    }

    /// The matrix is complete exactly when it holds `n * m` shares: a
    /// matrix with fewer entries is never complete.
    pub proof fn lemma_complete_iff_full_count(&self)
        requires
            self.wf(),
        ensures
            self@.dom().finite(),
            self.is_complete() <==> self@.dom().len() == self.n() * self.m(),
    {
        let g = grid(self.n() as int, self.m() as int);
        lemma_grid_len(self.n(), self.m());
        assert(self@.dom().subset_of(g));
        lemma_len_subset(self@.dom(), g);
        if self.is_complete() {
            assert forall|k: (int, int)| g.contains(k) implies #[trigger] self@.dom().contains(k) by {
                assert(self.in_domain((k.0, k.1)));
                assert(self@.contains_key((k.0, k.1)));
            }
            assert(self@.dom() =~= g);
        }
        if self@.dom().len() == self.n() * self.m() {
            lemma_subset_equality(self@.dom(), g);
            assert forall|o: int, p: int| #![auto] self.in_domain((o, p)) implies self@.contains_key(
                (o, p),
            ) by {
                assert(g.contains((o, p)));
            }
        }
    }
}

} // verus!

//! Running minimum and maximum of the values written to a buffer.
//!
//! Values that arrive in full blocks are folded lane by lane into a row of accumulators,
//! values of a partial block into a single one; at the end the accumulators are reduced
//! to one value.

use vstd::prelude::*;
use crate::scalar::{Scalar, LARGEST, SMALLEST};

verus! {

/// The place of a value in the direction that is tracked: smaller is better. For a
/// minimum it is the position of the value in the total order, so that of two zeros
/// the negative one is the lesser; for a maximum (`up`) positions are negated.
pub open spec fn key(v: Scalar, up: bool) -> int {
    if up {
        -v.position()
    } else {
        v.position()
    }
}

/// The value that an accumulator starts from: the largest finite value for a minimum,
/// the smallest for a maximum.
pub open spec fn sentinel(up: bool) -> Scalar {
    if up {
        SMALLEST()
    } else {
        LARGEST()
    }
}

/// The best key among the sentinel and the values that are not NaN.
pub open spec fn best_key(values: Seq<Scalar>, up: bool) -> int
    decreases values.len(),
{
    if values.len() == 0 {
        key(sentinel(up), up)
    } else {
        let rest = best_key(values.drop_last(), up);
        let v = values.last();
        if v.nan() || rest <= key(v, up) {
            rest
        } else {
            key(v, up)
        }
    }
}

/// The best key is no worse than that of the sentinel and of any value that is not NaN.
pub proof fn lemma_best_key_bound(values: Seq<Scalar>, up: bool)
    ensures
        best_key(values, up) <= key(sentinel(up), up),
        forall|i: int|
            0 <= i < values.len() && !values[i].nan() ==> best_key(values, up) <= key(
                #[trigger] values[i],
                up,
            ),
    decreases values.len(),
{
    if values.len() > 0 {
        lemma_best_key_bound(values.drop_last(), up);
        assert forall|i: int| 0 <= i < values.len() && !values[i].nan() implies best_key(
            values,
            up,
        ) <= key(#[trigger] values[i], up) by {
            if i < values.len() - 1 {
                assert(values.drop_last()[i] == values[i]);
            }
        }
    }
}

/// The best key is that of the sentinel or of one of the values that are not NaN.
pub proof fn lemma_best_key_attained(values: Seq<Scalar>, up: bool)
    ensures
        best_key(values, up) == key(sentinel(up), up) || exists|i: int|
            0 <= i < values.len() && !values[i].nan() && key(#[trigger] values[i], up)
                == best_key(values, up),
    decreases values.len(),
{
    if values.len() > 0 {
        lemma_best_key_attained(values.drop_last(), up);
        let rest = best_key(values.drop_last(), up);
        let v = values.last();
        if v.nan() || rest <= key(v, up) {
            if rest != key(sentinel(up), up) {
                let i = choose|i: int|
                    0 <= i < values.drop_last().len() && !values.drop_last()[i].nan() && key(
                        #[trigger] values.drop_last()[i],
                        up,
                    ) == rest;
                assert(values[i] == values.drop_last()[i]);
            }
        } else {
            assert(values[values.len() - 1] == v);
        }
    }
}

/// Appending a value improves the best key to the key of that value, if it is better.
pub proof fn lemma_best_key_push(values: Seq<Scalar>, v: Scalar, up: bool)
    ensures
        best_key(values.push(v), up) == if v.nan() || best_key(values, up) <= key(v, up) {
            best_key(values, up)
        } else {
            key(v, up)
        },
{
    assert(values.push(v).drop_last() =~= values);
}

/// Appending the first `n + 1` of a run of values is appending the first `n` and then
/// the one after.
pub proof fn lemma_append_take(values: Seq<Scalar>, more: Seq<Scalar>, n: int)
    requires
        0 <= n < more.len(),
    ensures
        values + more.take(n + 1) == (values + more.take(n)).push(more[n]),
{
    assert(values + more.take(n + 1) =~= (values + more.take(n)).push(more[n]));
}

/// Replacing an accumulator by a value whose key is the better of its own and `k`
/// improves the best key to `k`, if that is better.
pub proof fn lemma_best_key_update(accs: Seq<Scalar>, j: int, m: Scalar, k: int, up: bool)
    requires
        0 <= j < accs.len(),
        !accs[j].nan(),
        !m.nan(),
        key(m, up) == if k < key(accs[j], up) {
            k
        } else {
            key(accs[j], up)
        },
    ensures
        best_key(accs.update(j, m), up) == if k < best_key(accs, up) {
            k
        } else {
            best_key(accs, up)
        },
    decreases accs.len(),
{
    let updated = accs.update(j, m);
    if j == accs.len() - 1 {
        assert(updated.drop_last() =~= accs.drop_last());
    } else {
        lemma_best_key_update(accs.drop_last(), j, m, k, up);
        assert(updated.drop_last() =~= accs.drop_last().update(j, m));
        assert(updated.last() == accs.last());
    }
}

/// The better of an accumulator and a value: the value where it is not NaN and its key
/// is smaller, else the accumulator.
pub open spec fn picked(a: Scalar, v: Scalar, up: bool) -> Scalar {
    if !v.nan() && key(v, up) < key(a, up) {
        v
    } else {
        a
    }
}

/// Computes [`picked`].
pub fn pick(a: Scalar, v: Scalar, up: bool) -> (r: Scalar)
    ensures
        r == picked(a, v, up),
{
    if v.is_nan() {
        return a;
    }
    let better = if up {
        v.total_position() > a.total_position()
    } else {
        v.total_position() < a.total_position()
    };
    if better {
        v
    } else {
        a
    }
}

/// The accumulators of one extreme, the minimum or the maximum.
pub struct Extreme {
    /// Whether the maximum is tracked, not the minimum.
    pub up: bool,
    /// One accumulator for each lane of a full block.
    pub lanes: Vec<Scalar>,
    /// The accumulator for the values of partial blocks.
    pub scalar: Scalar,
    /// The values folded in so far, in their order.
    pub seen: Ghost<Seq<Scalar>>,
}

impl Extreme {
    /// All accumulators: those of the lanes, then the single one.
    pub open spec fn accumulators(self) -> Seq<Scalar> {
        self.lanes@.push(self.scalar)
    }

    /// What is asked of an accumulator, whatever was folded into it: it is not NaN, it is
    /// no worse than the sentinel, and it is the sentinel or one of the values.
    pub open spec fn sound(self, a: Scalar, values: Seq<Scalar>) -> bool {
        &&& !a.nan()
        &&& key(a, self.up) <= key(sentinel(self.up), self.up)
        &&& (a == sentinel(self.up) || values.contains(a))
    }

    /// The accumulators account for exactly the given values: each is sound, and the
    /// best among them is as good as the best of the values.
    pub open spec fn tracks(self, values: Seq<Scalar>) -> bool {
        &&& forall|j: int|
            0 <= j < self.accumulators().len() ==> self.sound(
                #[trigger] self.accumulators()[j],
                values,
            )
        &&& best_key(self.accumulators(), self.up) == best_key(values, self.up)
    }

    /// The accumulators account for the values that were folded in.
    pub open spec fn well_formed(self) -> bool {
        self.tracks(self.seen@)
    }

    /// Fresh accumulators for blocks of `lanes` values.
    pub fn new(up: bool, lanes: usize) -> (r: Self)
        ensures
            r.up == up,
            r.lanes.len() == lanes,
            r.seen@ == Seq::<Scalar>::empty(),
            r.well_formed(),
    {
        let start = if up {
            Scalar::smallest()
        } else {
            Scalar::largest()
        };
        let mut accs: Vec<Scalar> = Vec::new();
        let mut j: usize = 0;
        while j < lanes
            invariant
                j <= lanes,
                accs.len() == j,
                start == sentinel(up),
                forall|i: int| 0 <= i < j ==> accs[i] == start,
            decreases lanes - j,
        {
            accs.push(start);
            j = j + 1;
        }
        let r = Extreme { up, lanes: accs, scalar: start, seen: Ghost(Seq::empty()) };
        proof {
            lemma_best_key_bound(r.accumulators(), up);
            lemma_best_key_attained(r.accumulators(), up);
        }
        r
    }

    /// Folds a full block into the lane accumulators, each value into the accumulator
    /// of its lane.
    pub fn fold_block(&mut self, block: &Vec<Scalar>)
        requires
            old(self).well_formed(),
            block.len() == old(self).lanes.len(),
        ensures
            final(self).up == old(self).up,
            final(self).scalar == old(self).scalar,
            final(self).lanes.len() == old(self).lanes.len(),
            forall|j: int|
                0 <= j < block.len() ==> #[trigger] final(self).lanes[j] == picked(
                    old(self).lanes[j],
                    block[j],
                    old(self).up,
                ),
            final(self).seen@ == old(self).seen@ + block@,
            final(self).well_formed(),
    {
        let ghost values = self.seen@;
        let lanes = self.lanes.len();
        let up = self.up;
        let mut j: usize = 0;
        assert(values + block@.take(0) =~= values);
        while j < lanes
            invariant
                j <= lanes,
                lanes == block.len(),
                self.lanes.len() == lanes,
                self.up == up,
                self.scalar == old(self).scalar,
                self.seen@ == values,
                forall|i: int|
                    0 <= i < j ==> #[trigger] self.lanes[i] == picked(
                        old(self).lanes[i],
                        block[i],
                        up,
                    ),
                forall|i: int| j <= i < lanes ==> #[trigger] self.lanes[i] == old(self).lanes[i],
                self.tracks(values + block@.take(j as int)),
            decreases lanes - j,
        {
            let v = block[j];
            let a = self.lanes[j];
            let ghost before = *self;
            let ghost seen = values + block@.take(j as int);
            let m = pick(a, v, up);
            self.lanes.set(j, m);
            proof {
                let after = seen.push(v);
                lemma_append_take(values, block@, j as int);
                lemma_best_key_push(seen, v, up);
                assert(before.accumulators()[j as int] == a);
                assert(before.sound(a, seen));
                assert(self.accumulators() =~= before.accumulators().update(j as int, m));
                assert(after[seen.len() as int] == v);
                if v.nan() {
                    assert(m == a);
                    lemma_best_key_update(before.accumulators(), j as int, m, key(a, up), up);
                    lemma_best_key_bound(before.accumulators(), up);
                } else {
                    lemma_best_key_update(before.accumulators(), j as int, m, key(v, up), up);
                }
                assert forall|i: int| 0 <= i < self.accumulators().len() implies self.sound(
                    #[trigger] self.accumulators()[i],
                    after,
                ) by {
                    let acc = self.accumulators()[i];
                    if i == j {
                        if acc == a {
                            if seen.contains(a) {
                                let w = choose|w: int| 0 <= w < seen.len() && seen[w] == a;
                                assert(after[w] == a);
                            }
                        } else {
                            assert(acc == v);
                        }
                    } else {
                        assert(acc == before.accumulators()[i]);
                        assert(before.sound(acc, seen));
                        if seen.contains(acc) {
                            let w = choose|w: int| 0 <= w < seen.len() && seen[w] == acc;
                            assert(after[w] == acc);
                        }
                    }
                }
            }
            j = j + 1;
        }
        assert(block@.take(lanes as int) =~= block@);
        self.seen = Ghost(values + block@);
    }

    /// Folds one value of a partial block into the single accumulator.
    pub fn fold_one(&mut self, v: Scalar)
        requires
            old(self).well_formed(),
        ensures
            final(self).up == old(self).up,
            final(self).lanes == old(self).lanes,
            final(self).scalar == picked(old(self).scalar, v, old(self).up),
            final(self).seen@ == old(self).seen@.push(v),
            final(self).well_formed(),
    {
        let ghost values = self.seen@;
        let ghost before = *self;
        let ghost after = values.push(v);
        let ghost last = self.lanes@.len() as int;
        let a = self.scalar;
        self.scalar = pick(a, v, self.up);
        self.seen = Ghost(values.push(v));
        proof {
            let up = self.up;
            let m = self.scalar;
            lemma_best_key_push(values, v, up);
            assert(before.accumulators()[last] == a);
            assert(before.sound(a, values));
            assert(self.accumulators() =~= before.accumulators().update(last, m));
            assert(after[values.len() as int] == v);
            if v.nan() {
                lemma_best_key_update(before.accumulators(), last, m, key(a, up), up);
                lemma_best_key_bound(before.accumulators(), up);
            } else {
                lemma_best_key_update(before.accumulators(), last, m, key(v, up), up);
            }
            assert forall|i: int| 0 <= i < self.accumulators().len() implies self.sound(
                #[trigger] self.accumulators()[i],
                after,
            ) by {
                let acc = self.accumulators()[i];
                if i == last {
                    if acc == a {
                        if values.contains(a) {
                            let w = choose|w: int| 0 <= w < values.len() && values[w] == a;
                            assert(after[w] == a);
                        }
                    } else {
                        assert(acc == v);
                    }
                } else {
                    assert(acc == before.accumulators()[i]);
                    assert(before.sound(acc, values));
                    if values.contains(acc) {
                        let w = choose|w: int| 0 <= w < values.len() && values[w] == acc;
                        assert(after[w] == acc);
                    }
                }
            }
        }
    }

    /// Reduces the accumulators to the one extreme value.
    pub fn finish(&self) -> (r: Scalar)
        requires
            self.well_formed(),
        ensures
            !r.nan(),
            key(r, self.up) == best_key(self.seen@, self.up),
            r == sentinel(self.up) || self.seen@.contains(r),
    {
        let ghost values = self.seen@;
        let up = self.up;
        let lanes = self.lanes.len();
        let mut best = self.scalar;
        let mut j: usize = 0;
        assert(self.accumulators()[lanes as int] == self.scalar);
        while j < lanes
            invariant
                j <= lanes,
                lanes == self.lanes.len(),
                up == self.up,
                self.tracks(values),
                self.sound(best, values),
                key(best, up) <= key(self.scalar, up),
                forall|i: int| 0 <= i < j ==> key(best, up) <= key(#[trigger] self.lanes[i], up),
                exists|i: int|
                    0 <= i < self.accumulators().len() && #[trigger] self.accumulators()[i]
                        == best,
            decreases lanes - j,
        {
            let a = self.lanes[j];
            assert(self.accumulators()[j as int] == a);
            best = pick(best, a, up);
            j = j + 1;
        }
        proof {
            let accs = self.accumulators();
            lemma_best_key_bound(accs, up);
            lemma_best_key_attained(accs, up);
            let w = choose|i: int| 0 <= i < accs.len() && #[trigger] accs[i] == best;
            assert(best_key(accs, up) <= key(accs[w], up));
            if best_key(accs, up) != key(sentinel(up), up) {
                let i = choose|i: int|
                    0 <= i < accs.len() && !accs[i].nan() && key(#[trigger] accs[i], up)
                        == best_key(accs, up);
                if i < lanes {
                    assert(accs[i] == self.lanes[i]);
                } else {
                    assert(accs[i] == self.scalar);
                }
            }
        }
        best
    }
}

} // verus!

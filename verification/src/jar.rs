//! A sequence of ranges of values, kept in one vector.

use vstd::pervasive::cloned;
use vstd::prelude::*;
use vstd::slice::slice_subrange;

verus! {

/// A sequence of ranges. The values of all ranges stand one behind the other
/// in `values`; `begin_indices` holds, for each range, where it begins. A
/// range ends where the next one begins, the last one where the values end.
#[derive(Debug)]
pub struct Jar<T> {
    pub values: Vec<T>,
    pub begin_indices: Vec<usize>,
}

impl<T> Jar<T> {
    /// The ranges begin in order, and none behind the last value.
    pub open spec fn wf(&self) -> bool {
        &&& forall|i: int, j: int|
            0 <= i <= j < self.begin_indices.len() ==> self.begin_indices[i]
                <= self.begin_indices[j]
        &&& forall|i: int|
            0 <= i < self.begin_indices.len() ==> self.begin_indices[i] <= self.values.len()
    }

    /// Where the range `index` begins.
    pub open spec fn begin(&self, index: int) -> int {
        self.begin_indices[index] as int
    }

    /// Where the range `index` ends.
    pub open spec fn end(&self, index: int) -> int {
        if index + 1 < self.begin_indices.len() {
            self.begin_indices[index + 1] as int
        } else {
            self.values.len() as int
        }
    }

    /// The values of the range `index`.
    pub open spec fn range(&self, index: int) -> Seq<T> {
        self.values@.subrange(self.begin(index), self.end(index))
    }
}

impl<T> View for Jar<T> {
    type V = Seq<Seq<T>>;

    /// The ranges, each as the sequence of its values.
    open spec fn view(&self) -> Seq<Seq<T>> {
        Seq::new(self.begin_indices.len() as nat, |i: int| self.range(i))
    }
}

impl<T: Clone> Clone for Jar<T> {
    /// A jar with the same ranges, each holding a clone of each value.
    fn clone(&self) -> (r: Jar<T>)
        ensures
            r.begin_indices@ == self.begin_indices@,
            r.values.len() == self.values.len(),
            forall|i: int| 0 <= i < self.values.len() ==> cloned(self.values[i], #[trigger] r.values[i]),
    {
        let r = Jar { values: self.values.clone(), begin_indices: self.begin_indices.clone() };
        assert(r.begin_indices@ =~= self.begin_indices@);
        r
    }
}

impl<T: Clone> Jar<T> {
    /// The jar without ranges.
    pub fn new() -> (r: Jar<T>)
        ensures
            r.wf(),
            r@ == Seq::<Seq<T>>::empty(),
            r.values@ == Seq::<T>::empty(),
    {
        let r = Jar { values: Vec::new(), begin_indices: Vec::new() };
        assert(r@ =~= Seq::<Seq<T>>::empty());
        r
    }

    /// The number of ranges.
    pub fn len(&self) -> (n: usize)
        ensures
            n == self@.len(),
    {
        self.begin_indices.len()
    }

    fn get_begin_end(&self, index: usize) -> (r: (usize, usize))
        requires
            self.wf(),
            index < self@.len(),
        ensures
            r.0 == self.begin(index as int),
            r.1 == self.end(index as int),
            r.0 <= r.1 <= self.values.len(),
    {
        let begin: usize = self.begin_indices[index];
        let next: usize = index + 1;
        let end: usize = if next < self.begin_indices.len() {
            self.begin_indices[next]
        } else {
            self.values.len()
        };
        (begin, end)
    }

    /// The values of one range.
    pub fn get_range(&self, index: usize) -> (r: &[T])
        requires
            self.wf(),
            index < self@.len(),
        ensures
            r@ == self@[index as int],
    {
        let (begin, end) = self.get_begin_end(index);
        slice_subrange(self.values.as_slice(), begin, end)
    }

    /// Appends a range without values.
    pub fn append_empty_range(&mut self)
        requires
            old(self).wf(),
        ensures
            final(self).wf(),
            final(self)@ == old(self)@.push(Seq::empty()),
            final(self).values@ == old(self).values@,
            final(self).begin_indices@ == old(self).begin_indices@.push(old(self).values.len()),
    {
        self.begin_indices.push(self.values.len());
        assert(self@ =~= old(self)@.push(Seq::empty())) by {
            assert forall|i: int| 0 <= i < self@.len() implies #[trigger] self@[i] == old(
                self,
            )@.push(Seq::empty())[i] by {
                if i < old(self)@.len() {
                    assert(self.range(i) =~= old(self).range(i));
                } else {
                    assert(self.range(i) =~= Seq::<T>::empty());
                }
            }
        }
    }

    /// Appends a value to the last range. Without a range the value is
    /// stored before the first range that will be appended, and belongs to
    /// none.
    pub fn append_to_last_range(&mut self, t: T)
        requires
            old(self).wf(),
        ensures
            final(self).wf(),
            final(self).values@ == old(self).values@.push(t),
            old(self)@.len() > 0 ==> final(self)@ == old(self)@.update(
                old(self)@.len() - 1,
                old(self)@.last().push(t),
            ),
            old(self)@.len() == 0 ==> final(self)@ == old(self)@,
    {
        self.values.push(t);
        proof {
            let n = old(self)@.len() as int;
            if n > 0 {
                assert(self@ =~= old(self)@.update(n - 1, old(self)@.last().push(t))) by {
                    assert forall|i: int| 0 <= i < n implies #[trigger] self@[i] == old(
                        self,
                    )@.update(n - 1, old(self)@.last().push(t))[i] by {
                        if i < n - 1 {
                            assert(self.range(i) =~= old(self).range(i));
                        } else {
                            assert(self.range(i) =~= old(self).range(i).push(t));
                        }
                    }
                }
            } else {
                assert(self@ =~= old(self)@);
            }
        }
    }

    /// Removes all ranges and all values.
    pub fn clear(&mut self)
        ensures
            final(self).wf(),
            final(self)@ == Seq::<Seq<T>>::empty(),
            final(self).values@ == Seq::<T>::empty(),
    {
        self.values.clear();
        self.begin_indices.clear();
        assert(self@ =~= Seq::<Seq<T>>::empty());
    }
}

impl<T: Clone> Jar<T> {
    /// Appends a range that holds a clone of each value of `ts`, in order.
    pub fn append_range(&mut self, ts: &[T])
        requires
            old(self).wf(),
        ensures
            final(self).wf(),
            final(self)@.len() == old(self)@.len() + 1,
            final(self)@.drop_last() == old(self)@,
            final(self)@.last().len() == ts@.len(),
            forall|k: int| 0 <= k < ts@.len() ==> cloned(ts@[k], #[trigger] final(self)@.last()[k]),
    {
        self.append_empty_range();
        let ghost base = self.values@;
        let ghost at = self.values.len() as int;
        let mut i: usize = 0;
        while i < ts.len()
            invariant
                i <= ts.len(),
                self.begin_indices@ == old(self).begin_indices@.push(at as usize),
                at == old(self).values.len(),
                self.values.len() == at + i,
                self.values@.subrange(0, at) == old(self).values@,
                forall|k: int| 0 <= k < i ==> cloned(ts@[k], #[trigger] self.values@[at + k]),
                old(self).wf(),
            decreases ts.len() - i,
        {
            let ghost before = self.values@;
            self.values.push(ts[i].clone());
            assert(self.values@.subrange(0, at) =~= before.subrange(0, at));
            i = i + 1;
        }
        proof {
            let n = old(self)@.len() as int;
            assert(self@.last() =~= self.values@.subrange(at, at + ts@.len()));
            assert forall|k: int| 0 <= k < ts@.len() implies cloned(
                ts@[k],
                #[trigger] self@.last()[k],
            ) by {
                assert(self@.last()[k] == self.values@[at + k]);
            }
            assert(self@.drop_last() =~= old(self)@) by {
                assert forall|j: int| 0 <= j < n implies #[trigger] self@.drop_last()[j] == old(
                    self,
                )@[j] by {
                    assert(self.range(j) =~= old(self).range(j));
                }
            }
        }
    }

    /// Puts a value in front of the range `index`.
    pub fn append_to_range(&mut self, index: usize, t: T)
        requires
            old(self).wf(),
            index < old(self)@.len(),
        ensures
            final(self).wf(),
            final(self)@ == old(self)@.update(index as int, seq![t] + old(self)@[index as int]),
    {
        let at: usize = self.begin_indices[index];
        self.values.insert(at, t);
        let total: usize = self.values.len();
        let n: usize = self.begin_indices.len();
        let mut i: usize = index + 1;
        while i < n
            invariant
                index < i <= n,
                total == old(self).values.len() + 1,
                n == self.begin_indices.len() == old(self).begin_indices.len(),
                self.values@ == old(self).values@.insert(at as int, t),
                at == old(self).begin_indices[index as int],
                old(self).wf(),
                forall|k: int| 0 <= k <= index ==> self.begin_indices[k] == old(self).begin_indices[k],
                forall|k: int|
                    index < k < i ==> self.begin_indices[k] == old(self).begin_indices[k] + 1,
                forall|k: int| i <= k < n ==> self.begin_indices[k] == old(self).begin_indices[k],
            decreases n - i,
        {
            assert(old(self).begin_indices[i as int] <= old(self).values.len());
            let moved: usize = self.begin_indices[i] + 1;
            self.begin_indices.set(i, moved);
            i = i + 1;
        }
        proof {
            let want = old(self)@.update(index as int, seq![t] + old(self)@[index as int]);
            assert(self@ =~= want) by {
                assert forall|j: int| 0 <= j < n implies #[trigger] self@[j] == want[j] by {
                    if j < index {
                        assert(self.range(j) =~= old(self).range(j));
                    } else if j == index {
                        assert(self.range(j) =~= seq![t] + old(self).range(j));
                    } else {
                        assert(self.range(j) =~= old(self).range(j));
                    }
                }
            }
        }
    }

    /// Puts a clone of each value of `ts` in front of the range `index`, one
    /// after the other: the range then starts with the values of `ts` in
    /// reverse order.
    pub fn append_slice_to_range(&mut self, index: usize, ts: &[T])
        requires
            old(self).wf(),
            index < old(self)@.len(),
        ensures
            final(self).wf(),
            final(self)@.len() == old(self)@.len(),
            forall|j: int|
                0 <= j < old(self)@.len() && j != index ==> final(self)@[j] == old(self)@[j],
            final(self)@[index as int].len() == ts@.len() + old(self)@[index as int].len(),
            final(self)@[index as int].subrange(
                ts@.len() as int,
                final(self)@[index as int].len() as int,
            ) == old(self)@[index as int],
            forall|k: int|
                0 <= k < ts@.len() ==> cloned(
                    ts@[k],
                    #[trigger] final(self)@[index as int][ts@.len() - 1 - k],
                ),
    {
        let mut i: usize = 0;
        assert(self@[index as int].subrange(0, self@[index as int].len() as int)
            =~= self@[index as int]);
        while i < ts.len()
            invariant
                i <= ts.len(),
                self.wf(),
                self@.len() == old(self)@.len(),
                index < self@.len(),
                forall|j: int|
                    0 <= j < old(self)@.len() && j != index ==> self@[j] == old(self)@[j],
                self@[index as int].len() == i + old(self)@[index as int].len(),
                self@[index as int].subrange(i as int, self@[index as int].len() as int) == old(
                    self,
                )@[index as int],
                forall|k: int| 0 <= k < i ==> cloned(ts@[k], #[trigger] self@[index as int][i - 1 - k]),
            decreases ts.len() - i,
        {
            let ghost before = self@;
            let t = ts[i].clone();
            self.append_to_range(index, t);
            proof {
                let now = self@[index as int];
                assert(now =~= seq![t] + before[index as int]);
                assert(now.subrange(i + 1, now.len() as int) =~= before[index as int].subrange(
                    i as int,
                    before[index as int].len() as int,
                ));
                assert forall|k: int| 0 <= k < i + 1 implies cloned(
                    ts@[k],
                    #[trigger] now[i - k],
                ) by {
                    if k < i {
                        assert(now[i - k] == before[index as int][i - 1 - k]);
                    }
                }
            }
            i = i + 1;
        }
    }

    /// Removes the range `index` with its values. The ranges behind it move
    /// up by one.
    pub fn remove(&mut self, index: usize)
        requires
            old(self).wf(),
            index < old(self)@.len(),
        ensures
            final(self).wf(),
            final(self)@ == old(self)@.remove(index as int),
    {
        let (begin, end) = self.get_begin_end(index);
        let l: usize = end - begin;
        let mut done: usize = 0;
        while done < l
            invariant
                done <= l,
                l == end - begin,
                begin <= end <= old(self).values.len(),
                self.begin_indices@ == old(self).begin_indices@,
                self.values@ == old(self).values@.subrange(0, begin as int) + old(
                    self,
                ).values@.subrange(begin + done, old(self).values.len() as int),
            decreases l - done,
        {
            self.values.remove(begin);
            done = done + 1;
            assert(self.values@ =~= old(self).values@.subrange(0, begin as int) + old(
                self,
            ).values@.subrange(begin + done, old(self).values.len() as int));
        }
        self.begin_indices.remove(index);
        let n: usize = self.begin_indices.len();
        let mut i: usize = index;
        while i < n
            invariant
                index <= i <= n,
                n + 1 == old(self).begin_indices.len(),
                n == self.begin_indices.len(),
                old(self).wf(),
                begin == old(self).begin(index as int),
                end == old(self).end(index as int),
                l == end - begin,
                forall|k: int| 0 <= k < index ==> self.begin_indices[k] == old(self).begin_indices[k],
                forall|k: int|
                    index <= k < i ==> self.begin_indices[k] == old(self).begin_indices[k + 1] - l,
                forall|k: int|
                    i <= k < n ==> self.begin_indices[k] == old(self).begin_indices[k + 1],
                self.values@ == old(self).values@.subrange(0, begin as int) + old(
                    self,
                ).values@.subrange(end as int, old(self).values.len() as int),
            decreases n - i,
        {
            assert(old(self).begin_indices[index + 1] <= old(self).begin_indices[i + 1]);
            let moved: usize = self.begin_indices[i] - l;
            self.begin_indices.set(i, moved);
            i = i + 1;
        }
        proof {
            let want = old(self)@.remove(index as int);
            assert forall|a: int, b: int| 0 <= a <= b < n implies self.begin_indices[a]
                <= self.begin_indices[b] by {
                if a < index && b >= index {
                    assert(old(self).begin_indices[a] <= old(self).begin_indices[index as int]);
                    assert(old(self).begin_indices[index + 1] <= old(self).begin_indices[b + 1]);
                } else if a >= index {
                    assert(old(self).begin_indices[a + 1] <= old(self).begin_indices[b + 1]);
                }
            }
            assert forall|k: int| 0 <= k < n implies self.begin_indices[k]
                <= self.values.len() by {
                if k >= index {
                    assert(old(self).begin_indices[index + 1] <= old(self).begin_indices[k + 1]);
                } else {
                    assert(old(self).begin_indices[k] <= old(self).begin_indices[index as int]);
                }
            }
            assert(self@ =~= want) by {
                assert forall|j: int| 0 <= j < n implies #[trigger] self@[j] == want[j] by {
                    if j < index {
                        assert(old(self).begin_indices[j] <= old(self).begin_indices[j + 1]);
                        assert(old(self).begin_indices[j + 1] <= old(self).begin_indices[index as int]);
                        assert(self.range(j) =~= old(self).range(j));
                    } else {
                        assert(old(self).begin_indices[index + 1] <= old(self).begin_indices[j + 1]);
                        if j + 2 < old(self).begin_indices.len() {
                            assert(old(self).begin_indices[j + 1] <= old(self).begin_indices[j + 2]);
                        }
                        assert(self.range(j) =~= old(self).range(j + 1));
                    }
                }
            }
        }
    }
}

impl<T: Clone> Jar<T> {
    /// The values of one range, to be changed in place. Whatever is written
    /// there is what the range holds afterwards; all else stays as it is.
    pub fn get_range_mut(&mut self, index: usize) -> (r: &mut [T])
        requires
            old(self).wf(),
            index < old(self)@.len(),
        ensures
            r@ == old(self)@[index as int],
            final(self).begin_indices@ == old(self).begin_indices@,
            final(self).values@ == old(self).values@.subrange(0, old(self).begin(index as int))
                + final(r)@ + old(self).values@.subrange(
                old(self).end(index as int),
                old(self).values.len() as int,
            ),
    {
        let (begin, end) = self.get_begin_end(index);
        let (head, _) = self.values.as_mut_slice().split_at_mut(end);
        let (_, r) = head.split_at_mut(begin);
        r
    }
}

} // verus!

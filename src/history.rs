use vstd::prelude::*;

verus! {

/// How many values the loss history keeps.
pub const MAX_DATA_POINTS: usize = 1000;

/// `s` with `v` appended, the oldest value evicted where that would exceed
/// the capacity.
pub open spec fn push_evict<T>(s: Seq<T>, v: T) -> Seq<T> {
    if s.len() + 1 > MAX_DATA_POINTS {
        s.push(v).drop_first()
    } else {
        s.push(v)
    }
}

/// `s` after appending each of `vals` in turn.
pub open spec fn push_all<T>(s: Seq<T>, vals: Seq<T>) -> Seq<T>
    decreases vals.len(),
{
    if vals.len() == 0 {
        s
    } else {
        push_evict(push_all(s, vals.drop_last()), vals.last())
    }
}

/// The last `n` values of `s`, or all of them where there are fewer.
pub open spec fn last_n<T>(s: Seq<T>, n: nat) -> Seq<T> {
    if s.len() > n {
        s.skip(s.len() - n)
    } else {
        s
    }
}

/// A bounded series of values, oldest first, that evicts its oldest value
/// once it would hold more than `MAX_DATA_POINTS`.
pub struct LossHistory<T> {
    data: Vec<T>,
}

impl<T> View for LossHistory<T> {
    type V = Seq<T>;

    closed spec fn view(&self) -> Seq<T> {
        self.data@
    }
}

impl<T> LossHistory<T> {
    pub open spec fn wf(&self) -> bool {
        self@.len() <= MAX_DATA_POINTS
    }

    /// An empty history.
    pub fn new() -> (r: Self)
        ensures
            r@ == Seq::<T>::empty(),
            r.wf(),
    {
        LossHistory { data: Vec::new() }
    }

    /// Appends `data`, evicting the oldest value when over capacity.
    pub fn add_data(&mut self, data: T)
        requires
            old(self).wf(),
        ensures
            final(self)@ == push_evict(old(self)@, data),
            final(self).wf(),
    {
        self.data.push(data);
        if self.data.len() > MAX_DATA_POINTS {
            self.data.remove(0);
            assert(self.data@ == push_evict(old(self)@, data));
        }
    }

    /// Removes every value.
    pub fn clear_data(&mut self)
        ensures
            final(self)@ == Seq::<T>::empty(),
            final(self).wf(),
    {
        self.data.clear();
    }

    /// The number of values held.
    pub fn len(&self) -> (r: usize)
        ensures
            r == self@.len(),
    {
        self.data.len()
    }

    /// The values held, oldest first.
    pub fn values(&self) -> (r: &[T])
        ensures
            r@ == self@,
    {
        self.data.as_slice()
    }
}

/// Starting from a history within capacity, appending any values in turn
/// leaves exactly the last `MAX_DATA_POINTS` of all values seen, in order
/// (all of them where there are no more).
pub proof fn lemma_history_keeps_last<T>(s: Seq<T>, vals: Seq<T>)
    requires
        s.len() <= MAX_DATA_POINTS,
    ensures
        push_all(s, vals) == last_n(s + vals, MAX_DATA_POINTS as nat),
        push_all(s, vals).len() == if s.len() + vals.len() > MAX_DATA_POINTS {
            MAX_DATA_POINTS as int
        } else {
            (s.len() + vals.len()) as int
        },
    decreases vals.len(),
{
    if vals.len() > 0 {
        let init = vals.drop_last();
        let v = vals.last();
        lemma_history_keeps_last(s, init);
        let p = push_all(s, init);
        let x = s + init;
        assert(s + vals == x.push(v));
        if p.len() + 1 > MAX_DATA_POINTS {
            assert(p.push(v).drop_first() == last_n(x.push(v), MAX_DATA_POINTS as nat));
        } else {
            assert(p.push(v) == last_n(x.push(v), MAX_DATA_POINTS as nat));
        }
    } else {
        assert(s + vals == s);
    }
}

} // verus!

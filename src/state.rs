use rand::seq::SliceRandom;
use vstd::prelude::*;

use crate::dataset::{labelled_features, selected, stratified_sample, IrisData};
use crate::iris::Iris;

verus! {

/// How many records of each class the held-out sample takes.
pub const TEST_COUNT: usize = 3;

/// Relies on rand's `SliceRandom::shuffle`, driven by the thread-local
/// generator: it only swaps elements, so it returns a permutation.
#[verifier::external_body]
fn shuffle<T>(v: &mut Vec<T>)
    ensures
        final(v)@.to_multiset() == old(v)@.to_multiset(),
{
    v.shuffle(&mut rand::thread_rng());
}

/// Where the training index stands, and how many times it has wrapped.
#[derive(Clone, Copy, Debug, PartialEq, Eq, Structural)]
pub struct TrainingCursor {
    pub data_index: usize,
    pub generations: usize,
}

impl TrainingCursor {
    /// A cursor at the first sample of the first generation.
    pub fn new() -> (r: Self)
        ensures
            r.data_index == 0,
            r.generations == 0,
    {
        TrainingCursor { data_index: 0, generations: 0 }
    }

    /// Moves to the next of `len` samples, wrapping to the first one and
    /// counting a generation at the end.
    pub fn advance(&mut self, len: usize)
        requires
            old(self).data_index < len,
            old(self).generations < usize::MAX,
        ensures
            final(self).data_index == (old(self).data_index + 1) % (len as int),
            final(self).generations == old(self).generations + if final(self).data_index == 0 {
                1int
            } else {
                0int
            },
            final(self).data_index < len,
    {
        self.data_index = (self.data_index + 1) % len;
        if self.data_index == 0 {
            self.generations += 1;
        }
    }
}

/// Switches the positive class: the records of the new pair, shuffled,
/// replace `data` (the anchor class alone is no pair, and keeps the old
/// records, reshuffled); returns the new held-out sample of `TEST_COUNT`
/// records of each class.
pub fn update_iris_type<T: Copy>(
    csv_data: &Vec<IrisData<T>>,
    data: &mut Vec<IrisData<T>>,
    iris_type: Iris,
) -> (test_data: Vec<(Vec<T>, Iris)>)
    ensures
        final(data)@.to_multiset() == (if iris_type == Iris::Setosa {
            old(data)@
        } else {
            selected(csv_data@, iris_type)
        }).to_multiset(),
        labelled_features(test_data@, stratified_sample(final(data)@, TEST_COUNT as nat)),
{
    match iris_type {
        Iris::Virginica => {
            *data = IrisData::get_data(csv_data, Iris::Virginica);
        },
        Iris::Versicolour => {
            *data = IrisData::get_data(csv_data, Iris::Versicolour);
        },
        Iris::Setosa => {},
    }
    shuffle(data);
    IrisData::get_test_data(data, TEST_COUNT)
}

} // verus!

use vstd::prelude::*;

use crate::iris::Iris;

verus! {

/// One labelled measurement: four features and a species.
#[derive(Clone, Copy, Debug)]
pub struct IrisData<T> {
    pub sepal_length: T,
    pub sepal_width: T,
    pub petal_length: T,
    pub petal_width: T,
    pub species: Iris,
}

/// Whether a species takes part in training against `positive`:
/// the anchor class always does, as does the chosen positive class.
pub open spec fn in_pair(species: Iris, positive: Iris) -> bool {
    species == positive || species == Iris::Setosa
}

/// The records that take part in training against `positive`, in order.
pub open spec fn selected<T>(data: Seq<IrisData<T>>, positive: Iris) -> Seq<IrisData<T>> {
    data.filter(|d: IrisData<T>| in_pair(d.species, positive))
}

/// How many records of `data` have species `x`.
pub open spec fn count_of<T>(data: Seq<IrisData<T>>, x: Iris) -> nat
    decreases data.len(),
{
    if data.len() == 0 {
        0
    } else {
        (if data[0].species == x { 1nat } else { 0nat }) + count_of(data.drop_first(), x)
    }
}

/// Why a data set cannot be used for training.
#[derive(Clone, Copy, Debug, PartialEq, Eq, Structural)]
pub enum DatasetError {
    /// No record belongs to the chosen pair of classes.
    EmptyDataset,
}

/// The greedy stratified scan: a record is taken while its class
/// (anchor or not) has taken fewer than `count`; `anchor` and `other`
/// are how many of each have been taken so far.
pub open spec fn stratified<T>(data: Seq<IrisData<T>>, count: nat, anchor: nat, other: nat) -> Seq<
    IrisData<T>,
>
    decreases data.len(),
{
    if data.len() == 0 {
        Seq::empty()
    } else {
        let d = data[0];
        let rest = data.drop_first();
        if d.species == Iris::Setosa && anchor < count {
            seq![d] + stratified(rest, count, anchor + 1, other)
        } else if d.species != Iris::Setosa && other < count {
            seq![d] + stratified(rest, count, anchor, other + 1)
        } else {
            stratified(rest, count, anchor, other)
        }
    }
}

/// Up to `count` records of the anchor class and up to `count` of the
/// other class, in the order in which they occur.
pub open spec fn stratified_sample<T>(data: Seq<IrisData<T>>, count: nat) -> Seq<IrisData<T>> {
    stratified(data, count, 0, 0)
}

/// The four features of a record, in their fixed order.
pub open spec fn all_features<T>(d: IrisData<T>) -> Seq<T> {
    seq![d.sepal_length, d.sepal_width, d.petal_length, d.petal_width]
}

/// Whether `res` holds, in order, the features and species of `sample`.
pub open spec fn labelled_features<T>(res: Seq<(Vec<T>, Iris)>, sample: Seq<IrisData<T>>) -> bool {
    &&& res.len() == sample.len()
    &&& forall|i: int|
        0 <= i < res.len() ==> (#[trigger] res[i]).0@ == all_features(sample[i]) && res[i].1
            == sample[i].species
}

proof fn lemma_stratified_done<T>(data: Seq<IrisData<T>>, count: nat)
    ensures
        stratified(data, count, count, count) == Seq::<IrisData<T>>::empty(),
    decreases data.len(),
{
    if data.len() > 0 {
        lemma_stratified_done(data.drop_first(), count);
    }
}

proof fn lemma_count_prepend<T>(d: IrisData<T>, rest: Seq<IrisData<T>>, x: Iris)
    ensures
        count_of(seq![d] + rest, x) == (if d.species == x { 1nat } else { 0nat }) + count_of(rest, x),
{
    assert((seq![d] + rest).drop_first() == rest);
}

proof fn lemma_stratified_counts<T>(data: Seq<IrisData<T>>, count: nat, anchor: nat, other: nat)
    requires
        anchor <= count,
        other <= count,
    ensures
        count_of(stratified(data, count, anchor, other), Iris::Setosa) <= count - anchor,
        stratified(data, count, anchor, other).len() - count_of(
            stratified(data, count, anchor, other),
            Iris::Setosa,
        ) <= count - other,
        forall|x: Iris|
            count_of(#[trigger] stratified(data, count, anchor, other), x) <= count_of(data, x),
    decreases data.len(),
{
    if data.len() > 0 {
        let d = data[0];
        let rest = data.drop_first();
        assert(data == seq![d] + rest);
        if d.species == Iris::Setosa && anchor < count {
            lemma_stratified_counts(rest, count, anchor + 1, other);
            let r = stratified(rest, count, anchor + 1, other);
            assert forall|x: Iris| count_of(seq![d] + r, x) <= count_of(data, x) by {
                lemma_count_prepend(d, r, x);
                lemma_count_prepend(d, rest, x);
            }
            lemma_count_prepend(d, r, Iris::Setosa);
        } else if d.species != Iris::Setosa && other < count {
            lemma_stratified_counts(rest, count, anchor, other + 1);
            let r = stratified(rest, count, anchor, other + 1);
            assert forall|x: Iris| count_of(seq![d] + r, x) <= count_of(data, x) by {
                lemma_count_prepend(d, r, x);
                lemma_count_prepend(d, rest, x);
            }
            lemma_count_prepend(d, r, Iris::Setosa);
        } else {
            lemma_stratified_counts(rest, count, anchor, other);
            assert forall|x: Iris|
                count_of(
                    #[trigger] stratified(data, count, anchor, other),
                    x,
                ) <= count_of(data, x) by {
                lemma_count_prepend(d, rest, x);
            }
        }
    }
}

/// A stratified sample never holds more than `count` records of the anchor
/// class, nor more than `count` of the other, so at most `2 * count` in all;
/// and of no species does it hold more records than the source has.
pub proof fn lemma_stratified_sample_bound<T>(data: Seq<IrisData<T>>, count: nat)
    ensures
        stratified_sample(data, count).len() <= 2 * count,
        count_of(stratified_sample(data, count), Iris::Setosa) <= count,
        stratified_sample(data, count).len() - count_of(stratified_sample(data, count), Iris::Setosa)
            <= count,
        forall|x: Iris| count_of(#[trigger] stratified_sample(data, count), x) <= count_of(data, x),
{
    lemma_stratified_counts(data, count, 0, 0);
}

/// Selecting against a positive class keeps exactly the records of the
/// anchor class and of that class: each kept record is of one of them,
/// each such record of the source is kept, and the number kept is the
/// sum of their counts in the source.
pub proof fn lemma_select_complete<T>(data: Seq<IrisData<T>>, positive: Iris)
    requires
        positive != Iris::Setosa,
    ensures
        selected(data, positive).len() == count_of(data, Iris::Setosa) + count_of(data, positive),
        forall|i: int|
            0 <= i < selected(data, positive).len() ==> in_pair(
                (#[trigger] selected(data, positive)[i]).species,
                positive,
            ),
        forall|i: int|
            0 <= i < data.len() && in_pair(data[i].species, positive) ==> selected(
                data,
                positive,
            ).contains(#[trigger] data[i]),
    decreases data.len(),
{
    broadcast use vstd::seq_lib::group_filter_ensures;

    if data.len() > 0 {
        let d = data[0];
        let rest = data.drop_first();
        assert(data == seq![d] + rest);
        rest.lemma_filter_prepend(d, |d: IrisData<T>| in_pair(d.species, positive));
        lemma_select_complete(rest, positive);
        lemma_count_prepend(d, rest, Iris::Setosa);
        lemma_count_prepend(d, rest, positive);
    }
}

impl<T: Copy> IrisData<T> {
    /// Keeps every record of the anchor class or of `iris_type`, in order.
    pub fn get_data(data: &Vec<Self>, iris_type: Iris) -> (res: Vec<Self>)
        ensures
            res@ == selected(data@, iris_type),
    {
        let mut res: Vec<Self> = Vec::new();
        let mut i: usize = 0;
        while i < data.len()
            invariant
                i <= data.len(),
                res@ == selected(data@.take(i as int), iris_type),
            decreases data.len() - i,
        {
            let d = data[i];
            proof {
                assert(data@.take(i + 1) == data@.take(i as int).push(d));
                data@.take(i as int).lemma_filter_push(d, |d: IrisData<T>| in_pair(d.species, iris_type));
            }
            if d.species == iris_type {
                res.push(d);
            } else if d.species == Iris::Setosa {
                res.push(d);
            }
            i += 1;
        }
        assert(data@.take(data.len() as int) == data@);
        res
    }

    /// The records of the anchor class and of `positive`, or an error where
    /// there are none.
    pub fn select(data: &Vec<Self>, positive: Iris) -> (r: Result<Vec<Self>, DatasetError>)
        ensures
            r is Ok <==> selected(data@, positive).len() > 0,
            r matches Ok(v) ==> v@ == selected(data@, positive),
            r matches Err(e) ==> e == DatasetError::EmptyDataset,
    {
        let res = Self::get_data(data, positive);
        if res.len() == 0 {
            Err(DatasetError::EmptyDataset)
        } else {
            Ok(res)
        }
    }

    /// The features of a record: sepal length and width, then petal length
    /// and width.
    pub fn features(&self) -> (r: Vec<T>)
        ensures
            r@ == all_features(*self),
    {
        let mut r: Vec<T> = Vec::new();
        r.push(self.sepal_length);
        r.push(self.sepal_width);
        r.push(self.petal_length);
        r.push(self.petal_width);
        assert(r@ == all_features(*self));
        r
    }

    /// Scans `data` once, taking up to `count` records of the anchor class
    /// and up to `count` of the other, in the order met; stops once both
    /// quotas are filled. Each record taken comes with all four features.
    pub fn get_test_data(data: &Vec<Self>, count: usize) -> (res: Vec<(Vec<T>, Iris)>)
        ensures
            labelled_features(res@, stratified_sample(data@, count as nat)),
    {
        let mut res: Vec<(Vec<T>, Iris)> = Vec::new();
        let mut setosa_count: usize = 0;
        let mut other_count: usize = 0;
        let ghost mut taken: Seq<IrisData<T>> = Seq::empty();
        let mut i: usize = 0;
        assert(data@.skip(0) == data@);
        assert(Seq::<IrisData<T>>::empty() + stratified(data@, count as nat, 0, 0) == stratified(
            data@,
            count as nat,
            0,
            0,
        ));
        while i < data.len() && !(setosa_count == count && other_count == count)
            invariant
                i <= data.len(),
                setosa_count <= count,
                other_count <= count,
                labelled_features(res@, taken),
                stratified_sample(data@, count as nat) == taken + stratified(
                    data@.skip(i as int),
                    count as nat,
                    setosa_count as nat,
                    other_count as nat,
                ),
            decreases data.len() - i,
        {
            let d = data[i];
            proof {
                assert(data@.skip(i as int).drop_first() == data@.skip(i + 1));
                assert(data@.skip(i as int)[0] == d);
            }
            if d.species == Iris::Setosa && setosa_count < count {
                setosa_count += 1;
                res.push((d.features(), d.species));
                proof {
                    assert(taken + (seq![d] + stratified(
                        data@.skip(i + 1),
                        count as nat,
                        setosa_count as nat,
                        other_count as nat,
                    )) == taken.push(d) + stratified(
                        data@.skip(i + 1),
                        count as nat,
                        setosa_count as nat,
                        other_count as nat,
                    ));
                    taken = taken.push(d);
                }
            } else if d.species != Iris::Setosa && other_count < count {
                other_count += 1;
                res.push((d.features(), d.species));
                proof {
                    assert(taken + (seq![d] + stratified(
                        data@.skip(i + 1),
                        count as nat,
                        setosa_count as nat,
                        other_count as nat,
                    )) == taken.push(d) + stratified(
                        data@.skip(i + 1),
                        count as nat,
                        setosa_count as nat,
                        other_count as nat,
                    ));
                    taken = taken.push(d);
                }
            }
            i += 1;
        }
        proof {
            if i == data.len() {
                assert(data@.skip(i as int).len() == 0);
            } else {
                lemma_stratified_done(data@.skip(i as int), count as nat);
            }
            assert(taken + Seq::<IrisData<T>>::empty() == taken);
        }
        res
    }
}

} // verus!

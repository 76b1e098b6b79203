use vstd::prelude::*;

use crate::dataset::IrisData;

verus! {

/// Which features of a record the neuron is trained on.
#[derive(Clone, Copy, Debug, PartialEq, Eq, Structural)]
pub enum FeatureMode {
    Sepal,
    Petal,
    All,
}

/// The features of `d` that `mode` selects, in order.
pub open spec fn projected<T>(d: IrisData<T>, mode: FeatureMode) -> Seq<T> {
    match mode {
        FeatureMode::Sepal => seq![d.sepal_length, d.sepal_width],
        FeatureMode::Petal => seq![d.petal_length, d.petal_width],
        FeatureMode::All => seq![d.sepal_length, d.sepal_width, d.petal_length, d.petal_width],
    }
}

/// Whether `res` pairs each record of `data` with its projection under
/// `mode` and its binary target, in order.
pub open spec fn training_pairs<T>(res: Seq<(Vec<T>, u8)>, data: Seq<IrisData<T>>, mode: FeatureMode) -> bool {
    &&& res.len() == data.len()
    &&& forall|i: int|
        0 <= i < res.len() ==> (#[trigger] res[i]).0@ == projected(data[i], mode) && res[i].1
            == data[i].species.target_spec()
}

impl FeatureMode {
    pub open spec fn input_count_spec(self) -> nat {
        match self {
            FeatureMode::All => 4,
            _ => 2,
        }
    }

    /// The number of inputs a neuron needs for this mode.
    pub fn input_count(self) -> (r: usize)
        ensures
            r == self.input_count_spec(),
    {
        match self {
            FeatureMode::Sepal => 2,
            FeatureMode::Petal => 2,
            FeatureMode::All => 4,
        }
    }

    /// The mode at a position of the selection list "Sepal;Petal;All".
    pub fn from_selection(selected: i32) -> (r: Option<FeatureMode>)
        ensures
            selected == 0 ==> r == Some(FeatureMode::Sepal),
            selected == 1 ==> r == Some(FeatureMode::Petal),
            selected == 2 ==> r == Some(FeatureMode::All),
            !(0 <= selected <= 2) ==> r is None,
    {
        match selected {
            0 => Some(FeatureMode::Sepal),
            1 => Some(FeatureMode::Petal),
            2 => Some(FeatureMode::All),
            _ => None,
        }
    }

    /// The columns of a full four-feature row that this mode uses: the
    /// first two for sepal, the last two for petal, all four otherwise.
    pub fn pick<T: Copy>(self, row: &Vec<T>) -> (r: Vec<T>)
        requires
            row@.len() == 4,
        ensures
            r@ == match self {
                FeatureMode::Sepal => row@.subrange(0, 2),
                FeatureMode::Petal => row@.subrange(2, 4),
                FeatureMode::All => row@,
            },
            r@.len() == self.input_count_spec(),
    {
        let (lo, hi): (usize, usize) = match self {
            FeatureMode::Sepal => (0, 2),
            FeatureMode::Petal => (2, 4),
            FeatureMode::All => (0, 4),
        };
        let mut r: Vec<T> = Vec::new();
        let mut i: usize = lo;
        while i < hi
            invariant
                lo <= i <= hi,
                hi <= 4,
                row@.len() == 4,
                r@ == row@.subrange(lo as int, i as int),
            decreases hi - i,
        {
            r.push(row[i]);
            assert(row@.subrange(lo as int, i + 1) == row@.subrange(lo as int, i as int).push(row@[i as int]));
            i += 1;
        }
        assert(row@.subrange(0, 4) == row@);
        r
    }
}

impl<T: Copy> IrisData<T> {
    /// The feature vector of this record under `mode`.
    pub fn project(&self, mode: FeatureMode) -> (r: Vec<T>)
        ensures
            r@ == projected(*self, mode),
            r@.len() == mode.input_count_spec(),
    {
        let mut r: Vec<T> = Vec::new();
        match mode {
            FeatureMode::Sepal => {
                r.push(self.sepal_length);
                r.push(self.sepal_width);
            },
            FeatureMode::Petal => {
                r.push(self.petal_length);
                r.push(self.petal_width);
            },
            FeatureMode::All => {
                r.push(self.sepal_length);
                r.push(self.sepal_width);
                r.push(self.petal_length);
                r.push(self.petal_width);
            },
        }
        assert(r@ == projected(*self, mode));
        r
    }
}

/// The training sequence for `mode`: each record's feature vector with its
/// binary target, in the order of `data`.
pub fn training_data<T: Copy>(data: &Vec<IrisData<T>>, mode: FeatureMode) -> (res: Vec<(Vec<T>, u8)>)
    ensures
        training_pairs(res@, data@, mode),
        forall|i: int| 0 <= i < res@.len() ==> (#[trigger] res@[i]).0@.len() == mode.input_count_spec(),
{
    let mut res: Vec<(Vec<T>, u8)> = Vec::new();
    let mut i: usize = 0;
    while i < data.len()
        invariant
            i <= data.len(),
            training_pairs(res@, data@.take(i as int), mode),
        decreases data.len() - i,
    {
        let d = data[i];
        res.push((d.project(mode), d.species.target()));
        i += 1;
    }
    assert(data@.take(data.len() as int) == data@);
    res
}

} // verus!

use vstd::prelude::*;

verus! {

/// The three species of iris in the data set.
#[derive(Clone, Copy, Debug, PartialEq, Eq, Structural)]
pub enum Iris {
    Setosa,
    Virginica,
    Versicolour,
}

impl Iris {
    /// The binary target of a species: Setosa is the negative anchor class.
    pub open spec fn target_spec(self) -> u8 {
        if self == Iris::Setosa { 0 } else { 1 }
    }

    /// The binary training target: 0 for the anchor class, 1 for the others.
    pub fn target(self) -> (r: u8)
        ensures
            r == self.target_spec(),
    {
        match self {
            Iris::Setosa => 0,
            Iris::Virginica => 1,
            Iris::Versicolour => 1,
        }
    }

    /// The positive class at a position of the selection list
    /// "Virginica;Versicolor".
    pub fn from_selection(selected: i32) -> (r: Option<Iris>)
        ensures
            selected == 0 ==> r == Some(Iris::Virginica),
            selected == 1 ==> r == Some(Iris::Versicolour),
            !(0 <= selected <= 1) ==> r is None,
    {
        match selected {
            0 => Some(Iris::Virginica),
            1 => Some(Iris::Versicolour),
            _ => None,
        }
    }

    /// The species' name.
    pub fn name(self) -> (r: &'static str)
        ensures
            self == Iris::Setosa ==> r@ == "Setosa"@,
            self == Iris::Virginica ==> r@ == "Virginica"@,
            self == Iris::Versicolour ==> r@ == "Versicolour"@,
    {
        match self {
            Iris::Setosa => "Setosa",
            Iris::Virginica => "Virginica",
            Iris::Versicolour => "Versicolour",
        }
    }
}

} // verus!

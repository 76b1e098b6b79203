use iris_neuron::dataset::{DatasetError, IrisData};
use iris_neuron::iris::Iris;
use iris_neuron::state::{update_iris_type, TEST_COUNT};

fn rec(v: f64, species: Iris) -> IrisData<f64> {
    IrisData {
        sepal_length: v,
        sepal_width: v + 0.1,
        petal_length: v + 0.2,
        petal_width: v + 0.3,
        species,
    }
}

fn source() -> Vec<IrisData<f64>> {
    vec![
        rec(1.0, Iris::Setosa),
        rec(2.0, Iris::Virginica),
        rec(3.0, Iris::Versicolour),
        rec(4.0, Iris::Setosa),
        rec(5.0, Iris::Versicolour),
        rec(6.0, Iris::Virginica),
        rec(7.0, Iris::Setosa),
        rec(8.0, Iris::Virginica),
        rec(9.0, Iris::Setosa),
        rec(10.0, Iris::Virginica),
    ]
}

fn firsts(v: &[IrisData<f64>]) -> Vec<f64> {
    v.iter().map(|d| d.sepal_length).collect()
}

#[test]
fn select_keeps_anchor_and_positive_in_order() {
    let data = source();
    let v = IrisData::get_data(&data, Iris::Virginica);
    assert_eq!(firsts(&v), vec![1.0, 2.0, 4.0, 6.0, 7.0, 8.0, 9.0, 10.0]);
    let w = IrisData::get_data(&data, Iris::Versicolour);
    assert_eq!(firsts(&w), vec![1.0, 3.0, 4.0, 5.0, 7.0, 9.0]);
}

#[test]
fn select_size_is_sum_of_class_counts() {
    let data = source();
    let anchors = data.iter().filter(|d| d.species == Iris::Setosa).count();
    let virginica = data.iter().filter(|d| d.species == Iris::Virginica).count();
    let v = IrisData::select(&data, Iris::Virginica).unwrap();
    assert_eq!(v.len(), anchors + virginica);
    assert!(v.iter().all(|d| d.species != Iris::Versicolour));
}

#[test]
fn select_empty_source_is_an_error() {
    let data: Vec<IrisData<f64>> = vec![rec(3.0, Iris::Versicolour)];
    assert_eq!(IrisData::select(&data, Iris::Virginica).unwrap_err(), DatasetError::EmptyDataset);
    let empty: Vec<IrisData<f64>> = vec![];
    assert!(IrisData::select(&empty, Iris::Virginica).is_err());
}

#[test]
fn stratified_sample_takes_three_of_each() {
    let data = IrisData::get_data(&source(), Iris::Virginica);
    let sample = IrisData::get_test_data(&data, 3);
    assert_eq!(sample.len(), 6);
    assert_eq!(sample.iter().filter(|s| s.1 == Iris::Setosa).count(), 3);
    assert_eq!(sample.iter().filter(|s| s.1 == Iris::Virginica).count(), 3);
    let lengths: Vec<f64> = sample.iter().map(|s| s.0[0]).collect();
    assert_eq!(lengths, vec![1.0, 2.0, 4.0, 6.0, 7.0, 8.0]);
    assert_eq!(sample[0].0, vec![1.0, 1.1, 1.2, 1.3]);
}

#[test]
fn stratified_sample_smaller_when_class_is_short() {
    let data = vec![
        rec(1.0, Iris::Setosa),
        rec(2.0, Iris::Virginica),
        rec(3.0, Iris::Setosa),
        rec(4.0, Iris::Setosa),
    ];
    let sample = IrisData::get_test_data(&data, 3);
    assert_eq!(sample.len(), 4);
    assert_eq!(sample.iter().filter(|s| s.1 == Iris::Virginica).count(), 1);
}

#[test]
fn stratified_sample_bound_holds() {
    let data = IrisData::get_data(&source(), Iris::Virginica);
    for count in 0..6 {
        let sample = IrisData::get_test_data(&data, count);
        assert!(sample.len() <= 2 * count);
        assert!(sample.iter().filter(|s| s.1 == Iris::Setosa).count() <= count);
        assert!(sample.iter().filter(|s| s.1 != Iris::Setosa).count() <= count);
    }
    assert!(IrisData::get_test_data(&data, 0).is_empty());
}

#[test]
fn update_iris_type_switches_pair() {
    let csv = source();
    let mut data = IrisData::get_data(&csv, Iris::Virginica);
    let test_data = update_iris_type(&csv, &mut data, Iris::Versicolour);
    let mut got = firsts(&data);
    got.sort_by(|a, b| a.partial_cmp(b).unwrap());
    assert_eq!(got, vec![1.0, 3.0, 4.0, 5.0, 7.0, 9.0]);
    assert_eq!(test_data.len(), 2 * TEST_COUNT - 1);
    assert_eq!(test_data.iter().filter(|s| s.1 == Iris::Versicolour).count(), 2);
}

#[test]
fn update_iris_type_anchor_keeps_records() {
    let csv = source();
    let mut data = IrisData::get_data(&csv, Iris::Versicolour);
    let test_data = update_iris_type(&csv, &mut data, Iris::Setosa);
    let mut got = firsts(&data);
    got.sort_by(|a, b| a.partial_cmp(b).unwrap());
    assert_eq!(got, vec![1.0, 3.0, 4.0, 5.0, 7.0, 9.0]);
    assert_eq!(test_data.len(), 5);
}

#[test]
fn species_encoding() {
    assert_eq!(Iris::Setosa.target(), 0);
    assert_eq!(Iris::Virginica.target(), 1);
    assert_eq!(Iris::Versicolour.target(), 1);
    assert_eq!(Iris::from_selection(0), Some(Iris::Virginica));
    assert_eq!(Iris::from_selection(1), Some(Iris::Versicolour));
    assert_eq!(Iris::from_selection(2), None);
    assert_eq!(Iris::Setosa.name(), "Setosa");
    assert_eq!(Iris::Versicolour.name(), "Versicolour");
}

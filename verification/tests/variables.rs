use mat73::variable::element_count;
use mat73::{array, Dataset, Error, MatVar, StoreError};

fn found(name: &str, shape: Vec<usize>, data: Vec<f64>) -> Option<Dataset<f64>> {
    Some(Dataset { name: name.to_string(), shape, data: Ok(data) })
}

#[test]
fn array_to_vec() {
    let q = found("/q", vec![3, 2], vec![1.0, 4.0, 2.0, 5.0, 3.0, 6.0]);
    let var: Vec<f64> = array("q", q).unwrap().into();
    assert_eq!(var, vec![1.0, 4.0, 2.0, 5.0, 3.0, 6.0])
}

#[test]
fn array_keeps_what_the_store_delivered() {
    let var = array("w", found("/w", vec![2, 3], vec![0., -6., -2., 1., 56., 1.])).unwrap();
    assert_eq!(var.name(), "/w");
    assert_eq!(var.shape(), &[2usize, 3][..]);
    assert_eq!(var.n_column(), 2);
    assert_eq!(var.n_row(), 3);
    assert_eq!(var.raw(), vec![0., -6., -2., 1., 56., 1.]);
}

#[test]
fn array_has_as_many_elements_as_its_shape_declares() {
    let var = array("a", found("/a", vec![2, 3, 4], vec![0.5; 24])).unwrap();
    let count: usize = var.shape().iter().product();
    assert_eq!(count, 24);
    assert_eq!(var.raw().len(), 24);
}

#[test]
fn missing_dataset_carries_the_requested_name() {
    let outcome = array::<f64>("nowhere", None);
    assert_eq!(outcome, Err(Error::Dataset("nowhere".to_string())));
}

#[test]
fn unreadable_elements_pass_the_store_error_on() {
    let e = StoreError { message: "read failed".to_string(), cause: None };
    let dataset: Dataset<f64> =
        Dataset { name: "/q".to_string(), shape: vec![6], data: Err(e.clone()) };
    assert_eq!(array("q", Some(dataset)), Err(Error::HDF5(e)));
}

#[test]
fn elements_that_do_not_fill_the_shape_are_no_array() {
    let outcome = array("q", found("/q", vec![3, 2], vec![1.0, 2.0, 3.0, 4.0, 5.0]));
    assert_eq!(outcome, Err(Error::Dataset("q".to_string())));
    let outcome = array("q", found("/q", vec![3, 2], vec![0.0; 7]));
    assert_eq!(outcome, Err(Error::Dataset("q".to_string())));
}

#[test]
fn repeated_reads_of_one_delivery_are_equal() {
    let first = array("q", found("/q", vec![3, 2], vec![1.0, 4.0, 2.0, 5.0, 3.0, 6.0]));
    let second = array("q", found("/q", vec![3, 2], vec![1.0, 4.0, 2.0, 5.0, 3.0, 6.0]));
    assert_eq!(first, second);
    assert_eq!(array::<f64>("x", None), array::<f64>("x", None));
}

#[test]
fn one_dimensional_array() {
    let var = MatVar::new("v".to_string(), vec![4], vec![1u8, 2, 3, 4]).unwrap();
    assert_eq!(var.shape().len(), 1);
    assert_eq!(var.shape()[0], 4);
    assert_eq!(var.raw(), vec![1u8, 2, 3, 4]);
}

#[test]
fn array_without_dimensions_holds_one_element() {
    let scalar = MatVar::new("s".to_string(), vec![], vec![7i32]);
    assert!(scalar.is_some());
    assert!(MatVar::new("s".to_string(), vec![], Vec::<i32>::new()).is_none());
}

#[test]
fn empty_array() {
    let var = MatVar::new("e".to_string(), vec![0, 5], Vec::<i64>::new()).unwrap();
    assert_eq!(var.n_column(), 0);
    assert_eq!(var.n_row(), 5);
    assert!(var.raw().is_empty());
}

#[test]
fn new_refuses_a_wrong_element_count() {
    assert!(MatVar::new("m".to_string(), vec![2, 2], vec![1, 2, 3]).is_none());
    assert!(MatVar::new("m".to_string(), vec![usize::MAX, 2], vec![1, 2, 3]).is_none());
}

#[test]
fn element_count_is_the_product() {
    assert_eq!(element_count(&vec![]), Some(1));
    assert_eq!(element_count(&vec![6]), Some(6));
    assert_eq!(element_count(&vec![2, 3]), Some(6));
    assert_eq!(element_count(&vec![2, 3, 4]), Some(24));
    assert_eq!(element_count(&vec![7, 0, 3]), Some(0));
}

#[test]
fn element_count_at_the_limits() {
    assert_eq!(element_count(&vec![usize::MAX]), Some(usize::MAX));
    assert_eq!(element_count(&vec![usize::MAX, 1, 1]), Some(usize::MAX));
    assert_eq!(element_count(&vec![usize::MAX, 2]), None);
    assert_eq!(element_count(&vec![1 << 40, 1 << 40]), None);
    assert_eq!(element_count(&vec![usize::MAX, 2, 0]), Some(0));
    assert_eq!(element_count(&vec![0, usize::MAX, usize::MAX]), Some(0));
}

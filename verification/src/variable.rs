//! A Matlab numeric array: a name, the dimension sizes as stored, and the
//! elements in the order the store delivers them.

use vstd::prelude::*;
use vstd::std_specs::convert::FromSpecImpl;
use crate::error::{Error, ErrorView, StoreError, StoreErrorView};

verus! {

/// Number of elements of an array with these dimension sizes: their product,
/// which is 1 for no dimensions at all.
pub open spec fn shape_product(shape: Seq<usize>) -> nat
    decreases shape.len(),
{
    if shape.len() == 0 {
        1
    } else {
        shape_product(shape.drop_last()) * shape.last() as nat
    }
}

/// A shape with an empty dimension has no elements.
pub proof fn lemma_product_of_empty_dimension(shape: Seq<usize>, i: int)
    requires
        0 <= i < shape.len(),
        shape[i] == 0,
    ensures
        shape_product(shape) == 0,
    decreases shape.len(),
{
    if i < shape.len() - 1 {
        lemma_product_of_empty_dimension(shape.drop_last(), i);
    }
    let head = shape_product(shape.drop_last());
    let dim = shape.last() as nat;
    assert(head * dim == 0) by (nonlinear_arith)
        requires
            head == 0 || dim == 0,
    ;
}

/// Without an empty dimension, the leading dimensions alone never have more
/// elements than the whole shape.
pub proof fn lemma_product_of_prefix(shape: Seq<usize>, k: int)
    requires
        0 <= k <= shape.len(),
        forall|i: int| 0 <= i < shape.len() ==> shape[i] > 0,
    ensures
        1 <= shape_product(shape.take(k)) <= shape_product(shape),
    decreases shape.len() - k,
{
    if k == shape.len() {
        assert(shape.take(k) =~= shape);
        lemma_product_positive(shape);
    } else {
        lemma_product_of_prefix(shape, k + 1);
        lemma_product_positive(shape.take(k));
        assert(shape.take(k + 1).drop_last() =~= shape.take(k));
        let head = shape_product(shape.take(k));
        let dim = shape[k] as nat;
        assert(head <= head * dim) by (nonlinear_arith)
            requires
                dim >= 1,
        ;
    }
}

/// Without an empty dimension, a shape has at least one element.
pub proof fn lemma_product_positive(shape: Seq<usize>)
    requires
        forall|i: int| 0 <= i < shape.len() ==> shape[i] > 0,
    ensures
        shape_product(shape) >= 1,
    decreases shape.len(),
{
    if shape.len() > 0 {
        lemma_product_positive(shape.drop_last());
        let head = shape_product(shape.drop_last());
        let dim = shape.last() as nat;
        assert(head * dim >= 1) by (nonlinear_arith)
            requires
                head >= 1,
                dim >= 1,
        ;
    }
}

/// A shape of two dimensions has as many elements as the two multiply to.
pub proof fn lemma_product_of_two(shape: Seq<usize>)
    requires
        shape.len() == 2,
    ensures
        shape_product(shape) == shape[1] * shape[0],
{
    let one = shape.drop_last();
    assert(one.drop_last().len() == 0);
    assert(shape_product(one.drop_last()) == 1);
    assert(shape_product(one) == 1 * one.last() as nat);
    assert(one.last() == shape[0]);
    assert(shape_product(shape) == shape_product(one) * shape[1] as nat);
    assert(shape_product(shape) == shape[1] * shape[0]) by (nonlinear_arith)
        requires
            shape_product(shape) == (1 * shape[0] as nat) * shape[1] as nat,
    ;
}

/// Counts the elements of a shape, where the count fits the machine's word.
pub fn element_count(shape: &Vec<usize>) -> (count: Option<usize>)
    ensures
        count.is_some() == (shape_product(shape@) <= usize::MAX),
        count matches Some(n) ==> n == shape_product(shape@),
{
    let mut i: usize = 0;
    while i < shape.len()
        invariant
            i <= shape.len(),
            forall|j: int| 0 <= j < i ==> shape@[j] > 0,
        decreases shape.len() - i,
    {
        if shape[i] == 0 {
            proof {
                lemma_product_of_empty_dimension(shape@, i as int);
            }
            return Some(0);
        }
        i += 1;
    }
    let mut count: usize = 1;
    let mut k: usize = 0;
    while k < shape.len()
        invariant
            k <= shape.len(),
            forall|j: int| 0 <= j < shape.len() ==> shape@[j] > 0,
            count == shape_product(shape@.take(k as int)),
        decreases shape.len() - k,
    {
        proof {
            assert(shape@.take(k + 1).drop_last() =~= shape@.take(k as int));
            lemma_product_of_prefix(shape@, k + 1);
        }
        match count.checked_mul(shape[k]) {
            Some(next) => {
                count = next;
            },
            None => {
                return None;
            },
        }
        k += 1;
    }
    proof {
        assert(shape@.take(k as int) =~= shape@);
    }
    Some(count)
}

/// A Matlab numeric array.
///
/// The shape is in storage order: for a matrix, the number of columns comes
/// first and the number of rows second. There are as many elements as the
/// shape has room for.
#[derive(Debug, PartialEq)]
pub struct MatVar<T> {
    name: String,
    shape: Vec<usize>,
    data: Vec<T>,
}

/// Mathematical value of a [`MatVar`].
pub struct MatVarView<T> {
    pub name: Seq<char>,
    pub shape: Seq<usize>,
    pub data: Seq<T>,
}

impl<T> View for MatVar<T> {
    type V = MatVarView<T>;

    open spec fn view(&self) -> MatVarView<T> {
        MatVarView { name: self.spec_name(), shape: self.spec_shape(), data: self.elements()@ }
    }
}

/// What the store delivered of a dataset that it found.
#[derive(Debug)]
pub struct Dataset<T> {
    /// The dataset's name as the store gives it.
    pub name: String,
    /// The dimension sizes, in storage order.
    pub shape: Vec<usize>,
    /// The elements in storage order, or why they could not be read.
    pub data: Result<Vec<T>, StoreError>,
}

/// Mathematical value of a [`Dataset`].
pub struct DatasetView<T> {
    pub name: Seq<char>,
    pub shape: Seq<usize>,
    pub data: Result<Seq<T>, StoreErrorView>,
}

impl<T> View for Dataset<T> {
    type V = DatasetView<T>;

    open spec fn view(&self) -> DatasetView<T> {
        DatasetView {
            name: self.name@,
            shape: self.shape@,
            data: match self.data {
                Ok(data) => Ok(data@),
                Err(e) => Err(e@),
            },
        }
    }
}

/// What a lookup delivered: nothing, or the value of the dataset found.
pub open spec fn delivered<T>(found: Option<Dataset<T>>) -> Option<DatasetView<T>> {
    match found {
        Some(dataset) => Some(dataset@),
        None => None,
    }
}

/// The outcome of reading the array `name`, given what the store found.
///
/// Without a dataset the read fails with the name asked for; so it does when
/// the elements delivered are not as many as the shape declares. A failure to
/// read the elements is passed on. Else the array has the store's name for
/// the dataset, its shape and its elements, unchanged.
pub open spec fn array_outcome<T>(name: Seq<char>, found: Option<DatasetView<T>>) -> Result<
    MatVarView<T>,
    ErrorView,
> {
    match found {
        None => Err(ErrorView::Dataset(name)),
        Some(dataset) => match dataset.data {
            Err(e) => Err(ErrorView::HDF5(e)),
            Ok(data) => if data.len() == shape_product(dataset.shape) {
                Ok(MatVarView { name: dataset.name, shape: dataset.shape, data })
            } else {
                Err(ErrorView::Dataset(name))
            },
        },
    }
}

/// An array asked for by a name that the store does not have fails as a
/// missing dataset that carries exactly that name.
pub proof fn lemma_missing_dataset<T>(name: Seq<char>)
    ensures
        array_outcome::<T>(name, None) == Err::<MatVarView<T>, _>(ErrorView::Dataset(name)),
{
}

/// Every array that a read gives has as many elements as its shape declares.
pub proof fn lemma_array_fills_shape<T>(name: Seq<char>, found: Option<DatasetView<T>>)
    ensures
        array_outcome(name, found) matches Ok(var) ==> var.data.len() == shape_product(
            var.shape,
        ),
{
}

/// The outcome of a read depends on what the store delivered and on nothing
/// else: the same delivery, read again, gives the same outcome.
pub proof fn lemma_array_repeatable<T>(
    name: Seq<char>,
    first: Option<Dataset<T>>,
    second: Option<Dataset<T>>,
)
    requires
        delivered(first) == delivered(second),
    ensures
        array_outcome(name, delivered(first)) == array_outcome(name, delivered(second)),
{
}

/// Reads the array `name` from what the store found under that name.
pub fn array<T>(name: &str, found: Option<Dataset<T>>) -> (outcome: Result<MatVar<T>, Error>)
    ensures
        match outcome {
            Ok(var) => array_outcome(name@, delivered(found)) == Ok::<_, ErrorView>(var@),
            Err(e) => array_outcome(name@, delivered(found)) == Err::<MatVarView<T>, _>(e@),
        },
        outcome matches Ok(var) ==> var@.data.len() == shape_product(var@.shape),
{
    match found {
        None => Err(Error::Dataset(name.to_owned())),
        Some(dataset) => match dataset.data {
            Err(e) => Err(Error::HDF5(e)),
            Ok(data) => match MatVar::new(dataset.name, dataset.shape, data) {
                Some(var) => Ok(var),
                None => Err(Error::Dataset(name.to_owned())),
            },
        },
    }
}

impl<T> MatVar<T> {
    #[verifier::type_invariant]
    spec fn well_shaped(self) -> bool {
        self.data@.len() == shape_product(self.shape@)
    }

    /// The name of the array.
    pub closed spec fn spec_name(self) -> Seq<char> {
        self.name@
    }

    /// The dimension sizes of the array, in storage order.
    pub closed spec fn spec_shape(self) -> Seq<usize> {
        self.shape@
    }

    /// The vector that holds the elements of the array.
    pub closed spec fn elements(self) -> Vec<T> {
        self.data
    }

    /// Makes an array of these parts, if there are as many elements as the
    /// shape declares.
    pub fn new(name: String, shape: Vec<usize>, data: Vec<T>) -> (var: Option<MatVar<T>>)
        ensures
            var.is_some() == (data@.len() == shape_product(shape@)),
            var matches Some(v) ==> v@ == (MatVarView { name: name@, shape: shape@, data: data@ }),
    {
        let len: usize = data.len();
        match element_count(&shape) {
            Some(n) => {
                if n == len {
                    Some(MatVar { name, shape, data })
                } else {
                    None
                }
            },
            None => None,
        }
    }

    /// The elements, in storage order.
    pub fn raw(self) -> (data: Vec<T>)
        ensures
            data == self.elements(),
            data@.len() == shape_product(self@.shape),
    {
        proof {
            use_type_invariant(&self);
        }
        self.data
    }

    /// The dimension sizes, in storage order.
    pub fn shape(&self) -> (shape: &[usize])
        ensures
            shape@ == self@.shape,
            self@.data.len() == shape_product(self@.shape),
    {
        proof {
            use_type_invariant(self);
        }
        self.shape.as_slice()
    }

    /// The name of the array.
    pub fn name(&self) -> (name: &str)
        ensures
            name@ == self@.name,
    {
        self.name.as_str()
    }

    /// The number of rows of a matrix: its second dimension.
    pub fn n_row(&self) -> (rows: usize)
        requires
            self@.shape.len() >= 2,
        ensures
            rows == self@.shape[1],
    {
        self.shape[1]
    }

    /// The number of columns of a matrix: its first dimension.
    pub fn n_column(&self) -> (columns: usize)
        requires
            self@.shape.len() >= 2,
        ensures
            columns == self@.shape[0],
    {
        self.shape[0]
    }
}

impl<T> From<MatVar<T>> for Vec<T> {
    fn from(var: MatVar<T>) -> (data: Vec<T>) {
        var.raw()
    }
}

impl<T> FromSpecImpl<MatVar<T>> for Vec<T> {
    open spec fn obeys_from_spec() -> bool {
        true
    }

    open spec fn from_spec(var: MatVar<T>) -> Vec<T> {
        var.elements()
    }
}

} // verus!

//! The arrays of `ndarray` that a subgrid is made of.
//!
//! Verus does not look inside an array. Each kind of array is named by what it
//! holds: its shape, and its cells in row-major order of their multi-indices
//! (the order in which `ndarray` iterates), whatever its strides are in
//! memory. The functions of this module that call `ndarray` state, over those
//! two names, what its documentation and source say of the call; nothing
//! proves those statements. The rest of the crate is proved from them.

use crate::layout::{fits, in_bounds, is_permutation, offset, permuted, product};
use vstd::prelude::*;

verus! {

/// What an array holds: its shape and its cells in row-major order.
pub struct Dense {
    /// The length of each axis.
    pub dims: Seq<usize>,
    /// The cells, the last axis varying fastest.
    pub cells: Seq<u64>,
}

impl Dense {
    /// The cell at a multi-index.
    pub open spec fn at(self, idx: Seq<usize>) -> u64 {
        self.cells[offset(self.dims, idx)]
    }
}

/// The coordinates of one axis: an `ndarray::Array1<u64>`.
#[derive(Debug)]
#[verifier::external_body]
pub struct Coords {
    inner: ndarray::Array1<u64>,
}

/// A grid of six axes: an `ndarray::Array6<u64>`.
#[derive(Debug)]
#[verifier::external_body]
pub struct Tensor6 {
    inner: ndarray::Array6<u64>,
}

/// A grid whose number of axes is known at run time: an `ndarray::ArrayD<u64>`.
#[derive(Debug)]
#[verifier::external_body]
pub struct TensorD {
    inner: ndarray::ArrayD<u64>,
}

/// A borrowed window into a grid: an `ndarray::ArrayViewD<u64>`.
#[derive(Debug)]
#[verifier::external_body]
pub struct GridView<'a> {
    inner: ndarray::ArrayViewD<'a, u64>,
}

/// The elements of a one-dimensional array, first to last.
pub uninterp spec fn coords_values(c: Coords) -> Seq<u64>;

/// The lengths of the six axes of an array (`shape()`).
pub uninterp spec fn tensor6_dims(t: Tensor6) -> Seq<usize>;

/// The elements of an array of six axes, in row-major order of their indices.
pub uninterp spec fn tensor6_cells(t: Tensor6) -> Seq<u64>;

/// The lengths of the axes of a dynamic array (`shape()`).
pub uninterp spec fn tensord_dims(t: TensorD) -> Seq<usize>;

/// The elements of a dynamic array, in row-major order of their indices.
pub uninterp spec fn tensord_cells(t: TensorD) -> Seq<u64>;

/// The lengths of the axes of a view (`shape()`).
pub uninterp spec fn view_dims(v: GridView<'_>) -> Seq<usize>;

/// The elements that a view shows, in row-major order of their indices.
pub uninterp spec fn view_cells(v: GridView<'_>) -> Seq<u64>;

impl View for Coords {
    type V = Seq<u64>;

    open spec fn view(&self) -> Seq<u64> {
        coords_values(*self)
    }
}

impl Tensor6 {
    /// What the grid holds.
    pub open spec fn dense(&self) -> Dense {
        Dense { dims: tensor6_dims(*self), cells: tensor6_cells(*self) }
    }
}

impl TensorD {
    /// What the grid holds.
    pub open spec fn dense(&self) -> Dense {
        Dense { dims: tensord_dims(*self), cells: tensord_cells(*self) }
    }
}

impl<'a> GridView<'a> {
    /// What the view shows.
    pub open spec fn dense(&self) -> Dense {
        Dense { dims: view_dims(*self), cells: view_cells(*self) }
    }
}

/// `ndarray::Array1::from_vec`: the array holds the vector's elements in the
/// vector's order. It does not panic for an element type of eight bytes.
#[verifier::external_body]
pub(crate) fn coords_from_vec(v: Vec<u64>) -> (r: Coords)
    ensures
        coords_values(r) == v@,
{
    Coords { inner: ndarray::Array1::from_vec(v) }
}

/// `ArrayBase::len`: the number of elements.
#[verifier::external_body]
pub(crate) fn coords_len(c: &Coords) -> (r: usize)
    ensures
        r == coords_values(*c).len(),
{
    c.inner.len()
}

/// `ArrayBase::to_vec` on a one-dimensional array: a vector of the elements,
/// first to last.
#[verifier::external_body]
pub(crate) fn coords_to_vec(c: &Coords) -> (r: Vec<u64>)
    ensures
        r@ == coords_values(*c),
{
    c.inner.to_vec()
}

/// `Clone::clone` of an array: the copy has the same elements in the same
/// order.
#[verifier::external_body]
pub(crate) fn coords_clone(c: &Coords) -> (r: Coords)
    ensures
        coords_values(r) == coords_values(*c),
{
    Coords { inner: c.inner.clone() }
}

/// `Clone::clone` of an array: the copy has the same shape and the same cells.
#[verifier::external_body]
pub(crate) fn tensor6_clone(t: &Tensor6) -> (r: Tensor6)
    ensures
        tensor6_dims(r) == tensor6_dims(*t),
        tensor6_cells(r) == tensor6_cells(*t),
{
    Tensor6 { inner: t.inner.clone() }
}

/// `Clone::clone` of an array: the copy has the same shape and the same cells.
#[verifier::external_body]
pub(crate) fn tensord_clone(t: &TensorD) -> (r: TensorD)
    ensures
        tensord_dims(r) == tensord_dims(*t),
        tensord_cells(r) == tensord_cells(*t),
{
    TensorD { inner: t.inner.clone() }
}

/// `ndarray::Array6::from_shape_vec` with a plain shape, which means row-major
/// order. It succeeds exactly where the payload fits the shape, and then the
/// array has that shape and the payload as its cells.
#[verifier::external_body]
pub(crate) fn tensor6_from_shape_vec(shape: [usize; 6], v: Vec<u64>) -> (r: Option<Tensor6>)
    ensures
        r is Some <==> fits(shape@, v@.len() as int),
        r matches Some(t) ==> tensor6_dims(t) == shape@ && tensor6_cells(t) == v@,
{
    match ndarray::Array6::from_shape_vec(shape, v) {
        Ok(a) => Some(Tensor6 { inner: a }),
        Err(_) => None,
    }
}

/// `ArrayBase::permuted_axes`, then `as_standard_layout` and `to_owned`, which
/// copy the cells into row-major memory and change neither shape nor cells.
/// Axis `axes[j]` of the argument becomes axis `j` of the result, so the cell
/// at a multi-index stands in the result at the multi-index reordered in the
/// same way. `permuted_axes` panics unless `axes` lists each axis once.
#[verifier::external_body]
pub(crate) fn tensor6_permuted(t: Tensor6, axes: [usize; 6]) -> (r: Tensor6)
    requires
        is_permutation(axes@),
    ensures
        tensor6_dims(r) == permuted(tensor6_dims(t), axes@),
        tensor6_cells(r).len() == tensor6_cells(t).len(),
        forall|idx: Seq<usize>|
            in_bounds(tensor6_dims(t), idx) ==> tensor6_cells(r)[offset(
                tensor6_dims(r),
                permuted(idx, axes@),
            )] == tensor6_cells(t)[#[trigger] offset(tensor6_dims(t), idx)],
{
    Tensor6 { inner: t.inner.permuted_axes(axes).as_standard_layout().to_owned() }
}

/// `ArrayBase::view` and `into_dyn`: a view of the whole array, with the same
/// shape and cells. An array has one cell for each multi-index of its shape:
/// `len` is the product of the lengths of its axes.
#[verifier::external_body]
pub(crate) fn tensor6_view<'a>(t: &'a Tensor6) -> (r: GridView<'a>)
    ensures
        view_dims(r) == tensor6_dims(*t),
        view_cells(r) == tensor6_cells(*t),
        view_cells(r).len() == product(view_dims(r)),
{
    GridView { inner: t.inner.view().into_dyn() }
}

/// `ArrayBase::slice` with an index on each of the first four axes and the
/// full range on the last two, then `into_dyn`: the plane of the cells whose
/// multi-index starts with `lead`, one cell for each pair of places on the
/// last two axes. `slice` panics where an index is out of bounds.
#[verifier::external_body]
pub(crate) fn tensor6_plane<'a>(t: &'a Tensor6, lead: [usize; 4]) -> (r: GridView<'a>)
    requires
        tensor6_dims(*t).len() == 6,
        forall|k: int| 0 <= k < 4 ==> lead@[k] < tensor6_dims(*t)[k],
    ensures
        view_dims(r) == seq![tensor6_dims(*t)[4], tensor6_dims(*t)[5]],
        view_cells(r).len() == tensor6_dims(*t)[4] * tensor6_dims(*t)[5],
        forall|idx: Seq<usize>|
            in_bounds(view_dims(r), idx) ==> view_cells(r)[#[trigger] offset(view_dims(r), idx)]
                == tensor6_cells(*t)[offset(tensor6_dims(*t), lead@ + idx)],
{
    let all = ndarray::SliceInfoElem::from(..);
    let info: ndarray::SliceInfo<_, ndarray::Ix6, ndarray::Ix2> =
        [lead[0].into(), lead[1].into(), lead[2].into(), lead[3].into(), all, all]
        .try_into().unwrap();
    GridView { inner: t.inner.slice(info).into_dyn() }
}

/// `ndarray::ArrayD::from_shape_vec` with a plain shape of eight axes, which
/// means row-major order. It succeeds exactly where the payload fits the
/// shape, and then the array has that shape and the payload as its cells.
#[verifier::external_body]
pub(crate) fn tensord_from_shape_vec(shape: [usize; 8], v: Vec<u64>) -> (r: Option<TensorD>)
    ensures
        r is Some <==> fits(shape@, v@.len() as int),
        r matches Some(t) ==> tensord_dims(t) == shape@ && tensord_cells(t) == v@,
{
    match ndarray::ArrayD::from_shape_vec(ndarray::IxDyn(&shape), v) {
        Ok(a) => Some(TensorD { inner: a }),
        Err(_) => None,
    }
}

/// `ArrayBase::view`: a view of the whole array, with the same shape and
/// cells. An array has one cell for each multi-index of its shape: `len` is
/// the product of the lengths of its axes.
#[verifier::external_body]
pub(crate) fn tensord_view<'a>(t: &'a TensorD) -> (r: GridView<'a>)
    ensures
        view_dims(r) == tensord_dims(*t),
        view_cells(r) == tensord_cells(*t),
        view_cells(r).len() == product(view_dims(r)),
{
    GridView { inner: t.inner.view() }
}

/// `ArrayBase::slice` with an index on each of the first six axes and the full
/// range on the last two, then `into_dyn`: the plane of the cells whose
/// multi-index starts with `lead`, one cell for each pair of places on the
/// last two axes. `slice` panics where the array has not eight axes or an
/// index is out of bounds.
#[verifier::external_body]
pub(crate) fn tensord_plane<'a>(t: &'a TensorD, lead: [usize; 6]) -> (r: GridView<'a>)
    requires
        tensord_dims(*t).len() == 8,
        forall|k: int| 0 <= k < 6 ==> lead@[k] < tensord_dims(*t)[k],
    ensures
        view_dims(r) == seq![tensord_dims(*t)[6], tensord_dims(*t)[7]],
        view_cells(r).len() == tensord_dims(*t)[6] * tensord_dims(*t)[7],
        forall|idx: Seq<usize>|
            in_bounds(view_dims(r), idx) ==> view_cells(r)[#[trigger] offset(view_dims(r), idx)]
                == tensord_cells(*t)[offset(tensord_dims(*t), lead@ + idx)],
{
    let all = ndarray::SliceInfoElem::from(..);
    let info: ndarray::SliceInfo<_, ndarray::IxDyn, ndarray::Ix2> = [
        lead[0].into(), lead[1].into(), lead[2].into(), lead[3].into(), lead[4].into(),
        lead[5].into(), all, all,
    ].try_into().unwrap();
    GridView { inner: t.inner.slice(info).into_dyn() }
}

/// `ArrayBase::shape`: the lengths of the axes.
#[verifier::external_body]
pub(crate) fn view_shape(v: &GridView<'_>) -> (r: Vec<usize>)
    ensures
        r@ == view_dims(*v),
{
    v.inner.shape().to_vec()
}

/// `ArrayBase::iter`, collected: the elements in the order in which `ndarray`
/// iterates, which is row-major order of their multi-indices.
#[verifier::external_body]
pub(crate) fn view_to_vec(v: &GridView<'_>) -> (r: Vec<u64>)
    ensures
        r@ == view_cells(*v),
{
    v.inner.iter().copied().collect()
}

/// `ArrayBase::get` with a slice as the index: the cell at the multi-index,
/// or nothing where the index has another number of axes than the view or
/// leaves its shape.
#[verifier::external_body]
pub(crate) fn view_get(v: &GridView<'_>, idx: &[usize]) -> (r: Option<u64>)
    ensures
        r == if in_bounds(view_dims(*v), idx@) {
            Some(view_cells(*v)[offset(view_dims(*v), idx@)])
        } else {
            None
        },
{
    v.inner.get(idx).copied()
}

impl Clone for Coords {
    fn clone(&self) -> (r: Self)
        ensures
            r@ == self@,
    {
        coords_clone(self)
    }
}

impl Clone for Tensor6 {
    fn clone(&self) -> (r: Self)
        ensures
            r.dense() == self.dense(),
    {
        tensor6_clone(self)
    }
}

impl Clone for TensorD {
    fn clone(&self) -> (r: Self)
        ensures
            r.dense() == self.dense(),
    {
        tensord_clone(self)
    }
}

impl Coords {
    /// The number of coordinates.
    pub fn len(&self) -> (r: usize)
        ensures
            r == self@.len(),
    {
        coords_len(self)
    }

    /// The coordinates, first to last.
    pub fn to_vec(&self) -> (r: Vec<u64>)
        ensures
            r@ == self@,
    {
        coords_to_vec(self)
    }
}

impl Tensor6 {
    /// A view of the whole grid.
    pub fn view(&self) -> (r: GridView<'_>)
        ensures
            r.dense() == self.dense(),
            r.dense().cells.len() == product(r.dense().dims),
    {
        tensor6_view(self)
    }
}

impl TensorD {
    /// A view of the whole grid.
    pub fn view(&self) -> (r: GridView<'_>)
        ensures
            r.dense() == self.dense(),
            r.dense().cells.len() == product(r.dense().dims),
    {
        tensord_view(self)
    }
}

impl<'a> GridView<'a> {
    /// The lengths of the axes.
    pub fn shape(&self) -> (r: Vec<usize>)
        ensures
            r@ == self.dense().dims,
    {
        view_shape(self)
    }

    /// The cells in row-major order.
    pub fn to_vec(&self) -> (r: Vec<u64>)
        ensures
            r@ == self.dense().cells,
    {
        view_to_vec(self)
    }

    /// The cell at a multi-index, or `None` where the index does not name a
    /// cell of the view.
    pub fn get(&self, idx: &[usize]) -> (r: Option<u64>)
        ensures
            r == if in_bounds(self.dense().dims, idx@) {
                Some(self.dense().at(idx@))
            } else {
                None
            },
    {
        view_get(self, idx)
    }
}

} // verus!

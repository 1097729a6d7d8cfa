//! One region of phase space with a consistent grid: its coordinate axes, its
//! grid of values, the ranges that the axes span, and the questions asked of
//! them: which class of interpolation the region needs, whether a point lies in
//! it, how far outside a point lies, and which plane of values to interpolate.

use crate::dense::{
    coords_clone, coords_from_vec, tensor6_clone, tensor6_from_shape_vec, tensor6_permuted, tensor6_plane, tensor6_view,
    tensord_clone, tensord_from_shape_vec, tensord_plane, tensord_view, Coords, Dense, GridView, Tensor6, TensorD,
};
use crate::interpolator::{
    lemma_classification, ActiveAxes, InterpolationConfig, UnsupportedAxes,
};
use crate::layout::{
    fits, in_bounds, lemma_nonzero_product_6, lemma_offset_6, lemma_offset_8, lemma_offset_in_range,
    lemma_product_6, lemma_product_8, offset, or_one, permuted, product, shape_fits,
};
use crate::scalar::{is_nan, le, lt, ZERO};
use vstd::pervasive::unreached;
use vstd::prelude::*;

verus! {

/// An inclusive interval of a parameter.
#[derive(Debug, Clone, Copy)]
pub struct ParamRange {
    /// The lower end.
    pub min: u64,
    /// The upper end.
    pub max: u64,
}

/// Where a value lies against a range, and the two numbers whose difference,
/// squared, is its share of the squared distance to the range.
#[derive(Debug, Clone, Copy, PartialEq, Eq, Structural)]
pub enum Gap {
    /// The value is not outside the range: the share is zero.
    Inside,
    /// The value is below the range: the share is `(min - value)²`.
    Below { min: u64, value: u64 },
    /// The value is above the range: the share is `(value - max)²`.
    Above { value: u64, max: u64 },
}

impl ParamRange {
    /// The range from `min` to `max`.
    pub fn new(min: u64, max: u64) -> (r: Self)
        ensures
            r.min == min,
            r.max == max,
    {
        Self { min, max }
    }

    /// Whether the range has ends in order, neither of them a NaN.
    pub open spec fn is_proper(&self) -> bool {
        le(self.min, self.max)
    }

    /// `min <= value <= max`.
    pub open spec fn contains_spec(&self, value: u64) -> bool {
        le(self.min, value) && le(value, self.max)
    }

    /// Where `value` lies: below if `value < min`, else above if
    /// `value > max`, else inside.
    pub open spec fn gap_spec(&self, value: u64) -> Gap {
        if lt(value, self.min) {
            Gap::Below { min: self.min, value }
        } else if lt(self.max, value) {
            Gap::Above { value, max: self.max }
        } else {
            Gap::Inside
        }
    }

    /// Whether `value` lies in the range, both ends included.
    #[verifier::when_used_as_spec(contains_spec)]
    pub fn contains(&self, value: u64) -> (r: bool)
        ensures
            r == self.contains_spec(value),
    {
        le(self.min, value) && le(value, self.max)
    }

    /// Where `value` lies against the range.
    #[verifier::when_used_as_spec(gap_spec)]
    pub fn gap(&self, value: u64) -> (r: Gap)
        ensures
            r == self.gap_spec(value),
    {
        if lt(value, self.min) {
            Gap::Below { min: self.min, value }
        } else if lt(self.max, value) {
            Gap::Above { value, max: self.max }
        } else {
            Gap::Inside
        }
    }
}

/// Why a subgrid cannot be built.
#[derive(Debug, Clone, Copy, PartialEq, Eq, Structural)]
pub enum SubGridError {
    /// An axis has no coordinate.
    EmptyAxis,
    /// The payload has not one value for each cell of the shape, or the shape
    /// is larger than an array can be.
    PayloadMismatch,
    /// The pattern of active axes has no class.
    Unsupported(UnsupportedAxes),
}

/// The ranges of all seven axes of a subgrid.
#[derive(Debug, Clone, Copy)]
pub struct RangeParameters {
    /// The range of the nucleon numbers `A`.
    pub nucleons: ParamRange,
    /// The range of the values of the strong coupling.
    pub alphas: ParamRange,
    /// The range of the xi values.
    pub xi: ParamRange,
    /// The range of the delta values.
    pub delta: ParamRange,
    /// The range of the transverse momentum `kT`.
    pub kt: ParamRange,
    /// The range of the momentum fraction `x`.
    pub x: ParamRange,
    /// The range of the energy scale squared `Q²`.
    pub q2: ParamRange,
}

impl RangeParameters {
    /// Bundles seven ranges.
    pub fn new(
        nucleons: ParamRange,
        alphas: ParamRange,
        xi: ParamRange,
        delta: ParamRange,
        kt: ParamRange,
        x: ParamRange,
        q2: ParamRange,
    ) -> (r: Self)
        ensures
            r == (RangeParameters { nucleons, alphas, xi, delta, kt, x, q2 }),
    {
        Self { nucleons, alphas, xi, delta, kt, x, q2 }
    }
}

/// The values of a subgrid, in one of two layouts.
#[derive(Debug)]
pub enum GridData {
    /// Six axes: nucleons, alphas, flavors, kT, `x`, `Q²`.
    Grid6D(Tensor6),
    /// Eight axes: nucleons, alphas, xi, delta, kT, flavors, `x`, `Q²`.
    Grid8D(TensorD),
}

impl Clone for GridData {
    fn clone(&self) -> (r: Self)
        ensures
            r.dense() == self.dense(),
            r is Grid8D == self is Grid8D,
    {
        match self {
            GridData::Grid6D(t) => GridData::Grid6D(tensor6_clone(t)),
            GridData::Grid8D(t) => GridData::Grid8D(tensord_clone(t)),
        }
    }
}

impl GridData {
    /// What the grid holds: its shape and its cells in row-major order.
    pub open spec fn dense(&self) -> Dense {
        match self {
            GridData::Grid6D(t) => t.dense(),
            GridData::Grid8D(t) => t.dense(),
        }
    }

    /// A view of the whole grid, whichever layout it has.
    pub fn view(&self) -> (r: GridView<'_>)
        ensures
            r.dense() == self.dense(),
            r.dense().cells.len() == product(r.dense().dims),
    {
        match self {
            GridData::Grid6D(t) => tensor6_view(t),
            GridData::Grid8D(t) => tensord_view(t),
        }
    }

    /// The grid of six axes. Only a grid in that layout has one.
    pub fn as_6d(&self) -> (r: &Tensor6)
        requires
            self is Grid6D,
        ensures
            *r == self->Grid6D_0,
    {
        match self {
            GridData::Grid6D(t) => t,
            GridData::Grid8D(_) => unreached(),
        }
    }

    /// The grid of eight axes. Only a grid in that layout has one.
    pub fn as_8d(&self) -> (r: &TensorD)
        requires
            self is Grid8D,
        ensures
            *r == self->Grid8D_0,
    {
        match self {
            GridData::Grid6D(_) => unreached(),
            GridData::Grid8D(t) => t,
        }
    }
}

/// The range that an ascending axis spans: from its first coordinate to its
/// last.
pub open spec fn span(values: Seq<u64>) -> ParamRange {
    ParamRange { min: values.first(), max: values.last() }
}

/// Whether no coordinate is a NaN and each is below the next.
pub open spec fn strictly_ascending(values: Seq<u64>) -> bool {
    &&& forall|i: int| 0 <= i < values.len() ==> !is_nan(#[trigger] values[i])
    &&& forall|i: int, j: int| 0 <= i < j < values.len() ==> lt(values[i], values[j])
}

/// The grid of one region of phase space.
#[derive(Debug)]
pub struct SubGrid {
    /// The values of the momentum fraction `x`.
    pub xs: Coords,
    /// The values of the energy scale squared `Q²`.
    pub q2s: Coords,
    /// The values of the transverse momentum `kT`.
    pub kts: Coords,
    /// The values of xi.
    pub xis: Coords,
    /// The values of delta.
    pub deltas: Coords,
    /// The grid of values.
    pub grid: GridData,
    /// The nucleon numbers.
    pub nucleons: Coords,
    /// The values of the strong coupling.
    pub alphas: Coords,
    /// The range of the nucleon numbers.
    pub nucleons_range: ParamRange,
    /// The range of the strong coupling.
    pub alphas_range: ParamRange,
    /// The range of xi.
    pub xi_range: ParamRange,
    /// The range of delta.
    pub delta_range: ParamRange,
    /// The range of `kT`.
    pub kt_range: ParamRange,
    /// The range of `x`.
    pub x_range: ParamRange,
    /// The range of `Q²`.
    pub q2_range: ParamRange,
}

impl Clone for SubGrid {
    fn clone(&self) -> (r: Self)
        ensures
            r.xs@ == self.xs@,
            r.q2s@ == self.q2s@,
            r.kts@ == self.kts@,
            r.xis@ == self.xis@,
            r.deltas@ == self.deltas@,
            r.nucleons@ == self.nucleons@,
            r.alphas@ == self.alphas@,
            r.grid.dense() == self.grid.dense(),
            r.grid is Grid8D == self.grid is Grid8D,
            r.ranges() == self.ranges(),
            r.wf() == self.wf(),
    {
        Self {
            xs: coords_clone(&self.xs),
            q2s: coords_clone(&self.q2s),
            kts: coords_clone(&self.kts),
            xis: coords_clone(&self.xis),
            deltas: coords_clone(&self.deltas),
            grid: self.grid.clone(),
            nucleons: coords_clone(&self.nucleons),
            alphas: coords_clone(&self.alphas),
            nucleons_range: self.nucleons_range,
            alphas_range: self.alphas_range,
            xi_range: self.xi_range,
            delta_range: self.delta_range,
            kt_range: self.kt_range,
            x_range: self.x_range,
            q2_range: self.q2_range,
        }
    }
}

impl SubGrid {
    /// The optional axes that hold more than one coordinate.
    pub open spec fn axes(&self) -> ActiveAxes {
        ActiveAxes::of_lengths(
            self.nucleons@.len() as int,
            self.alphas@.len() as int,
            self.xis@.len() as int,
            self.deltas@.len() as int,
            self.kts@.len() as int,
        )
    }

    /// The number of flavors: the length of the flavor axis of the grid.
    pub open spec fn flavors_spec(&self) -> usize {
        match self.grid {
            GridData::Grid6D(t) => t.dense().dims[2],
            GridData::Grid8D(t) => t.dense().dims[5],
        }
    }

    /// The value stored for one coordinate on each axis, given by its place on
    /// that axis. A grid of six axes has one xi and one delta, and ignores
    /// their places.
    pub open spec fn cell(
        &self,
        nucleon: usize,
        alpha: usize,
        xi: usize,
        delta: usize,
        kt: usize,
        flavor: usize,
        x: usize,
        q2: usize,
    ) -> u64 {
        match self.grid {
            GridData::Grid6D(t) => t.dense().at(seq![nucleon, alpha, flavor, kt, x, q2]),
            GridData::Grid8D(t) => t.dense().at(seq![nucleon, alpha, xi, delta, kt, flavor, x, q2]),
        }
    }

    /// Whether the grid has one cell for each combination of a coordinate on
    /// every axis and a flavor, its axes in the order of its layout. No axis
    /// is empty then, and a grid of six axes has one xi and one delta.
    pub open spec fn grid_matches_axes_spec(&self) -> bool {
        &&& self.xs@.len() >= 1
        &&& self.q2s@.len() >= 1
        &&& self.kts@.len() >= 1
        &&& self.xis@.len() >= 1
        &&& self.deltas@.len() >= 1
        &&& self.nucleons@.len() >= 1
        &&& self.alphas@.len() >= 1
        &&& self.grid.dense().cells.len() == product(self.grid.dense().dims)
        &&& match self.grid {
            GridData::Grid6D(t) => {
                &&& self.xis@.len() == 1
                &&& self.deltas@.len() == 1
                &&& t.dense().dims.len() == 6
                &&& t.dense().dims[0] == self.nucleons@.len()
                &&& t.dense().dims[1] == self.alphas@.len()
                &&& t.dense().dims[3] == self.kts@.len()
                &&& t.dense().dims[4] == self.xs@.len()
                &&& t.dense().dims[5] == self.q2s@.len()
            },
            GridData::Grid8D(t) => {
                &&& t.dense().dims.len() == 8
                &&& t.dense().dims[0] == self.nucleons@.len()
                &&& t.dense().dims[1] == self.alphas@.len()
                &&& t.dense().dims[2] == self.xis@.len()
                &&& t.dense().dims[3] == self.deltas@.len()
                &&& t.dense().dims[4] == self.kts@.len()
                &&& t.dense().dims[6] == self.xs@.len()
                &&& t.dense().dims[7] == self.q2s@.len()
            },
        }
    }

    /// The ranges of all seven axes.
    pub open spec fn ranges_spec(&self) -> RangeParameters {
        RangeParameters {
            nucleons: self.nucleons_range,
            alphas: self.alphas_range,
            xi: self.xi_range,
            delta: self.delta_range,
            kt: self.kt_range,
            x: self.x_range,
            q2: self.q2_range,
        }
    }

    /// Whether each range spans its axis, from the first coordinate to the
    /// last.
    pub open spec fn ranges_span_axes(&self) -> bool {
        &&& self.nucleons_range == span(self.nucleons@)
        &&& self.alphas_range == span(self.alphas@)
        &&& self.xi_range == span(self.xis@)
        &&& self.delta_range == span(self.deltas@)
        &&& self.kt_range == span(self.kts@)
        &&& self.x_range == span(self.xs@)
        &&& self.q2_range == span(self.q2s@)
    }

    /// What every subgrid that this crate builds satisfies: the grid matches
    /// the axes, the pattern of active axes has a class, and each range spans
    /// its axis.
    pub open spec fn wf(&self) -> bool {
        &&& self.grid_matches_axes()
        &&& InterpolationConfig::classify(self.axes()) is Ok
        &&& self.ranges_span_axes()
    }

    /// Whether every axis is strictly ascending, as the ranges assume.
    pub open spec fn ascending(&self) -> bool {
        &&& strictly_ascending(self.xs@)
        &&& strictly_ascending(self.q2s@)
        &&& strictly_ascending(self.kts@)
        &&& strictly_ascending(self.xis@)
        &&& strictly_ascending(self.deltas@)
        &&& strictly_ascending(self.nucleons@)
        &&& strictly_ascending(self.alphas@)
    }

    /// The ranges that a point is held against, in the order of its
    /// coordinates: those of the active axes among nucleons, alphas, xi,
    /// delta and kT, in this order, then those of `x` and `Q²`.
    pub open spec fn parameter_ranges_spec(&self) -> Seq<ParamRange> {
        let nucleons = if self.nucleons@.len() > 1 {
            seq![self.nucleons_range]
        } else {
            seq![]
        };
        let alphas = if self.alphas@.len() > 1 {
            seq![self.alphas_range]
        } else {
            seq![]
        };
        let xi = if self.xis@.len() > 1 {
            seq![self.xi_range]
        } else {
            seq![]
        };
        let delta = if self.deltas@.len() > 1 {
            seq![self.delta_range]
        } else {
            seq![]
        };
        let kt = if self.kts@.len() > 1 {
            seq![self.kt_range]
        } else {
            seq![]
        };
        nucleons + alphas + xi + delta + kt + seq![self.x_range, self.q2_range]
    }

    /// Whether a point has one coordinate for each range and each coordinate
    /// lies in its range.
    pub open spec fn contains_point_spec(&self, point: Seq<u64>) -> bool {
        let ranges = self.parameter_ranges_spec();
        &&& point.len() == ranges.len()
        &&& forall|i: int| 0 <= i < ranges.len() ==> (#[trigger] ranges[i]).contains(point[i])
    }

    /// The gap of each coordinate of a point against its range, for as many
    /// coordinates as there are ranges, and no more than the point has.
    pub open spec fn gaps(&self, point: Seq<u64>) -> Seq<Gap> {
        let ranges = self.parameter_ranges_spec();
        let n = if point.len() < ranges.len() {
            point.len()
        } else {
            ranges.len()
        };
        Seq::new(n, |i: int| ranges[i].gap(point[i]))
    }

    /// Why a subgrid of six axes cannot be built from axes of these lengths, a
    /// number of flavors and a payload of this length, if it cannot: an axis
    /// is empty; or else the payload does not fit the shape; or else the
    /// pattern of active axes has no class.
    pub open spec fn fault_6d(
        nucleons: usize,
        alphas: usize,
        kts: usize,
        xs: usize,
        q2s: usize,
        nflav: usize,
        payload: usize,
    ) -> Option<SubGridError> {
        if nucleons == 0 || alphas == 0 || kts == 0 || xs == 0 || q2s == 0 {
            Some(SubGridError::EmptyAxis)
        } else if !fits(seq![nucleons, alphas, nflav, kts, xs, q2s], payload as int) {
            Some(SubGridError::PayloadMismatch)
        } else {
            match InterpolationConfig::classify(
                ActiveAxes::of_lengths(nucleons as int, alphas as int, 1, 1, kts as int),
            ) {
                Ok(_) => None,
                Err(unsupported) => Some(SubGridError::Unsupported(unsupported)),
            }
        }
    }

    /// Why a subgrid of eight axes cannot be built from axes of these lengths,
    /// a number of flavors and a payload of this length, if it cannot: an axis
    /// is empty; or else the payload does not fit the shape; or else the
    /// pattern of active axes has no class.
    pub open spec fn fault_8d(
        nucleons: usize,
        alphas: usize,
        xis: usize,
        deltas: usize,
        kts: usize,
        xs: usize,
        q2s: usize,
        nflav: usize,
        payload: usize,
    ) -> Option<SubGridError> {
        if nucleons == 0 || alphas == 0 || xis == 0 || deltas == 0 || kts == 0 || xs == 0 || q2s
            == 0 {
            Some(SubGridError::EmptyAxis)
        } else if !fits(
            seq![nucleons, alphas, xis, deltas, kts, nflav, xs, q2s],
            payload as int,
        ) {
            Some(SubGridError::PayloadMismatch)
        } else {
            match InterpolationConfig::classify(
                ActiveAxes::of_lengths(
                    nucleons as int,
                    alphas as int,
                    xis as int,
                    deltas as int,
                    kts as int,
                ),
            ) {
                Ok(_) => None,
                Err(unsupported) => Some(SubGridError::Unsupported(unsupported)),
            }
        }
    }

    /// Whether this is the subgrid of six axes that these axes and this
    /// payload make.
    ///
    /// The payload is in row-major order over nucleons, alphas, flavors, kT,
    /// `x` and `Q²`, `Q²` varying fastest. The subgrid holds the axes, has one
    /// xi and one delta, both `0.0`, and holds the payload as it is: each
    /// value stands at the places that it had on its six axes.
    pub open spec fn is_built_6d(
        &self,
        nucleons: Seq<u64>,
        alphas: Seq<u64>,
        kts: Seq<u64>,
        xs: Seq<u64>,
        q2s: Seq<u64>,
        nflav: usize,
        payload: Seq<u64>,
    ) -> bool {
        &&& self.holds_axes_6d(nucleons, alphas, kts, xs, q2s, nflav)
        &&& self.grid.dense().cells == payload
        &&& forall|n: usize, a: usize, f: usize, k: usize, x: usize, q: usize|
            n < nucleons.len() && a < alphas.len() && f < nflav && k < kts.len() && x < xs.len()
                && q < q2s.len() ==> #[trigger] self.cell(n, a, 0, 0, k, f, x, q)
                == payload[((((n * alphas.len() + a) * nflav + f) * kts.len() + k) * xs.len() + x)
                * q2s.len() + q]
    }

    /// Whether this is the subgrid of six axes that these axes make of a
    /// payload that has the flavors as its last axis.
    ///
    /// The payload is in row-major order over nucleons, alphas, kT, `x`, `Q²`
    /// and flavors, flavors varying fastest. The subgrid holds the axes, has
    /// one xi and one delta, both `0.0`, and stores each value of the payload
    /// at the places that the value had on its six axes.
    pub open spec fn is_built_flavors_last(
        &self,
        nucleons: Seq<u64>,
        alphas: Seq<u64>,
        kts: Seq<u64>,
        xs: Seq<u64>,
        q2s: Seq<u64>,
        nflav: usize,
        payload: Seq<u64>,
    ) -> bool {
        &&& self.holds_axes_6d(nucleons, alphas, kts, xs, q2s, nflav)
        &&& forall|n: usize, a: usize, k: usize, x: usize, q: usize, f: usize|
            n < nucleons.len() && a < alphas.len() && k < kts.len() && x < xs.len() && q
                < q2s.len() && f < nflav ==> #[trigger] self.cell(n, a, 0, 0, k, f, x, q)
                == payload[((((n * alphas.len() + a) * kts.len() + k) * xs.len() + x) * q2s.len()
                + q) * nflav + f]
    }

    /// Whether this is a well-formed subgrid of six axes with these axes and
    /// this number of flavors, xi and delta pinned at `0.0`.
    pub open spec fn holds_axes_6d(
        &self,
        nucleons: Seq<u64>,
        alphas: Seq<u64>,
        kts: Seq<u64>,
        xs: Seq<u64>,
        q2s: Seq<u64>,
        nflav: usize,
    ) -> bool {
        &&& self.wf()
        &&& self.grid is Grid6D
        &&& self.flavors() == nflav
        &&& self.nucleons@ == nucleons
        &&& self.alphas@ == alphas
        &&& self.xis@ =~= seq![ZERO]
        &&& self.deltas@ =~= seq![ZERO]
        &&& self.kts@ == kts
        &&& self.xs@ == xs
        &&& self.q2s@ == q2s
    }

    /// Whether this is the subgrid of eight axes that these axes and this
    /// payload make.
    ///
    /// The payload is in row-major order over nucleons, alphas, xi, delta, kT,
    /// flavors, `x` and `Q²`, `Q²` varying fastest. The subgrid holds the axes
    /// and the payload as it is: each value stands at the places that it had
    /// on its eight axes.
    pub open spec fn is_built_8d(
        &self,
        nucleons: Seq<u64>,
        alphas: Seq<u64>,
        xis: Seq<u64>,
        deltas: Seq<u64>,
        kts: Seq<u64>,
        xs: Seq<u64>,
        q2s: Seq<u64>,
        nflav: usize,
        payload: Seq<u64>,
    ) -> bool {
        &&& self.wf()
        &&& self.grid is Grid8D
        &&& self.flavors() == nflav
        &&& self.nucleons@ == nucleons
        &&& self.alphas@ == alphas
        &&& self.xis@ == xis
        &&& self.deltas@ == deltas
        &&& self.kts@ == kts
        &&& self.xs@ == xs
        &&& self.q2s@ == q2s
        &&& self.grid.dense().cells == payload
        &&& forall|n: usize, a: usize, xi: usize, d: usize, k: usize, f: usize, x: usize, q: usize|
            n < nucleons.len() && a < alphas.len() && xi < xis.len() && d < deltas.len() && k
                < kts.len() && f < nflav && x < xs.len() && q < q2s.len()
                ==> #[trigger] self.cell(n, a, xi, d, k, f, x, q) == payload[((((((n
                * alphas.len() + a) * xis.len() + xi) * deltas.len() + d) * kts.len() + k) * nflav
                + f) * xs.len() + x) * q2s.len() + q]
    }

    /// Puts a grid of six axes together with its axes: xi and delta are
    /// pinned at `0.0`, and each range spans its axis.
    fn with_grid_6d(
        nucleon_numbers: Vec<u64>,
        alphas_values: Vec<u64>,
        kt_subgrid: Vec<u64>,
        x_subgrid: Vec<u64>,
        q2_subgrid: Vec<u64>,
        grid: Tensor6,
    ) -> (r: Self)
        requires
            nucleon_numbers@.len() >= 1,
            alphas_values@.len() >= 1,
            kt_subgrid@.len() >= 1,
            x_subgrid@.len() >= 1,
            q2_subgrid@.len() >= 1,
        ensures
            r.grid == GridData::Grid6D(grid),
            r.nucleons@ == nucleon_numbers@,
            r.alphas@ == alphas_values@,
            r.xis@ =~= seq![ZERO],
            r.deltas@ =~= seq![ZERO],
            r.kts@ == kt_subgrid@,
            r.xs@ == x_subgrid@,
            r.q2s@ == q2_subgrid@,
            r.ranges_span_axes(),
    {
        let n_nucleons: usize = nucleon_numbers.len();
        let n_alphas: usize = alphas_values.len();
        let n_kts: usize = kt_subgrid.len();
        let n_xs: usize = x_subgrid.len();
        let n_q2s: usize = q2_subgrid.len();
        let x_range = ParamRange::new(x_subgrid[0], x_subgrid[n_xs - 1]);
        let q2_range = ParamRange::new(q2_subgrid[0], q2_subgrid[n_q2s - 1]);
        let kt_range = ParamRange::new(kt_subgrid[0], kt_subgrid[n_kts - 1]);
        let nucleons_range = ParamRange::new(nucleon_numbers[0], nucleon_numbers[n_nucleons - 1]);
        let alphas_range = ParamRange::new(alphas_values[0], alphas_values[n_alphas - 1]);
        let xis: Vec<u64> = vec![ZERO];
        let deltas: Vec<u64> = vec![ZERO];
        Self {
            xs: coords_from_vec(x_subgrid),
            q2s: coords_from_vec(q2_subgrid),
            kts: coords_from_vec(kt_subgrid),
            xis: coords_from_vec(xis),
            deltas: coords_from_vec(deltas),
            grid: GridData::Grid6D(grid),
            nucleons: coords_from_vec(nucleon_numbers),
            alphas: coords_from_vec(alphas_values),
            nucleons_range,
            alphas_range,
            xi_range: ParamRange::new(ZERO, ZERO),
            delta_range: ParamRange::new(ZERO, ZERO),
            kt_range,
            x_range,
            q2_range,
        }
    }

    /// Builds a subgrid in the layout of six axes, which has no xi and no
    /// delta: each is pinned at `0.0`.
    ///
    /// `grid_data` is the flat payload in row-major order over nucleons, alphas,
    /// flavors, kT, `x` and `Q²`, `Q²` varying fastest; the grid holds it as it
    /// is. The axes must be in ascending order for the ranges to mean what
    /// they say; the constructor does not look at their order.
    ///
    /// No axis may be empty, the payload must fit the shape, and the pattern of
    /// active axes must have a class: [`SubGrid::try_new`] tests all three.
    pub fn new(
        nucleon_numbers: Vec<u64>,
        alphas_values: Vec<u64>,
        kt_subgrid: Vec<u64>,
        x_subgrid: Vec<u64>,
        q2_subgrid: Vec<u64>,
        nflav: usize,
        grid_data: Vec<u64>,
    ) -> (r: Self)
        requires
            Self::fault_6d(
                nucleon_numbers.len(),
                alphas_values.len(),
                kt_subgrid.len(),
                x_subgrid.len(),
                q2_subgrid.len(),
                nflav,
                grid_data.len(),
            ) is None,
        ensures
            r.is_built_6d(
                nucleon_numbers@,
                alphas_values@,
                kt_subgrid@,
                x_subgrid@,
                q2_subgrid@,
                nflav,
                grid_data@,
            ),
    {
        let shape: [usize; 6] = [
            nucleon_numbers.len(),
            alphas_values.len(),
            nflav,
            kt_subgrid.len(),
            x_subgrid.len(),
            q2_subgrid.len(),
        ];
        assert(shape@ =~= seq![
            nucleon_numbers.len(),
            alphas_values.len(),
            nflav,
            kt_subgrid.len(),
            x_subgrid.len(),
            q2_subgrid.len(),
        ]);
        let grid = match tensor6_from_shape_vec(shape, grid_data) {
            Some(t) => t,
            None => unreached(),
        };
        let r = Self::with_grid_6d(
            nucleon_numbers,
            alphas_values,
            kt_subgrid,
            x_subgrid,
            q2_subgrid,
            grid,
        );
        proof {
            assert forall|n: usize, a: usize, f: usize, k: usize, x: usize, q: usize|
                n < shape[0] && a < shape[1] && f < nflav && k < shape[3] && x < shape[4]
                    && q < shape[5] implies #[trigger] r.cell(n, a, 0, 0, k, f, x, q)
                    == grid_data@[((((n * shape[1] + a) * nflav + f) * shape[3] + k) * shape[4]
                        + x) * shape[5] + q] by {
                lemma_offset_6(shape@, seq![n, a, f, k, x, q]);
            }
        }
        r
    }

    /// Builds a subgrid in the layout of six axes, as [`SubGrid::new`] does,
    /// or says why it cannot.
    pub fn try_new(
        nucleon_numbers: Vec<u64>,
        alphas_values: Vec<u64>,
        kt_subgrid: Vec<u64>,
        x_subgrid: Vec<u64>,
        q2_subgrid: Vec<u64>,
        nflav: usize,
        grid_data: Vec<u64>,
    ) -> (r: Result<Self, SubGridError>)
        ensures
            match Self::fault_6d(
                nucleon_numbers.len(),
                alphas_values.len(),
                kt_subgrid.len(),
                x_subgrid.len(),
                q2_subgrid.len(),
                nflav,
                grid_data.len(),
            ) {
                Some(fault) => r == Err::<Self, SubGridError>(fault),
                None => r matches Ok(subgrid) && subgrid.is_built_6d(
                    nucleon_numbers@,
                    alphas_values@,
                    kt_subgrid@,
                    x_subgrid@,
                    q2_subgrid@,
                    nflav,
                    grid_data@,
                ),
            },
    {
        match Self::find_fault_6d(
            nucleon_numbers.len(),
            alphas_values.len(),
            kt_subgrid.len(),
            x_subgrid.len(),
            q2_subgrid.len(),
            nflav,
            grid_data.len(),
        ) {
            Some(fault) => Err(fault),
            None => Ok(
                Self::new(
                    nucleon_numbers,
                    alphas_values,
                    kt_subgrid,
                    x_subgrid,
                    q2_subgrid,
                    nflav,
                    grid_data,
                ),
            ),
        }
    }

    /// Builds a subgrid in the layout of six axes from a payload that has the
    /// flavors as its last axis.
    ///
    /// `grid_data` is the flat payload in row-major order over nucleons, alphas,
    /// kT, `x`, `Q²` and flavors, flavors varying fastest. The grid holds the
    /// same values with the flavor axis moved in front of kT. In all else the
    /// subgrid is the one that [`SubGrid::new`] builds.
    ///
    /// No axis may be empty, the payload must fit the shape, and the pattern of
    /// active axes must have a class: [`SubGrid::try_new_flavors_last`] tests
    /// all three.
    pub fn new_flavors_last(
        nucleon_numbers: Vec<u64>,
        alphas_values: Vec<u64>,
        kt_subgrid: Vec<u64>,
        x_subgrid: Vec<u64>,
        q2_subgrid: Vec<u64>,
        nflav: usize,
        grid_data: Vec<u64>,
    ) -> (r: Self)
        requires
            Self::fault_6d(
                nucleon_numbers.len(),
                alphas_values.len(),
                kt_subgrid.len(),
                x_subgrid.len(),
                q2_subgrid.len(),
                nflav,
                grid_data.len(),
            ) is None,
        ensures
            r.is_built_flavors_last(
                nucleon_numbers@,
                alphas_values@,
                kt_subgrid@,
                x_subgrid@,
                q2_subgrid@,
                nflav,
                grid_data@,
            ),
    {
        let n_nucleons: usize = nucleon_numbers.len();
        let n_alphas: usize = alphas_values.len();
        let n_kts: usize = kt_subgrid.len();
        let n_xs: usize = x_subgrid.len();
        let n_q2s: usize = q2_subgrid.len();
        let shape: [usize; 6] = [n_nucleons, n_alphas, n_kts, n_xs, n_q2s, nflav];
        let axes: [usize; 6] = [0, 1, 5, 2, 3, 4];
        let ghost moved = seq![n_nucleons, n_alphas, nflav, n_kts, n_xs, n_q2s];
        proof {
            assert(shape@ =~= seq![n_nucleons, n_alphas, n_kts, n_xs, n_q2s, nflav]);
            lemma_fits_with_flavors_last(moved, shape@, grid_data@.len() as int);
        }
        let raw = match tensor6_from_shape_vec(shape, grid_data) {
            Some(t) => t,
            None => unreached(),
        };
        let grid = tensor6_permuted(raw, axes);
        proof {
            assert(grid.dense().dims =~= moved);
        }
        let r = Self::with_grid_6d(
            nucleon_numbers,
            alphas_values,
            kt_subgrid,
            x_subgrid,
            q2_subgrid,
            grid,
        );
        proof {
            assert forall|n: usize, a: usize, k: usize, x: usize, q: usize, f: usize|
                n < n_nucleons && a < n_alphas && k < n_kts && x < n_xs && q < n_q2s
                    && f < nflav implies #[trigger] r.cell(n, a, 0, 0, k, f, x, q)
                    == grid_data@[((((n * n_alphas + a) * n_kts + k) * n_xs + x) * n_q2s + q)
                        * nflav + f] by {
                let from = seq![n, a, k, x, q, f];
                assert(in_bounds(shape@, from));
                assert(permuted(from, axes@) =~= seq![n, a, f, k, x, q]);
                lemma_offset_6(shape@, from);
                assert(grid.dense().cells[offset(grid.dense().dims, permuted(from, axes@))]
                    == raw.dense().cells[offset(raw.dense().dims, from)]);
            }
        }
        r
    }

    /// Builds a subgrid in the layout of six axes from a payload that has the
    /// flavors as its last axis, as [`SubGrid::new_flavors_last`] does, or
    /// says why it cannot.
    pub fn try_new_flavors_last(
        nucleon_numbers: Vec<u64>,
        alphas_values: Vec<u64>,
        kt_subgrid: Vec<u64>,
        x_subgrid: Vec<u64>,
        q2_subgrid: Vec<u64>,
        nflav: usize,
        grid_data: Vec<u64>,
    ) -> (r: Result<Self, SubGridError>)
        ensures
            match Self::fault_6d(
                nucleon_numbers.len(),
                alphas_values.len(),
                kt_subgrid.len(),
                x_subgrid.len(),
                q2_subgrid.len(),
                nflav,
                grid_data.len(),
            ) {
                Some(fault) => r == Err::<Self, SubGridError>(fault),
                None => r matches Ok(subgrid) && subgrid.is_built_flavors_last(
                    nucleon_numbers@,
                    alphas_values@,
                    kt_subgrid@,
                    x_subgrid@,
                    q2_subgrid@,
                    nflav,
                    grid_data@,
                ),
            },
    {
        match Self::find_fault_6d(
            nucleon_numbers.len(),
            alphas_values.len(),
            kt_subgrid.len(),
            x_subgrid.len(),
            q2_subgrid.len(),
            nflav,
            grid_data.len(),
        ) {
            Some(fault) => Err(fault),
            None => Ok(
                Self::new_flavors_last(
                    nucleon_numbers,
                    alphas_values,
                    kt_subgrid,
                    x_subgrid,
                    q2_subgrid,
                    nflav,
                    grid_data,
                ),
            ),
        }
    }

    /// Decides [`SubGrid::fault_6d`].
    fn find_fault_6d(
        nucleons: usize,
        alphas: usize,
        kts: usize,
        xs: usize,
        q2s: usize,
        nflav: usize,
        payload: usize,
    ) -> (r: Option<SubGridError>)
        ensures
            r == Self::fault_6d(nucleons, alphas, kts, xs, q2s, nflav, payload),
    {
        if nucleons == 0 || alphas == 0 || kts == 0 || xs == 0 || q2s == 0 {
            return Some(SubGridError::EmptyAxis);
        }
        let shape: [usize; 6] = [nucleons, alphas, nflav, kts, xs, q2s];
        assert(shape@ =~= seq![nucleons, alphas, nflav, kts, xs, q2s]);
        if !shape_fits(shape.as_slice(), payload) {
            return Some(SubGridError::PayloadMismatch);
        }
        match InterpolationConfig::from_dimensions(nucleons, alphas, 1, 1, kts) {
            Err(unsupported) => Some(SubGridError::Unsupported(unsupported)),
            Ok(_) => None,
        }
    }

    /// Builds a subgrid in the layout of eight axes.
    ///
    /// `grid_data` is the flat payload in row-major order over nucleons, alphas,
    /// xi, delta, kT, flavors, `x` and `Q²`, `Q²` varying fastest; the grid
    /// holds it as it is. The axes must be in ascending order for the ranges
    /// to mean what they say; the constructor does not look at their order.
    ///
    /// No axis may be empty, the payload must fit the shape, and the pattern of
    /// active axes must have a class: [`SubGrid::try_new_8d`] tests all three.
    pub fn new_8d(
        nucleon_numbers: Vec<u64>,
        alphas_values: Vec<u64>,
        xi_values: Vec<u64>,
        delta_values: Vec<u64>,
        kt_subgrid: Vec<u64>,
        x_subgrid: Vec<u64>,
        q2_subgrid: Vec<u64>,
        nflav: usize,
        grid_data: Vec<u64>,
    ) -> (r: Self)
        requires
            Self::fault_8d(
                nucleon_numbers.len(),
                alphas_values.len(),
                xi_values.len(),
                delta_values.len(),
                kt_subgrid.len(),
                x_subgrid.len(),
                q2_subgrid.len(),
                nflav,
                grid_data.len(),
            ) is None,
        ensures
            r.is_built_8d(
                nucleon_numbers@,
                alphas_values@,
                xi_values@,
                delta_values@,
                kt_subgrid@,
                x_subgrid@,
                q2_subgrid@,
                nflav,
                grid_data@,
            ),
    {
        let n_nucleons: usize = nucleon_numbers.len();
        let n_alphas: usize = alphas_values.len();
        let n_xis: usize = xi_values.len();
        let n_deltas: usize = delta_values.len();
        let n_kts: usize = kt_subgrid.len();
        let n_xs: usize = x_subgrid.len();
        let n_q2s: usize = q2_subgrid.len();
        let x_range = ParamRange::new(x_subgrid[0], x_subgrid[n_xs - 1]);
        let q2_range = ParamRange::new(q2_subgrid[0], q2_subgrid[n_q2s - 1]);
        let kt_range = ParamRange::new(kt_subgrid[0], kt_subgrid[n_kts - 1]);
        let xi_range = ParamRange::new(xi_values[0], xi_values[n_xis - 1]);
        let delta_range = ParamRange::new(delta_values[0], delta_values[n_deltas - 1]);
        let nucleons_range = ParamRange::new(nucleon_numbers[0], nucleon_numbers[n_nucleons - 1]);
        let alphas_range = ParamRange::new(alphas_values[0], alphas_values[n_alphas - 1]);

        let shape: [usize; 8] = [
            n_nucleons,
            n_alphas,
            n_xis,
            n_deltas,
            n_kts,
            nflav,
            n_xs,
            n_q2s,
        ];
        assert(shape@ =~= seq![
            n_nucleons,
            n_alphas,
            n_xis,
            n_deltas,
            n_kts,
            nflav,
            n_xs,
            n_q2s,
        ]);
        let grid = match tensord_from_shape_vec(shape, grid_data) {
            Some(t) => t,
            None => unreached(),
        };
        let r = Self {
            xs: coords_from_vec(x_subgrid),
            q2s: coords_from_vec(q2_subgrid),
            kts: coords_from_vec(kt_subgrid),
            xis: coords_from_vec(xi_values),
            deltas: coords_from_vec(delta_values),
            grid: GridData::Grid8D(grid),
            nucleons: coords_from_vec(nucleon_numbers),
            alphas: coords_from_vec(alphas_values),
            nucleons_range,
            alphas_range,
            xi_range,
            delta_range,
            kt_range,
            x_range,
            q2_range,
        };
        proof {
            assert forall|
                n: usize,
                a: usize,
                xi: usize,
                d: usize,
                k: usize,
                f: usize,
                x: usize,
                q: usize,
            |
                n < n_nucleons && a < n_alphas && xi < n_xis && d < n_deltas && k < n_kts
                    && f < nflav && x < n_xs && q < n_q2s implies #[trigger] r.cell(
                n, a, xi, d, k, f, x, q,
            ) == grid_data@[((((((n * n_alphas + a) * n_xis + xi) * n_deltas + d) * n_kts + k)
                * nflav + f) * n_xs + x) * n_q2s + q] by {
                lemma_offset_8(shape@, seq![n, a, xi, d, k, f, x, q]);
            }
        }
        r
    }

    /// Builds a subgrid in the layout of eight axes, as [`SubGrid::new_8d`]
    /// does, or says why it cannot.
    pub fn try_new_8d(
        nucleon_numbers: Vec<u64>,
        alphas_values: Vec<u64>,
        xi_values: Vec<u64>,
        delta_values: Vec<u64>,
        kt_subgrid: Vec<u64>,
        x_subgrid: Vec<u64>,
        q2_subgrid: Vec<u64>,
        nflav: usize,
        grid_data: Vec<u64>,
    ) -> (r: Result<Self, SubGridError>)
        ensures
            match Self::fault_8d(
                nucleon_numbers.len(),
                alphas_values.len(),
                xi_values.len(),
                delta_values.len(),
                kt_subgrid.len(),
                x_subgrid.len(),
                q2_subgrid.len(),
                nflav,
                grid_data.len(),
            ) {
                Some(fault) => r == Err::<Self, SubGridError>(fault),
                None => r matches Ok(subgrid) && subgrid.is_built_8d(
                    nucleon_numbers@,
                    alphas_values@,
                    xi_values@,
                    delta_values@,
                    kt_subgrid@,
                    x_subgrid@,
                    q2_subgrid@,
                    nflav,
                    grid_data@,
                ),
            },
    {
        if nucleon_numbers.len() == 0 || alphas_values.len() == 0 || xi_values.len() == 0
            || delta_values.len() == 0 || kt_subgrid.len() == 0 || x_subgrid.len() == 0
            || q2_subgrid.len() == 0 {
            return Err(SubGridError::EmptyAxis);
        }
        let shape: [usize; 8] = [
            nucleon_numbers.len(),
            alphas_values.len(),
            xi_values.len(),
            delta_values.len(),
            kt_subgrid.len(),
            nflav,
            x_subgrid.len(),
            q2_subgrid.len(),
        ];
        assert(shape@ =~= seq![
            nucleon_numbers.len(),
            alphas_values.len(),
            xi_values.len(),
            delta_values.len(),
            kt_subgrid.len(),
            nflav,
            x_subgrid.len(),
            q2_subgrid.len(),
        ]);
        if !shape_fits(shape.as_slice(), grid_data.len()) {
            return Err(SubGridError::PayloadMismatch);
        }
        match InterpolationConfig::from_dimensions(
            nucleon_numbers.len(),
            alphas_values.len(),
            xi_values.len(),
            delta_values.len(),
            kt_subgrid.len(),
        ) {
            Err(unsupported) => Err(SubGridError::Unsupported(unsupported)),
            Ok(_) => Ok(
                Self::new_8d(
                    nucleon_numbers,
                    alphas_values,
                    xi_values,
                    delta_values,
                    kt_subgrid,
                    x_subgrid,
                    q2_subgrid,
                    nflav,
                    grid_data,
                ),
            ),
        }
    }

    /// Whether the grid has one cell for each combination of a coordinate on
    /// every axis and a flavor, its axes in the order of its layout.
    #[verifier::when_used_as_spec(grid_matches_axes_spec)]
    pub fn grid_matches_axes(&self) -> (r: bool)
        ensures
            r == self.grid_matches_axes_spec(),
    {
        let n_nucleons: usize = self.nucleons.len();
        let n_alphas: usize = self.alphas.len();
        let n_xis: usize = self.xis.len();
        let n_deltas: usize = self.deltas.len();
        let n_kts: usize = self.kts.len();
        let n_xs: usize = self.xs.len();
        let n_q2s: usize = self.q2s.len();
        if n_nucleons == 0 || n_alphas == 0 || n_xis == 0 || n_deltas == 0 || n_kts == 0 || n_xs
            == 0 || n_q2s == 0 {
            return false;
        }
        let shape = self.grid.view().shape();
        match self.grid {
            GridData::Grid6D(_) => n_xis == 1 && n_deltas == 1 && shape.len() == 6 && shape[0]
                == n_nucleons && shape[1] == n_alphas && shape[3] == n_kts && shape[4] == n_xs
                && shape[5] == n_q2s,
            GridData::Grid8D(_) => shape.len() == 8 && shape[0] == n_nucleons && shape[1]
                == n_alphas && shape[2] == n_xis && shape[3] == n_deltas && shape[4] == n_kts
                && shape[6] == n_xs && shape[7] == n_q2s,
        }
    }

    /// The number of flavors: the length of the flavor axis of the grid.
    #[verifier::when_used_as_spec(flavors_spec)]
    pub fn flavors(&self) -> (r: usize)
        requires
            self.grid_matches_axes(),
        ensures
            r == self.flavors_spec(),
    {
        let shape = self.grid.view().shape();
        match self.grid {
            GridData::Grid6D(_) => shape[2],
            GridData::Grid8D(_) => shape[5],
        }
    }

    /// The ranges that a point is held against: see
    /// [`SubGrid::parameter_ranges_spec`].
    fn parameter_ranges(&self) -> (r: Vec<ParamRange>)
        ensures
            r@ == self.parameter_ranges_spec(),
    {
        let mut ranges: Vec<ParamRange> = Vec::new();
        if self.nucleons.len() > 1 {
            ranges.push(self.nucleons_range);
        }
        if self.alphas.len() > 1 {
            ranges.push(self.alphas_range);
        }
        if self.xis.len() > 1 {
            ranges.push(self.xi_range);
        }
        if self.deltas.len() > 1 {
            ranges.push(self.delta_range);
        }
        if self.kts.len() > 1 {
            ranges.push(self.kt_range);
        }
        ranges.push(self.x_range);
        ranges.push(self.q2_range);
        assert(ranges@ =~= self.parameter_ranges_spec());
        ranges
    }

    /// Whether a point lies within the subgrid.
    ///
    /// A point has one coordinate for each active axis among nucleons, alphas,
    /// xi, delta and kT, in this order, then `x` and `Q²`. A point of another
    /// length is not in the subgrid; neither is one with a coordinate outside
    /// the range of its axis.
    pub fn contains_point(&self, points: &[u64]) -> (r: bool)
        requires
            InterpolationConfig::classify(self.axes()) is Ok,
        ensures
            r == self.contains_point_spec(points@),
    {
        let ranges = self.parameter_ranges();
        if points.len() != ranges.len() {
            return false;
        }
        let mut i: usize = 0;
        while i < ranges.len()
            invariant
                i <= ranges.len(),
                points@.len() == ranges@.len(),
                ranges@ == self.parameter_ranges_spec(),
                forall|j: int| 0 <= j < i ==> (#[trigger] ranges@[j]).contains(points@[j]),
            decreases ranges.len() - i,
        {
            if !ranges[i].contains(points[i]) {
                return false;
            }
            i += 1;
        }
        true
    }

    /// The terms of the squared distance from a point to the box of the
    /// subgrid: one gap for each coordinate that has a range. The distance is
    /// the sum of the squared differences that the gaps name.
    pub fn distance_to_point(&self, points: &[u64]) -> (r: Vec<Gap>)
        ensures
            r@ == self.gaps(points@),
    {
        let ranges = self.parameter_ranges();
        let n: usize = if points.len() < ranges.len() {
            points.len()
        } else {
            ranges.len()
        };
        let mut gaps: Vec<Gap> = Vec::new();
        let mut i: usize = 0;
        while i < n
            invariant
                i <= n,
                n <= points@.len(),
                n <= ranges@.len(),
                gaps@.len() == i,
                forall|j: int| 0 <= j < i ==> gaps@[j] == ranges@[j].gap(points@[j]),
            decreases n - i,
        {
            gaps.push(ranges[i].gap(points[i]));
            i += 1;
        }
        assert(gaps@ =~= self.gaps(points@));
        gaps
    }

    /// The class of interpolation that the subgrid needs.
    pub fn interpolation_config(&self) -> (r: InterpolationConfig)
        requires
            InterpolationConfig::classify(self.axes()) is Ok,
        ensures
            InterpolationConfig::classify(self.axes()) == Ok::<_, UnsupportedAxes>(r),
            r.axes() == self.axes(),
    {
        match InterpolationConfig::from_dimensions(
            self.nucleons.len(),
            self.alphas.len(),
            self.xis.len(),
            self.deltas.len(),
            self.kts.len(),
        ) {
            Ok(config) => config,
            Err(_) => unreached(),
        }
    }

    /// The ranges of all seven axes.
    #[verifier::when_used_as_spec(ranges_spec)]
    pub fn ranges(&self) -> (r: RangeParameters)
        ensures
            r == self.ranges_spec(),
    {
        RangeParameters::new(
            self.nucleons_range,
            self.alphas_range,
            self.xi_range,
            self.delta_range,
            self.kt_range,
            self.x_range,
            self.q2_range,
        )
    }

    /// The plane of values over `x` and `Q²` for one flavor.
    ///
    /// Only a subgrid of the class `TwoD` has one: every optional axis holds
    /// a single coordinate. `pid_index` is the place of the flavor.
    pub fn grid_slice(&self, pid_index: usize) -> (r: GridView<'_>)
        requires
            self.grid_matches_axes(),
            InterpolationConfig::classify(self.axes()) == Ok::<_, UnsupportedAxes>(
                InterpolationConfig::TwoD,
            ),
            pid_index < self.flavors(),
        ensures
            r.dense().dims == seq![self.xs@.len() as usize, self.q2s@.len() as usize],
            r.dense().cells.len() == self.xs@.len() * self.q2s@.len(),
            forall|x: usize, q: usize|
                x < self.xs@.len() && q < self.q2s@.len()
                    ==> r.dense().cells[x * self.q2s@.len() + q]
                        == #[trigger] self.cell(0, 0, 0, 0, 0, pid_index, x, q),
    {
        proof {
            lemma_classification(self.axes());
        }
        match &self.grid {
            GridData::Grid6D(grid) => {
                let lead: [usize; 4] = [0, 0, pid_index, 0];
                let r = tensor6_plane(grid, lead);
                proof {
                    assert forall|x: usize, q: usize|
                        x < self.xs@.len() && q < self.q2s@.len()
                        implies r.dense().cells[x * self.q2s@.len() + q]
                        == #[trigger] self.cell(0, 0, 0, 0, 0, pid_index, x, q) by {
                        let idx = seq![x, q];
                        assert(in_bounds(r.dense().dims, idx));
                        lemma_offset_2(r.dense().dims, idx);
                        assert(lead@ + idx =~= seq![0, 0, pid_index, 0, x, q]);
                        assert(r.dense().cells[offset(r.dense().dims, idx)]
                            == grid.dense().cells[offset(grid.dense().dims, lead@ + idx)]);
                    }
                }
                r
            },
            GridData::Grid8D(grid) => {
                let lead: [usize; 6] = [0, 0, 0, 0, 0, pid_index];
                let r = tensord_plane(grid, lead);
                proof {
                    assert forall|x: usize, q: usize|
                        x < self.xs@.len() && q < self.q2s@.len()
                        implies r.dense().cells[x * self.q2s@.len() + q]
                        == #[trigger] self.cell(0, 0, 0, 0, 0, pid_index, x, q) by {
                        let idx = seq![x, q];
                        assert(in_bounds(r.dense().dims, idx));
                        lemma_offset_2(r.dense().dims, idx);
                        assert(lead@ + idx =~= seq![0, 0, 0, 0, 0, pid_index, x, q]);
                        assert(r.dense().cells[offset(r.dense().dims, idx)]
                            == grid.dense().cells[offset(grid.dense().dims, lead@ + idx)]);
                    }
                }
                r
            },
        }
    }

    /// The grid of six axes. Only a subgrid in that layout has one.
    pub fn grid_6d(&self) -> (r: &Tensor6)
        requires
            self.grid is Grid6D,
        ensures
            *r == self.grid->Grid6D_0,
    {
        self.grid.as_6d()
    }

    /// The grid of eight axes. Only a subgrid in that layout has one.
    pub fn grid_8d(&self) -> (r: &TensorD)
        requires
            self.grid is Grid8D,
        ensures
            *r == self.grid->Grid8D_0,
    {
        self.grid.as_8d()
    }

    /// Whether the grid is in the layout of eight axes.
    pub fn is_8d(&self) -> (r: bool)
        ensures
            r == (self.grid is Grid8D),
    {
        match self.grid {
            GridData::Grid6D(_) => false,
            GridData::Grid8D(_) => true,
        }
    }
}

/// A payload fits a shape of six axes with the flavors third exactly where it
/// fits the same lengths with the flavors last.
proof fn lemma_fits_with_flavors_last(third: Seq<usize>, last: Seq<usize>, len: int)
    requires
        third.len() == 6,
        last =~= seq![third[0], third[1], third[3], third[4], third[5], third[2]],
    ensures
        fits(third, len) == fits(last, len),
{
    lemma_product_6(third);
    lemma_product_6(last);
    lemma_nonzero_product_6(third);
    lemma_nonzero_product_6(last);
    let (n, a, f, k, x, q) = (
        third[0] as int,
        third[1] as int,
        third[2] as int,
        third[3] as int,
        third[4] as int,
        third[5] as int,
    );
    assert(n * a * f * k * x * q == n * a * k * x * q * f) by (nonlinear_arith);
    let (n1, a1, f1, k1, x1, q1) = (
        or_one(third[0]),
        or_one(third[1]),
        or_one(third[2]),
        or_one(third[3]),
        or_one(third[4]),
        or_one(third[5]),
    );
    assert(n1 * a1 * f1 * k1 * x1 * q1 == n1 * a1 * k1 * x1 * q1 * f1) by (nonlinear_arith);
}

/// The two ends of a range with ordered ends lie in it, and nothing below its
/// lower end does.
pub proof fn lemma_range_holds_its_ends(range: ParamRange)
    requires
        range.is_proper(),
    ensures
        range.contains(range.min),
        range.contains(range.max),
        forall|below: u64| lt(below, range.min) ==> !range.contains(below),
{
}

/// A point of a subgrid has one coordinate for each active axis, and two more
/// for `x` and `Q²`.
pub proof fn lemma_point_length(subgrid: SubGrid)
    ensures
        subgrid.parameter_ranges_spec().len() == 2 + subgrid.axes().count(),
        forall|point: Seq<u64>|
            subgrid.contains_point_spec(point) ==> point.len() == 2 + subgrid.axes().count(),
{
}

/// A point with a coordinate for each range, none of them a NaN, has no gap
/// to a subgrid exactly where the subgrid contains it, provided that no end of
/// a range is a NaN.
pub proof fn lemma_no_gap_iff_contained(subgrid: SubGrid, point: Seq<u64>)
    requires
        point.len() == subgrid.parameter_ranges_spec().len(),
        forall|i: int| 0 <= i < point.len() ==> !is_nan(#[trigger] point[i]),
        forall|i: int|
            0 <= i < point.len() ==> !is_nan((#[trigger] subgrid.parameter_ranges_spec()[i]).min)
                && !is_nan(subgrid.parameter_ranges_spec()[i].max),
    ensures
        subgrid.contains_point_spec(point) <==> forall|i: int|
            0 <= i < point.len() ==> #[trigger] subgrid.gaps(point)[i] is Inside,
{
    let ranges = subgrid.parameter_ranges_spec();
    let gaps = subgrid.gaps(point);
    if subgrid.contains_point_spec(point) {
        assert forall|i: int| 0 <= i < point.len() implies #[trigger] gaps[i] is Inside by {
            assert(ranges[i].contains(point[i]));
        }
    }
    if forall|i: int| 0 <= i < point.len() ==> #[trigger] gaps[i] is Inside {
        assert forall|i: int| 0 <= i < ranges.len() implies (#[trigger] ranges[i]).contains(
            point[i],
        ) by {
            assert(gaps[i] is Inside);
            assert(!is_nan(point[i]));
            assert(!is_nan(ranges[i].min) && !is_nan(ranges[i].max));
        }
    }
}

/// Round trip in the layout of six axes: the grid of a subgrid built from a
/// payload has the lengths of nucleons, alphas, flavors, kT, `x` and `Q²` as
/// its shape, and reading it at any multi-index gives the value that the
/// payload holds at the row-major position of that index.
pub proof fn lemma_round_trip_6d(
    subgrid: SubGrid,
    nucleons: Seq<u64>,
    alphas: Seq<u64>,
    kts: Seq<u64>,
    xs: Seq<u64>,
    q2s: Seq<u64>,
    nflav: usize,
    payload: Seq<u64>,
    idx: Seq<usize>,
)
    requires
        subgrid.is_built_6d(nucleons, alphas, kts, xs, q2s, nflav, payload),
        in_bounds(subgrid.grid.dense().dims, idx),
    ensures
        subgrid.grid.dense().dims =~= seq![
            nucleons.len() as usize,
            alphas.len() as usize,
            nflav,
            kts.len() as usize,
            xs.len() as usize,
            q2s.len() as usize,
        ],
        0 <= offset(subgrid.grid.dense().dims, idx) < payload.len(),
        subgrid.grid.dense().at(idx) == payload[offset(subgrid.grid.dense().dims, idx)],
        offset(subgrid.grid.dense().dims, idx) == ((((idx[0] * alphas.len() + idx[1]) * nflav
            + idx[2]) * kts.len() + idx[3]) * xs.len() + idx[4]) * q2s.len() + idx[5],
{
    lemma_offset_in_range(subgrid.grid.dense().dims, idx);
    lemma_offset_6(subgrid.grid.dense().dims, idx);
}

/// Round trip in the layout of eight axes: the grid of a subgrid built from a
/// payload has the lengths of nucleons, alphas, xi, delta, kT, flavors, `x`
/// and `Q²` as its shape, and reading it at any multi-index gives the value
/// that the payload holds at the row-major position of that index.
pub proof fn lemma_round_trip_8d(
    subgrid: SubGrid,
    nucleons: Seq<u64>,
    alphas: Seq<u64>,
    xis: Seq<u64>,
    deltas: Seq<u64>,
    kts: Seq<u64>,
    xs: Seq<u64>,
    q2s: Seq<u64>,
    nflav: usize,
    payload: Seq<u64>,
    idx: Seq<usize>,
)
    requires
        subgrid.is_built_8d(nucleons, alphas, xis, deltas, kts, xs, q2s, nflav, payload),
        in_bounds(subgrid.grid.dense().dims, idx),
    ensures
        subgrid.grid.dense().dims =~= seq![
            nucleons.len() as usize,
            alphas.len() as usize,
            xis.len() as usize,
            deltas.len() as usize,
            kts.len() as usize,
            nflav,
            xs.len() as usize,
            q2s.len() as usize,
        ],
        0 <= offset(subgrid.grid.dense().dims, idx) < payload.len(),
        subgrid.grid.dense().at(idx) == payload[offset(subgrid.grid.dense().dims, idx)],
        offset(subgrid.grid.dense().dims, idx) == ((((((idx[0] * alphas.len() + idx[1])
            * xis.len() + idx[2]) * deltas.len() + idx[3]) * kts.len() + idx[4]) * nflav + idx[5])
            * xs.len() + idx[6]) * q2s.len() + idx[7],
{
    lemma_offset_in_range(subgrid.grid.dense().dims, idx);
    lemma_offset_8(subgrid.grid.dense().dims, idx);
}

/// The grid of a subgrid has as many cells as the lengths of its seven axes
/// and the number of its flavors multiply to.
pub proof fn lemma_cell_count(subgrid: SubGrid)
    requires
        subgrid.grid_matches_axes(),
    ensures
        subgrid.grid.dense().cells.len() == subgrid.nucleons@.len() * subgrid.alphas@.len()
            * subgrid.xis@.len() * subgrid.deltas@.len() * subgrid.kts@.len() * subgrid.flavors()
            * subgrid.xs@.len() * subgrid.q2s@.len(),
{
    let dims = subgrid.grid.dense().dims;
    match subgrid.grid {
        GridData::Grid6D(_) => {
            lemma_product_6(dims);
            let (n, a, f, k, x, q) = (
                dims[0] as int,
                dims[1] as int,
                dims[2] as int,
                dims[3] as int,
                dims[4] as int,
                dims[5] as int,
            );
            assert(n * a * f * k * x * q == n * a * 1 * 1 * k * f * x * q) by (nonlinear_arith);
        },
        GridData::Grid8D(_) => {
            lemma_product_8(dims);
        },
    }
}

/// The ranges of a subgrid with ascending axes have their ends in order.
pub proof fn lemma_ascending_ranges_are_proper(subgrid: SubGrid)
    requires
        subgrid.grid_matches_axes(),
        subgrid.ranges_span_axes(),
        subgrid.ascending(),
    ensures
        forall|i: int|
            0 <= i < subgrid.parameter_ranges_spec().len()
                ==> (#[trigger] subgrid.parameter_ranges_spec()[i]).is_proper(),
{
    lemma_span_is_proper(subgrid.xs@);
    lemma_span_is_proper(subgrid.q2s@);
    lemma_span_is_proper(subgrid.kts@);
    lemma_span_is_proper(subgrid.xis@);
    lemma_span_is_proper(subgrid.deltas@);
    lemma_span_is_proper(subgrid.nucleons@);
    lemma_span_is_proper(subgrid.alphas@);
}

/// The span of an ascending axis has its ends in order.
proof fn lemma_span_is_proper(values: Seq<u64>)
    requires
        values.len() >= 1,
        strictly_ascending(values),
    ensures
        span(values).is_proper(),
{
    assert(!is_nan(values[0]));
    if values.len() > 1 {
        assert(lt(values[0], values[values.len() - 1]));
    }
}

/// The flat position in a shape of two axes, written out.
proof fn lemma_offset_2(dims: Seq<usize>, idx: Seq<usize>)
    requires
        dims.len() == 2,
        idx.len() == 2,
    ensures
        offset(dims, idx) == idx[0] * dims[1] + idx[1],
{
    reveal_with_fuel(offset, 3);
    assert(dims.drop_last().drop_last().len() == 0);
    assert(0 * dims[0] == 0);
}

} // verus!

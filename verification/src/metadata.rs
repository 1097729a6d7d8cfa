//! The block of information that describes a set, in its two schemas.
//!
//! The second schema has every field of the first and four more: the ranges of
//! xi and delta. A record is always read against the second schema, where a
//! number that the input leaves out reads as `0.0`, and is then held as a
//! record of the first schema unless it shows use of the second.

use crate::scalar::{lt, magnitude, ONE, ZERO};
use vstd::pervasive::unreached;
use vstd::prelude::*;
use vstd::std_specs::convert::FromSpecImpl;

verus! {

/// The kind of a set.
#[derive(Clone, Copy, Debug, PartialEq, Eq, Structural)]
pub enum SetType {
    /// Written `spacelike`. The default.
    SpaceLike,
    /// Written `timelike`.
    TimeLike,
}

impl Default for SetType {
    fn default() -> (r: Self)
        ensures
            r == SetType::SpaceLike,
    {
        SetType::SpaceLike
    }
}

/// The interpolation that a set asks for.
///
/// A value is stored by its place in this list, counted from zero, so the
/// list only ever grows at its end.
#[derive(Clone, Copy, Debug, PartialEq, Eq, Structural)]
pub enum InterpolatorType {
    Bilinear,
    LogBilinear,
    /// The default.
    LogBicubic,
    LogTricubic,
    InterpNDLinear,
    LogChebyshev,
    /// Known to the second schema only.
    LogFourCubic,
}

impl Default for InterpolatorType {
    fn default() -> (r: Self)
        ensures
            r == InterpolatorType::LogBicubic,
    {
        InterpolatorType::LogBicubic
    }
}

impl InterpolatorType {
    /// The place of a value in the list, counted from zero.
    pub open spec fn ordinal_spec(&self) -> u32 {
        match self {
            InterpolatorType::Bilinear => 0,
            InterpolatorType::LogBilinear => 1,
            InterpolatorType::LogBicubic => 2,
            InterpolatorType::LogTricubic => 3,
            InterpolatorType::InterpNDLinear => 4,
            InterpolatorType::LogChebyshev => 5,
            InterpolatorType::LogFourCubic => 6,
        }
    }

    /// The place of a value in the list, counted from zero.
    #[verifier::when_used_as_spec(ordinal_spec)]
    pub fn ordinal(&self) -> (r: u32)
        ensures
            r == self.ordinal_spec(),
    {
        match self {
            InterpolatorType::Bilinear => 0,
            InterpolatorType::LogBilinear => 1,
            InterpolatorType::LogBicubic => 2,
            InterpolatorType::LogTricubic => 3,
            InterpolatorType::InterpNDLinear => 4,
            InterpolatorType::LogChebyshev => 5,
            InterpolatorType::LogFourCubic => 6,
        }
    }

    /// The value at a place of the list, if the list is that long.
    pub fn from_ordinal(ordinal: u32) -> (r: Option<Self>)
        ensures
            ordinal <= 6 <==> r is Some,
            r matches Some(t) ==> t.ordinal() == ordinal,
    {
        match ordinal {
            0 => Some(InterpolatorType::Bilinear),
            1 => Some(InterpolatorType::LogBilinear),
            2 => Some(InterpolatorType::LogBicubic),
            3 => Some(InterpolatorType::LogTricubic),
            4 => Some(InterpolatorType::InterpNDLinear),
            5 => Some(InterpolatorType::LogChebyshev),
            6 => Some(InterpolatorType::LogFourCubic),
            _ => None,
        }
    }
}

/// The pattern of `1e-10`: a range end of the second schema counts as set
/// where its absolute value is above this.
pub const UNSET_BELOW: u64 = 0x3DDB_7CDF_D9D7_BDBB;

/// A record of the first schema.
#[derive(Debug)]
pub struct MetaDataV1 {
    /// A description of the set.
    pub set_desc: String,
    /// The index of the set.
    pub set_index: u32,
    /// The number of members of the set.
    pub num_members: u32,
    /// The lowest `x` at which the set is valid.
    pub x_min: u64,
    /// The highest `x` at which the set is valid.
    pub x_max: u64,
    /// The lowest `Q` at which the set is valid.
    pub q_min: u64,
    /// The highest `Q` at which the set is valid.
    pub q_max: u64,
    /// The PDG ids of the flavors in the set.
    pub flavors: Vec<i32>,
    /// The format of the data.
    pub format: String,
    /// The `Q` values of the table of the strong coupling.
    pub alphas_q_values: Vec<u64>,
    /// The values of the strong coupling at those `Q`.
    pub alphas_vals: Vec<u64>,
    /// Whether the hadron is polarised.
    pub polarised: bool,
    /// The kind of set.
    pub set_type: SetType,
    /// The interpolation that the set asks for.
    pub interpolator_type: InterpolatorType,
    /// How the members of the set express its error.
    pub error_type: String,
    /// The PDG id of the hadron.
    pub hadron_pid: i32,
    /// The git version of the code that wrote the set.
    pub git_version: String,
    /// The version of the code that wrote the set.
    pub code_version: String,
    /// The scheme for heavy flavors.
    pub flavor_scheme: String,
    /// The number of QCD loops in the evolution.
    pub order_qcd: u32,
    /// The number of QCD loops in the strong coupling.
    pub alphas_order_qcd: u32,
    /// The mass of the W boson.
    pub m_w: u64,
    /// The mass of the Z boson.
    pub m_z: u64,
    /// The mass of the up quark.
    pub m_up: u64,
    /// The mass of the down quark.
    pub m_down: u64,
    /// The mass of the strange quark.
    pub m_strange: u64,
    /// The mass of the charm quark.
    pub m_charm: u64,
    /// The mass of the bottom quark.
    pub m_bottom: u64,
    /// The mass of the top quark.
    pub m_top: u64,
    /// How the strong coupling is computed.
    pub alphas_type: String,
    /// The number of active flavors.
    pub number_flavors: u32,
}

/// A record of the second schema: the first, and the ranges of xi and delta.
#[derive(Debug)]
pub struct MetaDataV2 {
    /// A description of the set.
    pub set_desc: String,
    /// The index of the set.
    pub set_index: u32,
    /// The number of members of the set.
    pub num_members: u32,
    /// The lowest `x` at which the set is valid.
    pub x_min: u64,
    /// The highest `x` at which the set is valid.
    pub x_max: u64,
    /// The lowest `Q` at which the set is valid.
    pub q_min: u64,
    /// The highest `Q` at which the set is valid.
    pub q_max: u64,
    /// The PDG ids of the flavors in the set.
    pub flavors: Vec<i32>,
    /// The format of the data.
    pub format: String,
    /// The `Q` values of the table of the strong coupling.
    pub alphas_q_values: Vec<u64>,
    /// The values of the strong coupling at those `Q`.
    pub alphas_vals: Vec<u64>,
    /// Whether the hadron is polarised.
    pub polarised: bool,
    /// The kind of set.
    pub set_type: SetType,
    /// The interpolation that the set asks for.
    pub interpolator_type: InterpolatorType,
    /// How the members of the set express its error.
    pub error_type: String,
    /// The PDG id of the hadron.
    pub hadron_pid: i32,
    /// The git version of the code that wrote the set.
    pub git_version: String,
    /// The version of the code that wrote the set.
    pub code_version: String,
    /// The scheme for heavy flavors.
    pub flavor_scheme: String,
    /// The number of QCD loops in the evolution.
    pub order_qcd: u32,
    /// The number of QCD loops in the strong coupling.
    pub alphas_order_qcd: u32,
    /// The mass of the W boson.
    pub m_w: u64,
    /// The mass of the Z boson.
    pub m_z: u64,
    /// The mass of the up quark.
    pub m_up: u64,
    /// The mass of the down quark.
    pub m_down: u64,
    /// The mass of the strange quark.
    pub m_strange: u64,
    /// The mass of the charm quark.
    pub m_charm: u64,
    /// The mass of the bottom quark.
    pub m_bottom: u64,
    /// The mass of the top quark.
    pub m_top: u64,
    /// How the strong coupling is computed.
    pub alphas_type: String,
    /// The number of active flavors.
    pub number_flavors: u32,
    /// The lowest xi at which the set is valid.
    pub xi_min: u64,
    /// The highest xi at which the set is valid.
    pub xi_max: u64,
    /// The lowest delta at which the set is valid.
    pub delta_min: u64,
    /// The highest delta at which the set is valid.
    pub delta_max: u64,
}

/// What a record of the first schema says, field by field.
pub struct MetaDataV1View {
    /// A description of the set.
    pub set_desc: Seq<char>,
    /// The index of the set.
    pub set_index: u32,
    /// The number of members of the set.
    pub num_members: u32,
    /// The lowest `x` at which the set is valid.
    pub x_min: u64,
    /// The highest `x` at which the set is valid.
    pub x_max: u64,
    /// The lowest `Q` at which the set is valid.
    pub q_min: u64,
    /// The highest `Q` at which the set is valid.
    pub q_max: u64,
    /// The PDG ids of the flavors in the set.
    pub flavors: Seq<i32>,
    /// The format of the data.
    pub format: Seq<char>,
    /// The `Q` values of the table of the strong coupling.
    pub alphas_q_values: Seq<u64>,
    /// The values of the strong coupling at those `Q`.
    pub alphas_vals: Seq<u64>,
    /// Whether the hadron is polarised.
    pub polarised: bool,
    /// The kind of set.
    pub set_type: SetType,
    /// The interpolation that the set asks for.
    pub interpolator_type: InterpolatorType,
    /// How the members of the set express its error.
    pub error_type: Seq<char>,
    /// The PDG id of the hadron.
    pub hadron_pid: i32,
    /// The git version of the code that wrote the set.
    pub git_version: Seq<char>,
    /// The version of the code that wrote the set.
    pub code_version: Seq<char>,
    /// The scheme for heavy flavors.
    pub flavor_scheme: Seq<char>,
    /// The number of QCD loops in the evolution.
    pub order_qcd: u32,
    /// The number of QCD loops in the strong coupling.
    pub alphas_order_qcd: u32,
    /// The mass of the W boson.
    pub m_w: u64,
    /// The mass of the Z boson.
    pub m_z: u64,
    /// The mass of the up quark.
    pub m_up: u64,
    /// The mass of the down quark.
    pub m_down: u64,
    /// The mass of the strange quark.
    pub m_strange: u64,
    /// The mass of the charm quark.
    pub m_charm: u64,
    /// The mass of the bottom quark.
    pub m_bottom: u64,
    /// The mass of the top quark.
    pub m_top: u64,
    /// How the strong coupling is computed.
    pub alphas_type: Seq<char>,
    /// The number of active flavors.
    pub number_flavors: u32,
}

/// What a record of the second schema says: the fields that it shares with
/// the first schema, and its own.
pub struct MetaDataV2View {
    /// The fields shared with the first schema.
    pub common: MetaDataV1View,
    /// The lowest xi at which the set is valid.
    pub xi_min: u64,
    /// The highest xi at which the set is valid.
    pub xi_max: u64,
    /// The lowest delta at which the set is valid.
    pub delta_min: u64,
    /// The highest delta at which the set is valid.
    pub delta_max: u64,
}

impl MetaDataV1View {
    /// The same record in the second schema, where xi spans `[1, 1]` and
    /// delta spans `[0, 0]`: the set has neither axis.
    pub open spec fn upgraded(self) -> MetaDataV2View {
        MetaDataV2View { common: self, xi_min: ONE, xi_max: ONE, delta_min: ZERO, delta_max: ZERO }
    }
}

impl MetaDataV2View {
    /// Whether xi spans `[1, 1]` and delta spans `[0, 0]`.
    pub open spec fn is_neutral(self) -> bool {
        self.xi_min == ONE && self.xi_max == ONE && self.delta_min == ZERO && self.delta_max
            == ZERO
    }

    /// Whether the record shows use of the second schema: an end of the range
    /// of xi or delta is further from zero than `1e-10`, or the interpolation
    /// is the one that only the second schema knows.
    pub open spec fn is_extended(self) -> bool {
        ||| lt(UNSET_BELOW, magnitude(self.xi_min))
        ||| lt(UNSET_BELOW, magnitude(self.xi_max))
        ||| lt(UNSET_BELOW, magnitude(self.delta_min))
        ||| lt(UNSET_BELOW, magnitude(self.delta_max))
        ||| self.common.interpolator_type == InterpolatorType::LogFourCubic
    }
}

impl View for MetaDataV1 {
    type V = MetaDataV1View;

    open spec fn view(&self) -> MetaDataV1View {
        MetaDataV1View {
            set_desc: self.set_desc@,
            set_index: self.set_index,
            num_members: self.num_members,
            x_min: self.x_min,
            x_max: self.x_max,
            q_min: self.q_min,
            q_max: self.q_max,
            flavors: self.flavors@,
            format: self.format@,
            alphas_q_values: self.alphas_q_values@,
            alphas_vals: self.alphas_vals@,
            polarised: self.polarised,
            set_type: self.set_type,
            interpolator_type: self.interpolator_type,
            error_type: self.error_type@,
            hadron_pid: self.hadron_pid,
            git_version: self.git_version@,
            code_version: self.code_version@,
            flavor_scheme: self.flavor_scheme@,
            order_qcd: self.order_qcd,
            alphas_order_qcd: self.alphas_order_qcd,
            m_w: self.m_w,
            m_z: self.m_z,
            m_up: self.m_up,
            m_down: self.m_down,
            m_strange: self.m_strange,
            m_charm: self.m_charm,
            m_bottom: self.m_bottom,
            m_top: self.m_top,
            alphas_type: self.alphas_type@,
            number_flavors: self.number_flavors,
        }
    }
}

impl View for MetaDataV2 {
    type V = MetaDataV2View;

    open spec fn view(&self) -> MetaDataV2View {
        MetaDataV2View {
            common: MetaDataV1View {
                set_desc: self.set_desc@,
                set_index: self.set_index,
                num_members: self.num_members,
                x_min: self.x_min,
                x_max: self.x_max,
                q_min: self.q_min,
                q_max: self.q_max,
                flavors: self.flavors@,
                format: self.format@,
                alphas_q_values: self.alphas_q_values@,
                alphas_vals: self.alphas_vals@,
                polarised: self.polarised,
                set_type: self.set_type,
                interpolator_type: self.interpolator_type,
                error_type: self.error_type@,
                hadron_pid: self.hadron_pid,
                git_version: self.git_version@,
                code_version: self.code_version@,
                flavor_scheme: self.flavor_scheme@,
                order_qcd: self.order_qcd,
                alphas_order_qcd: self.alphas_order_qcd,
                m_w: self.m_w,
                m_z: self.m_z,
                m_up: self.m_up,
                m_down: self.m_down,
                m_strange: self.m_strange,
                m_charm: self.m_charm,
                m_bottom: self.m_bottom,
                m_top: self.m_top,
                alphas_type: self.alphas_type@,
                number_flavors: self.number_flavors,
            },
            xi_min: self.xi_min,
            xi_max: self.xi_max,
            delta_min: self.delta_min,
            delta_max: self.delta_max,
        }
    }
}

impl Clone for MetaDataV1 {
    fn clone(&self) -> (r: Self)
        ensures
            r@ == self@,
    {
        MetaDataV1 {
            set_desc: self.set_desc.clone(),
            set_index: self.set_index,
            num_members: self.num_members,
            x_min: self.x_min,
            x_max: self.x_max,
            q_min: self.q_min,
            q_max: self.q_max,
            flavors: self.flavors.clone(),
            format: self.format.clone(),
            alphas_q_values: self.alphas_q_values.clone(),
            alphas_vals: self.alphas_vals.clone(),
            polarised: self.polarised,
            set_type: self.set_type,
            interpolator_type: self.interpolator_type,
            error_type: self.error_type.clone(),
            hadron_pid: self.hadron_pid,
            git_version: self.git_version.clone(),
            code_version: self.code_version.clone(),
            flavor_scheme: self.flavor_scheme.clone(),
            order_qcd: self.order_qcd,
            alphas_order_qcd: self.alphas_order_qcd,
            m_w: self.m_w,
            m_z: self.m_z,
            m_up: self.m_up,
            m_down: self.m_down,
            m_strange: self.m_strange,
            m_charm: self.m_charm,
            m_bottom: self.m_bottom,
            m_top: self.m_top,
            alphas_type: self.alphas_type.clone(),
            number_flavors: self.number_flavors,
        }
    }
}

impl Clone for MetaDataV2 {
    fn clone(&self) -> (r: Self)
        ensures
            r@ == self@,
    {
        MetaDataV2 {
            set_desc: self.set_desc.clone(),
            set_index: self.set_index,
            num_members: self.num_members,
            x_min: self.x_min,
            x_max: self.x_max,
            q_min: self.q_min,
            q_max: self.q_max,
            flavors: self.flavors.clone(),
            format: self.format.clone(),
            alphas_q_values: self.alphas_q_values.clone(),
            alphas_vals: self.alphas_vals.clone(),
            polarised: self.polarised,
            set_type: self.set_type,
            interpolator_type: self.interpolator_type,
            error_type: self.error_type.clone(),
            hadron_pid: self.hadron_pid,
            git_version: self.git_version.clone(),
            code_version: self.code_version.clone(),
            flavor_scheme: self.flavor_scheme.clone(),
            order_qcd: self.order_qcd,
            alphas_order_qcd: self.alphas_order_qcd,
            m_w: self.m_w,
            m_z: self.m_z,
            m_up: self.m_up,
            m_down: self.m_down,
            m_strange: self.m_strange,
            m_charm: self.m_charm,
            m_bottom: self.m_bottom,
            m_top: self.m_top,
            alphas_type: self.alphas_type.clone(),
            number_flavors: self.number_flavors,
            xi_min: self.xi_min,
            xi_max: self.xi_max,
            delta_min: self.delta_min,
            delta_max: self.delta_max,
        }
    }
}

impl MetaDataV2 {
    /// The record of the first schema in the second, where xi spans `[1, 1]`
    /// and delta spans `[0, 0]`: what `From` gives.
    pub open spec fn upgraded(v1: MetaDataV1) -> MetaDataV2 {
        MetaDataV2 {
            set_desc: v1.set_desc,
            set_index: v1.set_index,
            num_members: v1.num_members,
            x_min: v1.x_min,
            x_max: v1.x_max,
            q_min: v1.q_min,
            q_max: v1.q_max,
            flavors: v1.flavors,
            format: v1.format,
            alphas_q_values: v1.alphas_q_values,
            alphas_vals: v1.alphas_vals,
            polarised: v1.polarised,
            set_type: v1.set_type,
            interpolator_type: v1.interpolator_type,
            error_type: v1.error_type,
            hadron_pid: v1.hadron_pid,
            git_version: v1.git_version,
            code_version: v1.code_version,
            flavor_scheme: v1.flavor_scheme,
            order_qcd: v1.order_qcd,
            alphas_order_qcd: v1.alphas_order_qcd,
            m_w: v1.m_w,
            m_z: v1.m_z,
            m_up: v1.m_up,
            m_down: v1.m_down,
            m_strange: v1.m_strange,
            m_charm: v1.m_charm,
            m_bottom: v1.m_bottom,
            m_top: v1.m_top,
            alphas_type: v1.alphas_type,
            number_flavors: v1.number_flavors,
            xi_min: ONE,
            xi_max: ONE,
            delta_min: ZERO,
            delta_max: ZERO,
        }
    }

    /// The record in the first schema: the ranges of xi and delta are dropped.
    pub fn to_v1(&self) -> (r: MetaDataV1)
        ensures
            r@ == self@.common,
    {
        MetaDataV1 {
            set_desc: self.set_desc.clone(),
            set_index: self.set_index,
            num_members: self.num_members,
            x_min: self.x_min,
            x_max: self.x_max,
            q_min: self.q_min,
            q_max: self.q_max,
            flavors: self.flavors.clone(),
            format: self.format.clone(),
            alphas_q_values: self.alphas_q_values.clone(),
            alphas_vals: self.alphas_vals.clone(),
            polarised: self.polarised,
            set_type: self.set_type,
            interpolator_type: self.interpolator_type,
            error_type: self.error_type.clone(),
            hadron_pid: self.hadron_pid,
            git_version: self.git_version.clone(),
            code_version: self.code_version.clone(),
            flavor_scheme: self.flavor_scheme.clone(),
            order_qcd: self.order_qcd,
            alphas_order_qcd: self.alphas_order_qcd,
            m_w: self.m_w,
            m_z: self.m_z,
            m_up: self.m_up,
            m_down: self.m_down,
            m_strange: self.m_strange,
            m_charm: self.m_charm,
            m_bottom: self.m_bottom,
            m_top: self.m_top,
            alphas_type: self.alphas_type.clone(),
            number_flavors: self.number_flavors,
        }
    }

    /// Whether the record shows use of the second schema.
    pub fn is_extended(&self) -> (r: bool)
        ensures
            r == self@.is_extended(),
    {
        lt(UNSET_BELOW, magnitude(self.xi_min)) || lt(UNSET_BELOW, magnitude(self.xi_max)) || lt(
            UNSET_BELOW,
            magnitude(self.delta_min),
        ) || lt(UNSET_BELOW, magnitude(self.delta_max)) || match self.interpolator_type {
            InterpolatorType::LogFourCubic => true,
            _ => false,
        }
    }
}

impl From<MetaDataV1> for MetaDataV2 {
    /// The record in the second schema, where xi spans `[1, 1]` and delta
    /// spans `[0, 0]`.
    fn from(v1: MetaDataV1) -> (r: Self) {
        Self {
            set_desc: v1.set_desc,
            set_index: v1.set_index,
            num_members: v1.num_members,
            x_min: v1.x_min,
            x_max: v1.x_max,
            q_min: v1.q_min,
            q_max: v1.q_max,
            flavors: v1.flavors,
            format: v1.format,
            alphas_q_values: v1.alphas_q_values,
            alphas_vals: v1.alphas_vals,
            polarised: v1.polarised,
            set_type: v1.set_type,
            interpolator_type: v1.interpolator_type,
            error_type: v1.error_type,
            hadron_pid: v1.hadron_pid,
            git_version: v1.git_version,
            code_version: v1.code_version,
            flavor_scheme: v1.flavor_scheme,
            order_qcd: v1.order_qcd,
            alphas_order_qcd: v1.alphas_order_qcd,
            m_w: v1.m_w,
            m_z: v1.m_z,
            m_up: v1.m_up,
            m_down: v1.m_down,
            m_strange: v1.m_strange,
            m_charm: v1.m_charm,
            m_bottom: v1.m_bottom,
            m_top: v1.m_top,
            alphas_type: v1.alphas_type,
            number_flavors: v1.number_flavors,
            xi_min: ONE,
            xi_max: ONE,
            delta_min: ZERO,
            delta_max: ZERO,
        }
    }
}

impl FromSpecImpl<MetaDataV1> for MetaDataV2 {
    open spec fn obeys_from_spec() -> bool {
        true
    }

    open spec fn from_spec(v1: MetaDataV1) -> MetaDataV2 {
        MetaDataV2::upgraded(v1)
    }
}

/// A record in either schema.
#[derive(Debug)]
pub enum MetaData {
    V2(MetaDataV2),
    V1(MetaDataV1),
}

impl Clone for MetaData {
    fn clone(&self) -> (r: Self)
        ensures
            r.is_v2_spec() == self.is_v2_spec(),
            r.v1_view() == self.v1_view(),
            r.v2_view() == self.v2_view(),
    {
        match self {
            MetaData::V1(data) => MetaData::V1(data.clone()),
            MetaData::V2(data) => MetaData::V2(data.clone()),
        }
    }
}

impl MetaData {
    /// What the record says in the first schema.
    pub open spec fn v1_view(&self) -> MetaDataV1View {
        match self {
            MetaData::V1(data) => data@,
            MetaData::V2(data) => data@.common,
        }
    }

    /// What the record says in the second schema.
    pub open spec fn v2_view(&self) -> MetaDataV2View {
        match self {
            MetaData::V1(data) => data@.upgraded(),
            MetaData::V2(data) => data@,
        }
    }

    /// Whether the record is held in the second schema.
    pub open spec fn is_v2_spec(&self) -> bool {
        self is V2
    }

    /// Holds a record of the first schema.
    pub fn new_v1(data: MetaDataV1) -> (r: Self)
        ensures
            r == MetaData::V1(data),
    {
        Self::V1(data)
    }

    /// Holds a record of the second schema.
    pub fn new_v2(data: MetaDataV2) -> (r: Self)
        ensures
            r == MetaData::V2(data),
    {
        Self::V2(data)
    }

    /// Holds a record of the first schema.
    pub fn current_v1(data: MetaDataV1) -> (r: Self)
        ensures
            r == MetaData::V1(data),
    {
        Self::V1(data)
    }

    /// Holds a record of the second schema.
    pub fn current_v2(data: MetaDataV2) -> (r: Self)
        ensures
            r == MetaData::V2(data),
    {
        Self::V2(data)
    }

    /// Decides in which schema to hold a record that was read against the
    /// second: in the second where it shows use of it, else in the first,
    /// without the ranges of xi and delta.
    ///
    /// A record written in the second schema with both ranges within `1e-10`
    /// of zero and another interpolation than `LogFourCubic` cannot be told
    /// from one of the first schema, and is held as one.
    pub fn from_record(v2: MetaDataV2) -> (r: Self)
        ensures
            v2@.is_extended() ==> r == MetaData::V2(v2),
            !v2@.is_extended() ==> r is V1 && r->V1_0@ == v2@.common,
    {
        if v2.is_extended() {
            MetaData::V2(v2)
        } else {
            MetaData::V1(
                MetaDataV1 {
                set_desc: v2.set_desc,
                set_index: v2.set_index,
                num_members: v2.num_members,
                x_min: v2.x_min,
                x_max: v2.x_max,
                q_min: v2.q_min,
                q_max: v2.q_max,
                flavors: v2.flavors,
                format: v2.format,
                alphas_q_values: v2.alphas_q_values,
                alphas_vals: v2.alphas_vals,
                polarised: v2.polarised,
                set_type: v2.set_type,
                interpolator_type: v2.interpolator_type,
                error_type: v2.error_type,
                hadron_pid: v2.hadron_pid,
                git_version: v2.git_version,
                code_version: v2.code_version,
                flavor_scheme: v2.flavor_scheme,
                order_qcd: v2.order_qcd,
                alphas_order_qcd: v2.alphas_order_qcd,
                m_w: v2.m_w,
                m_z: v2.m_z,
                m_up: v2.m_up,
                m_down: v2.m_down,
                m_strange: v2.m_strange,
                m_charm: v2.m_charm,
                m_bottom: v2.m_bottom,
                m_top: v2.m_top,
                alphas_type: v2.alphas_type,
                number_flavors: v2.number_flavors,
                },
            )
        }
    }

    /// A copy of the record in the first schema.
    pub fn as_latest(&self) -> (r: MetaDataV1)
        ensures
            r@ == self.v1_view(),
    {
        match self {
            MetaData::V1(data) => data.clone(),
            MetaData::V2(data) => data.to_v1(),
        }
    }

    /// A copy of the record in the second schema.
    pub fn as_latest_v2(&self) -> (r: MetaDataV2)
        ensures
            r@ == self.v2_view(),
    {
        match self {
            MetaData::V1(data) => MetaDataV2::from(data.clone()),
            MetaData::V2(data) => data.clone(),
        }
    }

    /// Whether the record is held in the second schema.
    #[verifier::when_used_as_spec(is_v2_spec)]
    pub fn is_v2(&self) -> (r: bool)
        ensures
            r == (self is V2),
    {
        match self {
            MetaData::V1(_) => false,
            MetaData::V2(_) => true,
        }
    }

    /// The interpolation that the set asks for.
    pub fn interpolator_type(&self) -> (r: &InterpolatorType)
        ensures
            *r == self.v1_view().interpolator_type,
    {
        match self {
            MetaData::V1(data) => &data.interpolator_type,
            MetaData::V2(data) => &data.interpolator_type,
        }
    }

    /// The description of the set.
    pub fn set_desc(&self) -> (r: &str)
        ensures
            r@ == self.v1_view().set_desc,
    {
        match self {
            MetaData::V1(data) => data.set_desc.as_str(),
            MetaData::V2(data) => data.set_desc.as_str(),
        }
    }

    /// The `Q` values of the table of the strong coupling.
    pub fn alphas_q_values(&self) -> (r: &[u64])
        ensures
            r@ == self.v1_view().alphas_q_values,
    {
        match self {
            MetaData::V1(data) => data.alphas_q_values.as_slice(),
            MetaData::V2(data) => data.alphas_q_values.as_slice(),
        }
    }

    /// The values of the strong coupling at those `Q`.
    pub fn alphas_vals(&self) -> (r: &[u64])
        ensures
            r@ == self.v1_view().alphas_vals,
    {
        match self {
            MetaData::V1(data) => data.alphas_vals.as_slice(),
            MetaData::V2(data) => data.alphas_vals.as_slice(),
        }
    }

    /// The number of QCD loops in the strong coupling.
    pub fn alphas_order_qcd(&self) -> (r: u32)
        ensures
            r == self.v1_view().alphas_order_qcd,
    {
        match self {
            MetaData::V1(data) => data.alphas_order_qcd,
            MetaData::V2(data) => data.alphas_order_qcd,
        }
    }

    /// The mass of the Z boson.
    pub fn m_z(&self) -> (r: u64)
        ensures
            r == self.v1_view().m_z,
    {
        match self {
            MetaData::V1(data) => data.m_z,
            MetaData::V2(data) => data.m_z,
        }
    }

    /// The masses of the quarks: up, down, strange, charm, bottom, top.
    pub fn quark_masses(&self) -> (r: (u64, u64, u64, u64, u64, u64))
        ensures
            r == (
                self.v1_view().m_up,
                self.v1_view().m_down,
                self.v1_view().m_strange,
                self.v1_view().m_charm,
                self.v1_view().m_bottom,
                self.v1_view().m_top,
            ),
    {
        match self {
            MetaData::V1(data) => (
                data.m_up,
                data.m_down,
                data.m_strange,
                data.m_charm,
                data.m_bottom,
                data.m_top,
            ),
            MetaData::V2(data) => (
                data.m_up,
                data.m_down,
                data.m_strange,
                data.m_charm,
                data.m_bottom,
                data.m_top,
            ),
        }
    }

    /// How the strong coupling is computed.
    pub fn alphas_type(&self) -> (r: &str)
        ensures
            r@ == self.v1_view().alphas_type,
    {
        match self {
            MetaData::V1(data) => data.alphas_type.as_str(),
            MetaData::V2(data) => data.alphas_type.as_str(),
        }
    }

    /// The record itself, for code that reads the fields of the first schema
    /// directly. Only a record held in the first schema can be read so.
    pub fn deref(&self) -> (r: &MetaDataV1)
        requires
            self is V1,
        ensures
            *r == self->V1_0,
    {
        match self {
            MetaData::V1(data) => data,
            MetaData::V2(_) => unreached(),
        }
    }

    /// The record itself, for code that writes the fields of the first schema
    /// directly. Only a record held in the first schema can be written so.
    pub fn deref_mut(&mut self) -> (r: &mut MetaDataV1)
        requires
            *old(self) is V1,
        ensures
            *r == (*old(self))->V1_0,
            *final(self) == MetaData::V1(*final(r)),
    {
        match self {
            MetaData::V1(data) => data,
            MetaData::V2(_) => unreached(),
        }
    }
}

/// A record of the first schema, taken to the second and back, says what it
/// said.
pub proof fn lemma_upgrade_loses_nothing(v1: MetaDataV1)
    ensures
        MetaDataV2::upgraded(v1)@ == v1@.upgraded(),
        MetaDataV2::upgraded(v1)@.common == v1@,
{
}

/// A record of the second schema, taken to the first and back, says what it
/// said exactly where it had neither xi nor delta.
pub proof fn lemma_downgrade_loses_the_extension_only(v2: MetaDataV2View)
    ensures
        v2.common.upgraded() == v2 <==> v2.is_neutral(),
{
}

/// A record that was taken from the first schema to the second shows use of
/// the second, since its xi spans `[1, 1]`: read back, it stays in the second
/// schema, and still says in the first what it said.
pub proof fn lemma_upgraded_record_is_extended(v1: MetaDataV1View)
    ensures
        v1.upgraded().is_extended(),
        v1.upgraded().is_neutral(),
{
}

/// A record whose ranges of xi and delta are all `0.0`, as they read where
/// the input leaves them out, is held in the first schema unless it asks for
/// the interpolation of the second.
pub proof fn lemma_unset_record_is_not_extended(v2: MetaDataV2View)
    requires
        v2.xi_min == ZERO,
        v2.xi_max == ZERO,
        v2.delta_min == ZERO,
        v2.delta_max == ZERO,
    ensures
        v2.is_extended() <==> v2.common.interpolator_type == InterpolatorType::LogFourCubic,
{
}

} // verus!

//! The dimensionality classes of a subgrid.
//!
//! `x` and `Q²` are always interpolated. Each of the five optional axes
//! (nucleons, alphas, xi, delta, kT) is active where it holds more than one
//! coordinate. Thirteen of the thirty-two patterns of active axes have a class;
//! the others are rejected.

use vstd::prelude::*;

verus! {

/// Which of the optional axes hold more than one coordinate.
#[derive(Clone, Copy, Debug, PartialEq, Eq, Structural)]
pub struct ActiveAxes {
    pub nucleons: bool,
    pub alphas: bool,
    pub xi: bool,
    pub delta: bool,
    pub kt: bool,
}

/// A pattern of active axes that no class stands for.
#[derive(Clone, Copy, Debug, PartialEq, Eq, Structural)]
pub struct UnsupportedAxes {
    pub axes: ActiveAxes,
}

/// The class of interpolation that a subgrid asks for.
#[derive(Clone, Copy, Debug, PartialEq, Eq, Structural)]
pub enum InterpolationConfig {
    /// `x`, `Q²`.
    TwoD,
    /// Nucleons, `x`, `Q²`.
    ThreeDNucleons,
    /// Alphas, `x`, `Q²`.
    ThreeDAlphas,
    /// Xi, `x`, `Q²`.
    ThreeDXi,
    /// Delta, `x`, `Q²`.
    ThreeDDelta,
    /// kT, `x`, `Q²`.
    ThreeDKt,
    /// Nucleons, alphas, `x`, `Q²`.
    FourDNucleonsAlphas,
    /// Nucleons, kT, `x`, `Q²`.
    FourDNucleonsKt,
    /// Alphas, kT, `x`, `Q²`.
    FourDAlphasKt,
    /// Xi, delta, `x`, `Q²`.
    FourDXiDelta,
    /// Xi, delta, kT, `x`, `Q²`.
    FiveD,
    /// Nucleons, xi, delta, kT, `x`, `Q²`.
    SixD,
    /// Nucleons, alphas, xi, delta, kT, `x`, `Q²`.
    SevenD,
}

impl ActiveAxes {
    /// The pattern of five axes with the given numbers of coordinates.
    pub open spec fn of_lengths(
        nucleons: int,
        alphas: int,
        xis: int,
        deltas: int,
        kts: int,
    ) -> ActiveAxes {
        ActiveAxes {
            nucleons: nucleons > 1,
            alphas: alphas > 1,
            xi: xis > 1,
            delta: deltas > 1,
            kt: kts > 1,
        }
    }

    /// How many of the five axes are active.
    pub open spec fn count(self) -> nat {
        let n: nat = if self.nucleons { 1 } else { 0 };
        let a: nat = if self.alphas { 1 } else { 0 };
        let x: nat = if self.xi { 1 } else { 0 };
        let d: nat = if self.delta { 1 } else { 0 };
        let k: nat = if self.kt { 1 } else { 0 };
        n + a + x + d + k
    }
}

impl InterpolationConfig {
    /// The optional axes that a class interpolates over.
    pub open spec fn axes(self) -> ActiveAxes {
        let off = ActiveAxes { nucleons: false, alphas: false, xi: false, delta: false, kt: false };
        match self {
            InterpolationConfig::TwoD => off,
            InterpolationConfig::ThreeDNucleons => ActiveAxes { nucleons: true, ..off },
            InterpolationConfig::ThreeDAlphas => ActiveAxes { alphas: true, ..off },
            InterpolationConfig::ThreeDXi => ActiveAxes { xi: true, ..off },
            InterpolationConfig::ThreeDDelta => ActiveAxes { delta: true, ..off },
            InterpolationConfig::ThreeDKt => ActiveAxes { kt: true, ..off },
            InterpolationConfig::FourDNucleonsAlphas => ActiveAxes {
                nucleons: true,
                alphas: true,
                ..off
            },
            InterpolationConfig::FourDNucleonsKt => ActiveAxes { nucleons: true, kt: true, ..off },
            InterpolationConfig::FourDAlphasKt => ActiveAxes { alphas: true, kt: true, ..off },
            InterpolationConfig::FourDXiDelta => ActiveAxes { xi: true, delta: true, ..off },
            InterpolationConfig::FiveD => ActiveAxes { xi: true, delta: true, kt: true, ..off },
            InterpolationConfig::SixD => ActiveAxes {
                nucleons: true,
                xi: true,
                delta: true,
                kt: true,
                ..off
            },
            InterpolationConfig::SevenD => ActiveAxes {
                nucleons: true,
                alphas: true,
                xi: true,
                delta: true,
                kt: true,
            },
        }
    }

    /// The number of axes that a class interpolates over, `x` and `Q²` included.
    pub open spec fn dimensions(self) -> nat {
        2 + self.axes().count()
    }

    /// The class of a pattern of active axes: the one that interpolates over
    /// exactly these axes, if there is one.
    pub open spec fn classify(axes: ActiveAxes) -> Result<InterpolationConfig, UnsupportedAxes> {
        if exists|c: InterpolationConfig| c.axes() == axes {
            Ok(choose|c: InterpolationConfig| c.axes() == axes)
        } else {
            Err(UnsupportedAxes { axes })
        }
    }

    /// Classifies a subgrid by the numbers of coordinates on its five optional
    /// axes. An axis with more than one coordinate is active. A pattern without
    /// a class is returned as the error.
    pub fn from_dimensions(
        n_nucleons: usize,
        n_alphas: usize,
        n_xis: usize,
        n_deltas: usize,
        n_kts: usize,
    ) -> (r: Result<InterpolationConfig, UnsupportedAxes>)
        ensures
            r == Self::classify(
                ActiveAxes::of_lengths(
                    n_nucleons as int,
                    n_alphas as int,
                    n_xis as int,
                    n_deltas as int,
                    n_kts as int,
                ),
            ),
            r matches Ok(c) ==> c.axes() == ActiveAxes::of_lengths(
                n_nucleons as int,
                n_alphas as int,
                n_xis as int,
                n_deltas as int,
                n_kts as int,
            ),
    {
        let axes = ActiveAxes {
            nucleons: n_nucleons > 1,
            alphas: n_alphas > 1,
            xi: n_xis > 1,
            delta: n_deltas > 1,
            kt: n_kts > 1,
        };
        let r = match (axes.nucleons, axes.alphas, axes.xi, axes.delta, axes.kt) {
            (false, false, false, false, false) => Ok(InterpolationConfig::TwoD),
            (true, false, false, false, false) => Ok(InterpolationConfig::ThreeDNucleons),
            (false, true, false, false, false) => Ok(InterpolationConfig::ThreeDAlphas),
            (false, false, true, false, false) => Ok(InterpolationConfig::ThreeDXi),
            (false, false, false, true, false) => Ok(InterpolationConfig::ThreeDDelta),
            (false, false, false, false, true) => Ok(InterpolationConfig::ThreeDKt),
            (true, true, false, false, false) => Ok(InterpolationConfig::FourDNucleonsAlphas),
            (true, false, false, false, true) => Ok(InterpolationConfig::FourDNucleonsKt),
            (false, true, false, false, true) => Ok(InterpolationConfig::FourDAlphasKt),
            (false, false, true, true, false) => Ok(InterpolationConfig::FourDXiDelta),
            (false, false, true, true, true) => Ok(InterpolationConfig::FiveD),
            (true, false, true, true, true) => Ok(InterpolationConfig::SixD),
            (true, true, true, true, true) => Ok(InterpolationConfig::SevenD),
            _ => Err(UnsupportedAxes { axes }),
        };
        proof {
            lemma_classification(axes);
        }
        r
    }
}

/// The table of classes, pattern by pattern: thirteen patterns have a class,
/// which interpolates over exactly the active axes; each of the other nineteen
/// is rejected with the pattern itself.
pub proof fn lemma_classification(axes: ActiveAxes)
    ensures
        InterpolationConfig::classify(axes) == match (
            axes.nucleons,
            axes.alphas,
            axes.xi,
            axes.delta,
            axes.kt,
        ) {
            (false, false, false, false, false) => Ok(InterpolationConfig::TwoD),
            (true, false, false, false, false) => Ok(InterpolationConfig::ThreeDNucleons),
            (false, true, false, false, false) => Ok(InterpolationConfig::ThreeDAlphas),
            (false, false, true, false, false) => Ok(InterpolationConfig::ThreeDXi),
            (false, false, false, true, false) => Ok(InterpolationConfig::ThreeDDelta),
            (false, false, false, false, true) => Ok(InterpolationConfig::ThreeDKt),
            (true, true, false, false, false) => Ok(InterpolationConfig::FourDNucleonsAlphas),
            (true, false, false, false, true) => Ok(InterpolationConfig::FourDNucleonsKt),
            (false, true, false, false, true) => Ok(InterpolationConfig::FourDAlphasKt),
            (false, false, true, true, false) => Ok(InterpolationConfig::FourDXiDelta),
            (false, false, true, true, true) => Ok(InterpolationConfig::FiveD),
            (true, false, true, true, true) => Ok(InterpolationConfig::SixD),
            (true, true, true, true, true) => Ok(InterpolationConfig::SevenD),
            _ => Err(UnsupportedAxes { axes }),
        },
        InterpolationConfig::classify(axes) matches Ok(c) ==> c.axes() == axes && c.dimensions()
            == 2 + axes.count(),
        InterpolationConfig::classify(axes) matches Err(e) ==> e.axes == axes,
{
    let witness = match (axes.nucleons, axes.alphas, axes.xi, axes.delta, axes.kt) {
        (true, false, false, false, false) => InterpolationConfig::ThreeDNucleons,
        (false, true, false, false, false) => InterpolationConfig::ThreeDAlphas,
        (false, false, true, false, false) => InterpolationConfig::ThreeDXi,
        (false, false, false, true, false) => InterpolationConfig::ThreeDDelta,
        (false, false, false, false, true) => InterpolationConfig::ThreeDKt,
        (true, true, false, false, false) => InterpolationConfig::FourDNucleonsAlphas,
        (true, false, false, false, true) => InterpolationConfig::FourDNucleonsKt,
        (false, true, false, false, true) => InterpolationConfig::FourDAlphasKt,
        (false, false, true, true, false) => InterpolationConfig::FourDXiDelta,
        (false, false, true, true, true) => InterpolationConfig::FiveD,
        (true, false, true, true, true) => InterpolationConfig::SixD,
        (true, true, true, true, true) => InterpolationConfig::SevenD,
        _ => InterpolationConfig::TwoD,
    };
    if witness.axes() == axes {
        let chosen = choose|c: InterpolationConfig| c.axes() == axes;
        assert(chosen.axes() == axes);
    } else {
        assert forall|c: InterpolationConfig| c.axes() != axes by {}
    }
}

/// Every class is the class of its own axes: no two classes share a pattern.
pub proof fn lemma_class_of_axes(c: InterpolationConfig)
    ensures
        InterpolationConfig::classify(c.axes()) == Ok::<InterpolationConfig, UnsupportedAxes>(c),
{
    lemma_classification(c.axes());
}

} // verus!

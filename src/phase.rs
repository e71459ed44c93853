use vstd::prelude::*;
use crate::bifurcation::Sign;

verus! {

/// Bifurcations of phase-plane analysis.
#[derive(Debug, Clone, Copy, PartialEq, Eq, Structural)]
pub enum BifurcationType {
    /// Saddle-node (fold).
    SaddleNode,
    Transcritical,
    Pitchfork,
    /// Hopf, supercritical or subcritical.
    Hopf { supercritical: bool },
    PeriodDoubling,
    LimitPointCycles,
    /// Torus (Neimark-Sacker).
    Torus,
}

/// Classification of a fixed point by the eigenvalues of its Jacobian.
#[derive(Debug, Clone, Copy, PartialEq, Eq, Structural)]
pub enum FixedPointType {
    StableNode,
    UnstableNode,
    StableFocus,
    UnstableFocus,
    Saddle,
    Center,
    Unknown,
}

/// What fixed-point classification reads of one eigenvalue.
#[derive(Debug, Clone, Copy, PartialEq, Eq, Structural)]
pub struct FixedPointEigen {
    /// Sign of the real part.
    pub real_sign: Sign,
    /// The real part is below 1e-10 in magnitude.
    pub real_negligible: bool,
    /// The imaginary part is below 1e-10 in magnitude.
    pub imag_negligible: bool,
}

pub open spec fn spec_classify(eigs: Seq<FixedPointEigen>) -> FixedPointType {
    let any_zero = exists|i: int| 0 <= i < eigs.len() && #[trigger] eigs[i].real_negligible;
    let all_real = forall|i: int| 0 <= i < eigs.len() ==> #[trigger] eigs[i].imag_negligible;
    let all_negative = forall|i: int|
        0 <= i < eigs.len() ==> #[trigger] eigs[i].real_sign == Sign::Negative;
    let all_positive = forall|i: int|
        0 <= i < eigs.len() ==> #[trigger] eigs[i].real_sign == Sign::Positive;
    if any_zero {
        FixedPointType::Center
    } else if all_negative {
        if all_real {
            FixedPointType::StableNode
        } else {
            FixedPointType::StableFocus
        }
    } else if all_positive {
        if all_real {
            FixedPointType::UnstableNode
        } else {
            FixedPointType::UnstableFocus
        }
    } else {
        FixedPointType::Saddle
    }
}

/// Classifies a fixed point: an eigenvalue on the imaginary axis makes it a
/// center; otherwise all real parts negative make it stable, all positive
/// unstable, mixed signs a saddle, and it is a node when every eigenvalue is
/// real and a focus when not.
pub fn classify_fixed_point(eigs: &Vec<FixedPointEigen>) -> (r: FixedPointType)
    ensures
        r == spec_classify(eigs@),
{
    let n = eigs.len();
    let mut any_zero = false;
    let mut all_real = true;
    let mut all_negative = true;
    let mut all_positive = true;
    let mut i: usize = 0;
    while i < n
        invariant
            n == eigs@.len(),
            i <= n,
            any_zero == exists|j: int| 0 <= j < i && #[trigger] eigs@[j].real_negligible,
            all_real == forall|j: int| 0 <= j < i ==> #[trigger] eigs@[j].imag_negligible,
            all_negative == forall|j: int|
                0 <= j < i ==> #[trigger] eigs@[j].real_sign == Sign::Negative,
            all_positive == forall|j: int|
                0 <= j < i ==> #[trigger] eigs@[j].real_sign == Sign::Positive,
        decreases n - i,
    {
        let e = eigs[i];
        if e.real_negligible {
            any_zero = true;
        }
        if !e.imag_negligible {
            all_real = false;
        }
        if e.real_sign != Sign::Negative {
            all_negative = false;
        }
        if e.real_sign != Sign::Positive {
            all_positive = false;
        }
        i += 1;
    }
    if any_zero {
        FixedPointType::Center
    } else if all_negative {
        if all_real {
            FixedPointType::StableNode
        } else {
            FixedPointType::StableFocus
        }
    } else if all_positive {
        if all_real {
            FixedPointType::UnstableNode
        } else {
            FixedPointType::UnstableFocus
        }
    } else {
        FixedPointType::Saddle
    }
}

} // verus!

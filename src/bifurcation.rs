use vstd::prelude::*;

verus! {

/// Kinds of special points on a continuation branch.
#[derive(Debug, Clone, Copy, PartialEq, Eq, Structural)]
pub enum BifurcationType {
    /// A regular point.
    Regular,
    /// Saddle-node: fold or limit point.
    SaddleNode,
    Transcritical,
    Pitchfork,
    /// Hopf: birth of a limit cycle.
    Hopf,
    /// Period doubling (flip).
    PeriodDoubling,
    /// Torus (Neimark-Sacker).
    Torus,
    /// Branch point: several solutions meet.
    BranchPoint,
    /// Limit point of cycles.
    LimitPointCycle,
    /// User-defined zero.
    UserZero,
}

/// The sign of a real number; a value that is neither below nor above zero
/// (zero itself, or no number at all) counts as `Zero`.
#[derive(Debug, Clone, Copy, PartialEq, Eq, Structural)]
pub enum Sign {
    Negative,
    Zero,
    Positive,
}

/// What stability classification and bifurcation detection read of one
/// eigenvalue.
#[derive(Debug, Clone, Copy, PartialEq, Eq, Structural)]
pub struct EigenSummary {
    /// Sign of the real part.
    pub real_sign: Sign,
    /// The imaginary part is below 1e-6 in magnitude.
    pub imag_small: bool,
    /// The imaginary part is above 1e-6 in magnitude.
    pub imag_large: bool,
}

pub open spec fn opposite_signs(a: Sign, b: Sign) -> bool {
    (a == Sign::Negative && b == Sign::Positive) || (a == Sign::Positive && b == Sign::Negative)
}

/// What one rank-paired couple of eigenvalues shows: a real eigenvalue whose
/// real part changed sign is a saddle-node, a complex one a Hopf point.
pub open spec fn pair_verdict(prev: EigenSummary, curr: EigenSummary) -> Option<BifurcationType> {
    if opposite_signs(prev.real_sign, curr.real_sign) && prev.imag_small && curr.imag_small {
        Some(BifurcationType::SaddleNode)
    } else if opposite_signs(prev.real_sign, curr.real_sign) && prev.imag_large {
        Some(BifurcationType::Hopf)
    } else {
        None
    }
}

/// The verdict of the first couple from rank `i` on that shows anything.
pub open spec fn first_verdict(prev: Seq<EigenSummary>, curr: Seq<EigenSummary>, i: int) -> Option<
    BifurcationType,
>
    decreases prev.len() - i,
{
    if i >= prev.len() || i < 0 {
        None
    } else if pair_verdict(prev[i], curr[i]) is Some {
        pair_verdict(prev[i], curr[i])
    } else {
        first_verdict(prev, curr, i + 1)
    }
}

/// The bifurcation between two points, from their eigenvalues ranked by
/// descending real part; lists of different lengths show none.
pub open spec fn spec_detect(prev: Seq<EigenSummary>, curr: Seq<EigenSummary>) -> Option<
    BifurcationType,
> {
    if prev.len() != curr.len() {
        None
    } else {
        first_verdict(prev, curr, 0)
    }
}

/// Compares the eigenvalues of two consecutive points, each list ranked by
/// descending real part, couple by couple, and reports the first crossing.
pub fn detect_bifurcation(prev: &Vec<EigenSummary>, curr: &Vec<EigenSummary>) -> (r: Option<
    BifurcationType,
>)
    ensures
        r == spec_detect(prev@, curr@),
{
    if prev.len() != curr.len() {
        return None;
    }
    let n = prev.len();
    let mut i: usize = 0;
    while i < n
        invariant
            n == prev@.len() == curr@.len(),
            i <= n,
            first_verdict(prev@, curr@, 0) == first_verdict(prev@, curr@, i as int),
        decreases n - i,
    {
        let p = prev[i];
        let c = curr[i];
        let crossed = (p.real_sign == Sign::Negative && c.real_sign == Sign::Positive) || (
        p.real_sign == Sign::Positive && c.real_sign == Sign::Negative);
        if crossed && p.imag_small && c.imag_small {
            return Some(BifurcationType::SaddleNode);
        }
        if crossed && p.imag_large {
            return Some(BifurcationType::Hopf);
        }
        i += 1;
    }
    None
}

pub open spec fn spec_stable(eigs: Seq<EigenSummary>) -> bool {
    forall|i: int| 0 <= i < eigs.len() ==> #[trigger] eigs[i].real_sign == Sign::Negative
}

/// A point is stable when every eigenvalue has a negative real part.
pub fn is_stable(eigs: &Vec<EigenSummary>) -> (r: bool)
    ensures
        r == spec_stable(eigs@),
{
    let mut i: usize = 0;
    while i < eigs.len()
        invariant
            i <= eigs@.len(),
            forall|j: int| 0 <= j < i ==> #[trigger] eigs@[j].real_sign == Sign::Negative,
        decreases eigs.len() - i,
    {
        if eigs[i].real_sign != Sign::Negative {
            return false;
        }
        i += 1;
    }
    true
}

proof fn lemma_no_verdict_from(prev: Seq<EigenSummary>, curr: Seq<EigenSummary>, i: int)
    requires
        prev.len() == curr.len(),
        spec_stable(prev),
        spec_stable(curr),
    ensures
        first_verdict(prev, curr, i) is None,
    decreases prev.len() - i,
{
    if 0 <= i < prev.len() {
        assert(prev[i].real_sign == Sign::Negative);
        assert(curr[i].real_sign == Sign::Negative);
        lemma_no_verdict_from(prev, curr, i + 1);
    }
}

/// No bifurcation is reported between two stable points: every real part is
/// negative at both, so none changes sign.
pub proof fn lemma_stable_points_show_no_bifurcation(
    prev: Seq<EigenSummary>,
    curr: Seq<EigenSummary>,
)
    requires
        spec_stable(prev),
        spec_stable(curr),
    ensures
        spec_detect(prev, curr) is None,
{
    if prev.len() == curr.len() {
        lemma_no_verdict_from(prev, curr, 0);
    }
}

} // verus!

use vstd::prelude::*;

verus! {

/// Fold (saddle-node) normal form: dx/dt = mu - x^2.
#[derive(Debug, Clone, Copy)]
pub struct FoldNormalForm;

/// Hopf normal form: dx/dt = mu x - y - x (x^2 + y^2),
/// dy/dt = x + mu y - y (x^2 + y^2).
#[derive(Debug, Clone, Copy)]
pub struct HopfNormalForm;

/// Pitchfork normal form: dx/dt = mu x - x^3.
#[derive(Debug, Clone, Copy)]
pub struct PitchforkNormalForm;

impl FoldNormalForm {
    /// Dimension of the state space.
    pub fn dim(&self) -> (r: usize)
        ensures
            r == 1,
    {
        1
    }
}

impl HopfNormalForm {
    /// Dimension of the state space.
    pub fn dim(&self) -> (r: usize)
        ensures
            r == 2,
    {
        2
    }
}

impl PitchforkNormalForm {
    /// Dimension of the state space.
    pub fn dim(&self) -> (r: usize)
        ensures
            r == 1,
    {
        1
    }
}

} // verus!

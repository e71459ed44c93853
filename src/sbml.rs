use vstd::prelude::*;

verus! {

/// SBML level and version.
#[derive(Debug, Clone, Copy, PartialEq, Eq, Structural)]
pub struct SbmlVersion {
    pub level: u8,
    pub version: u8,
}

impl Default for SbmlVersion {
    /// Level 3, version 2.
    fn default() -> (r: Self)
        ensures
            r.level == 3,
            r.version == 2,
    {
        SbmlVersion { level: 3, version: 2 }
    }
}

/// Base units of SBML unit definitions.
#[derive(Debug, Clone, Copy, PartialEq, Eq, Structural)]
pub enum UnitKind {
    Mole,
    Litre,
    Second,
    Metre,
    Kilogram,
    Item,
    Dimensionless,
}

/// An algebraic constraint: `variable = expression`.
#[derive(Debug, Clone)]
pub struct AssignmentRule {
    pub variable: String,
    pub expression: String,
}

/// A differential equation: `d(variable)/dt = expression`.
#[derive(Debug, Clone)]
pub struct RateRule {
    pub variable: String,
    pub expression: String,
}

/// One assignment that an event performs when it fires.
#[derive(Debug, Clone)]
pub struct EventAssignment {
    pub variable: String,
    pub expression: String,
}

/// How a biochemical model is simulated.
#[derive(Debug, Clone, Copy, PartialEq, Eq, Structural)]
pub enum SimulationMethod {
    /// Deterministic ODE integration.
    Deterministic,
    /// Exact stochastic simulation.
    Stochastic,
    /// Adaptive switching between the two.
    Hybrid,
    /// Approximate stochastic simulation by tau-leaping.
    TauLeaping,
}

} // verus!

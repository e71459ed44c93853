use vstd::prelude::*;

verus! {

/// Errors of spiking-network model definitions.
#[derive(Debug, Clone)]
pub enum BrianError {
    ParseError(String),
    SimulationError(String),
    EquationError(String),
    UnitError { expected: String, got: String },
}

/// The condition under which a neuron spikes, such as `v > v_thresh`.
#[derive(Debug, Clone)]
pub struct ThresholdCondition {
    pub condition: String,
}

/// The statements run after a spike, such as `v = v_reset`.
#[derive(Debug, Clone)]
pub struct ResetEquations {
    pub equations: Vec<String>,
}

/// Integration schemes for neuron equations.
#[derive(Debug, Clone, Copy, PartialEq, Eq, Structural)]
pub enum IntegrationMethod {
    Euler,
    /// For linear equations.
    ExponentialEuler,
    RungeKutta2,
    RungeKutta4,
    Heun,
    /// For stochastic equations.
    Milstein,
    /// For equations with a closed-form solution.
    ExactSolution,
}

} // verus!

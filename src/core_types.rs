use vstd::prelude::*;

verus! {

/// The legacy simulators whose models this library serves.
#[derive(Debug, Clone, Copy, PartialEq, Eq, Hash, Structural)]
pub enum Simulator {
    Genesis,
    Xppaut,
    Auto,
    ModelDB,
    Neuron,
    Brian,
}

/// std's I/O error, carried unread in `OldiesError::IoError`; nothing of its
/// contents is assumed.
#[verifier::external_type_specification]
#[verifier::external_body]
pub struct ExIoError(std::io::Error);

/// Errors shared by the simulator front ends and importers.
#[derive(Debug)]
pub enum OldiesError {
    ParseError(String),
    SimulationError(String),
    ModelNotFound(String),
    IoError(std::io::Error),
    NumericalError(String),
}

} // verus!

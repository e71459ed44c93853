use vstd::prelude::*;

verus! {

/// Kinds of NMODL mechanisms.
#[derive(Debug, Clone, Copy, PartialEq, Eq, Structural)]
pub enum MechanismType {
    /// Density mechanism, per membrane area.
    Suffix,
    PointProcess,
    ArtificialCell,
}

/// A `USEION` declaration: the ion, the quantities read and written, and the
/// valence if given.
#[derive(Debug, Clone)]
pub struct UseIon {
    pub ion: String,
    pub read: Vec<String>,
    pub write: Vec<String>,
    pub valence: Option<i32>,
}

} // verus!

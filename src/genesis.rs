use vstd::prelude::*;

verus! {

/// Kinds of GENESIS elements.
#[derive(Debug, Clone)]
pub enum ElementType {
    Compartment,
    NaChannel,
    KChannel,
    CaChannel,
    Synapse,
    SpikeGen,
    Recorder,
    /// A container.
    Neutral,
    Custom(String),
}

/// A connection from a field of one element to a field of another.
#[derive(Debug, Clone)]
pub struct Message {
    pub source: String,
    pub source_field: String,
    pub dest: String,
    pub dest_field: String,
    pub msg_type: String,
}

} // verus!

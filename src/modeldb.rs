use vstd::prelude::*;
use crate::core_types::OldiesError;

verus! {

/// The simulator a published model was written for.
#[derive(Debug, Clone, Copy, PartialEq, Eq, Structural)]
pub enum ModelType {
    Genesis,
    Neuron,
    Brian,
    Nest,
    Custom,
}

/// Metadata of one model of the model database.
#[derive(Debug, Clone)]
pub struct ModelEntry {
    pub id: u32,
    pub name: String,
    /// Citation of the paper that published the model.
    pub citation: String,
    pub model_type: ModelType,
    pub keywords: Vec<String>,
    pub regions: Vec<String>,
    pub cell_types: Vec<String>,
}

pub open spec fn is_parse_error(r: Result<(), OldiesError>) -> bool {
    r matches Err(OldiesError::ParseError(_))
}

/// Imports a GENESIS script. No script is understood yet: every input is
/// refused with a parse error.
pub fn parse_genesis_script(_content: &str) -> (r: Result<(), OldiesError>)
    ensures
        is_parse_error(r),
{
    Err(OldiesError::ParseError("GENESIS script import is not supported".to_owned()))
}

/// Imports a NEURON HOC file. No file is understood yet: every input is
/// refused with a parse error.
pub fn parse_hoc_file(_content: &str) -> (r: Result<(), OldiesError>)
    ensures
        is_parse_error(r),
{
    Err(OldiesError::ParseError("HOC file import is not supported".to_owned()))
}

/// Imports an NMODL mechanism file. No file is understood yet: every input is
/// refused with a parse error.
pub fn parse_nmodl(_content: &str) -> (r: Result<(), OldiesError>)
    ensures
        is_parse_error(r),
{
    Err(OldiesError::ParseError("NMODL file import is not supported".to_owned()))
}

} // verus!

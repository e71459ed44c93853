//! Numerical continuation and bifurcation analysis for parametrised equilibria,
//! together with the plain data types shared by the simulator front ends.
//!
//! The floating-point engine (linear solves, eigenvalues, Newton corrections)
//! runs outside this crate; the decisions it takes between those computations
//! (when to stop, when to grow the step, which bifurcation a pair of eigenvalue
//! sets shows, how a fixed point is classified, which stretches of a branch are
//! stable) are made and proved here.

mod bifurcation;
mod blocks;
mod control;
mod core_types;
mod genesis;
mod modeldb;
mod newton;
mod nmodl;
mod nodes;
mod normal_forms;
mod sbml;
mod segments;
mod spiking;
mod stats;

pub mod catalog;
pub mod phase;

pub use bifurcation::{
    detect_bifurcation, is_stable, BifurcationType, EigenSummary, Sign,
};
pub use blocks::diagonal_blocks;
pub use control::{ArclengthRun, NaturalRun, RetryDecision};
pub use core_types::{OldiesError, Simulator};
pub use genesis::{ElementType, Message};
pub use modeldb::{parse_genesis_script, parse_hoc_file, parse_nmodl, ModelEntry, ModelType};
pub use newton::NewtonCount;
pub use nmodl::{MechanismType, UseIon};
pub use nodes::{all_to_all_pairs, one_to_one_pairs, NestError, NodeCollection};
pub use normal_forms::{FoldNormalForm, HopfNormalForm, PitchforkNormalForm};
pub use sbml::{AssignmentRule, EventAssignment, RateRule, SbmlVersion, SimulationMethod, UnitKind};
pub use segments::stable_segments;
pub use spiking::{BrianError, IntegrationMethod, ResetEquations, ThresholdCondition};
pub use stats::ComputationStats;

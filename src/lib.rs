//! A two-sample permutation test over group labels.
//!
//! The library holds the integer side of the test: the label assignment that
//! each worker reshuffles, the per-worker tally of exceedances, the reduction
//! of those tallies, the tail correction, and the classification of the
//! resulting p-value, which is kept as an exact fraction of trials.
pub mod engine;
pub mod labels;
pub mod pvalue;
pub mod sampler;

pub use engine::{check_samples, total_exceedances, worker_seed, EngineConfig, SampleError};
pub use labels::{Group, LabelAssignment};
pub use pvalue::{p_value, Evidence, PValue};
pub use sampler::Worker;

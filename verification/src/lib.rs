//! Validation, normalization and error rules of a WSL distribution manager.
use vstd::prelude::*;

pub mod text;
pub mod error;
pub mod model;
pub mod distro_policy;
pub mod aggregation;
pub mod storage;
pub mod install;
pub mod command_error;
pub mod dto;
pub mod filesystem;
pub mod settings;
pub mod metadata;
pub mod overview;
pub mod relocation;
pub mod launch;

verus! {

} // verus!

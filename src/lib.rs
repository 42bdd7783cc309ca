//! Orchestration core of a multi-tenant smart-contract playground: workspace
//! layout, command sequencing for build, deploy and invoke, and recovery of
//! structured facts from the toolchain's free-form output.
use vstd::prelude::*;

pub mod compile;
pub mod deploy;
pub mod extract;
pub mod invoke;
pub mod json;
pub mod models;
pub mod text;
pub mod workspace;

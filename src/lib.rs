//! Orchestration of a calibrated HDR pipeline for fisheye sky photographs: the order and
//! inputs of its stages, the choice of informative exposures, and the run over one or
//! many scenes.
use vstd::prelude::*;

pub mod errors;
pub mod exposure;
pub mod formats;
pub mod header;
pub mod run;
pub mod stages;
pub mod text;
pub mod tools;


//! Library core of `fjx`: PTP framing, D185 development profiles, recipes,
//! project configuration and the camera conversion protocol.
use vstd::prelude::*;

pub mod text;
pub mod profile;
pub mod fuji;
pub mod ptp;
pub mod recipes;
pub mod glob_match;
pub mod config;
pub mod analyse;
pub mod cli;

verus! {

} // verus!

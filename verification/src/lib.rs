use vstd::prelude::*;

pub mod bench;
pub mod check;
pub mod config;
pub mod flap;
pub mod json;
pub mod laws;
pub mod process;
pub mod project;
pub mod protocol;
pub mod report;
pub mod server;
pub mod session;
pub mod stage_actions;
pub mod text;
pub mod vnic;

verus! {

/// The build profile a test run is made for.
#[derive(Debug, Clone, Copy, PartialEq, Eq)]
pub enum Version {
    Debug,
    Release,
}

} // verus!

//! Per-group options of the bot's modules.
use vstd::prelude::*;

pub mod log;

verus! {

/// Which modules are on.
#[allow(non_camel_case_types)]
#[derive(Debug, Clone, Copy, PartialEq, Eq, Structural)]
pub struct modules_options {
    pub log: bool,
}

} // verus!

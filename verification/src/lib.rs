pub mod json;
pub mod messages;
pub mod parse;
pub mod validate;

pub use messages::compose_diagnostic;
pub use parse::{deserialize_config, parse_config};
pub use validate::validate_config;

use vstd::prelude::*;

verus! {

/// A validated configuration for the object mover: how many transfers may run
/// at once and the byte-size ceiling for a single object. Both counts are
/// strictly positive once validation has passed.
#[derive(Debug, Clone, Copy, PartialEq, Eq, Structural)]
pub struct MoverConfig {
    pub mc_nmax_transfers: u32,
    pub mc_nmax_object_size: u64,
}

/// The semantic constraint that validation enforces on a structurally
/// well-formed candidate: neither count may be zero.
pub open spec fn config_valid(c: MoverConfig) -> bool {
    c.mc_nmax_transfers != 0 && c.mc_nmax_object_size != 0
}

} // verus!

//! The semantic validator: a structurally well-formed candidate is promoted
//! to a configuration unchanged, or rejected by the first rule it breaks.
//! The rules are checked in declaration order — the transfer count before the
//! object size — and validation stops at the first failure.

use crate::messages::{zero_size_msg, zero_transfers_msg};
use crate::{config_valid, MoverConfig};
use vstd::prelude::*;
use vstd::string::StringExecFns;

verus! {

/// What validation decides for a candidate: the candidate itself when both
/// counts are positive, else the message of the first rule it breaks.
pub open spec fn validation_outcome(c: MoverConfig) -> Result<MoverConfig, Seq<char>> {
    if c.mc_nmax_transfers == 0 {
        Err(zero_transfers_msg())
    } else if c.mc_nmax_object_size == 0 {
        Err(zero_size_msg())
    } else {
        Ok(c)
    }
}

/// Checks the two semantic rules on a candidate, in declaration order, and
/// returns it unchanged when both hold.
pub fn validate_config(c: MoverConfig) -> (r: Result<MoverConfig, String>)
    ensures
        r matches Ok(k) ==> validation_outcome(c) == Result::<MoverConfig, Seq<char>>::Ok(k),
        r matches Err(m) ==> (validation_outcome(c) matches Err(d) && m@ == d),
        r is Ok <==> config_valid(c),
{
    if c.mc_nmax_transfers == 0 {
        Err(String::from_str("nMaxTransfers cannot be zero"))
    } else if c.mc_nmax_object_size == 0 {
        Err(String::from_str("nMaxObjectSize cannot be zero"))
    } else {
        Ok(c)
    }
}

/// When both counts are zero, only the transfer-count rule fires: validation
/// short-circuits in declaration order, and the object-size message is never
/// the one reported.
pub proof fn lemma_validation_short_circuits(c: MoverConfig)
    requires
        c.mc_nmax_transfers == 0,
    ensures
        validation_outcome(c) == Result::<MoverConfig, Seq<char>>::Err(zero_transfers_msg()),
{
}

} // verus!

use vstd::prelude::*;

use crate::error::SrtError;

verus! {

/// A concrete socket address: an IPv4 address as its 32-bit number, or an
/// IPv6 address as its 128-bit number with its flow label and scope.
#[derive(Clone, Copy, Debug, PartialEq, Eq, Structural)]
pub enum SrtSocketAddr {
    V4 { ip: u32, port: u16 },
    V6 { ip: u128, port: u16, flowinfo: u32, scope_id: u32 },
}

/// The address that a list of resolved candidates stands for: the first one.
/// No candidate means the specification did not resolve.
pub open spec fn first_candidate_spec(candidates: Seq<SrtSocketAddr>) -> Result<
    SrtSocketAddr,
    SrtError,
> {
    if candidates.len() == 0 {
        Err(SrtError::AddressResolutionFailed)
    } else {
        Ok(candidates[0])
    }
}

/// Picks the address to use out of the resolved candidates: the first one,
/// never a trial of the others.
pub fn first_candidate(candidates: &Vec<SrtSocketAddr>) -> (r: Result<SrtSocketAddr, SrtError>)
    ensures
        r == first_candidate_spec(candidates@),
{
    if candidates.len() == 0 {
        Err(SrtError::AddressResolutionFailed)
    } else {
        Ok(candidates[0])
    }
}

} // verus!

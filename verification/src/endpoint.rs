//! Resolved server addresses as plain values.

use vstd::prelude::*;

verus! {

/// A resolved UDP destination: the address of one server and its port.
#[derive(Clone, Copy, Debug, PartialEq, Eq)]
pub enum Endpoint {
    /// An IPv4 address and port.
    V4 { octets: [u8; 4], port: u16 },
    /// An IPv6 address and port, with the flow label and scope of the address.
    V6 { segments: [u16; 8], port: u16, flow_info: u32, scope_id: u32 },
}

/// The endpoint that a resolution yields: the first candidate, if there is one.
pub open spec fn chosen_endpoint(candidates: Seq<Endpoint>) -> Option<Endpoint> {
    if candidates.len() > 0 {
        Some(candidates[0])
    } else {
        None
    }
}

/// Picks the endpoint to query among the candidates that a resolver returned.
pub fn choose_endpoint(candidates: &Vec<Endpoint>) -> (chosen: Option<Endpoint>)
    ensures
        chosen == chosen_endpoint(candidates@),
{
    if candidates.len() > 0 {
        Some(candidates[0])
    } else {
        None
    }
}

} // verus!

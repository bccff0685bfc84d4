use vstd::prelude::*;

verus! {

/// Identity of the call target: which chain and which upstream provider the
/// remote endpoint should use. The adapter never inspects it beyond copying
/// it verbatim into the prepared call.
#[derive(Clone, Copy, Debug, PartialEq, Eq, Structural)]
pub struct RpcService {
    pub chain_id: u64,
    pub provider_id: u64,
}

impl RpcService {
    /// Build a service descriptor for the given chain and provider.
    pub fn new(chain_id: u64, provider_id: u64) -> (s: Self)
        ensures
            s == (RpcService { chain_id, provider_id }),
    {
        RpcService { chain_id, provider_id }
    }
}

} // verus!

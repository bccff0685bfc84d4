use crate::estimate::{estimate_response_size, spec_estimate, MAX_ESTIMATED_BATCH_LEN};
use crate::packet::{spec_wire_form, RequestPacket};
use crate::service::RpcService;
use vstd::prelude::*;

verus! {

/// Prepaid cycle budget attached to a call when no override is configured.
pub const DEFAULT_CALL_CYCLES: u128 = 60_000_000_000;

/// Configuration for a transport: the call target, plus optional overrides
/// for the cycle budget and the response-size cap. An override, when present,
/// is used verbatim; no magnitude is validated.
#[derive(Clone, Copy, Debug)]
pub struct IcpConfig {
    pub rpc_service: RpcService,
    pub call_cycles: Option<u128>,
    pub max_response_size: Option<u64>,
}

impl IcpConfig {
    /// Create a config with the given call target and no overrides.
    pub fn new(rpc_service: RpcService) -> (c: Self)
        ensures
            c == (IcpConfig { rpc_service, call_cycles: None, max_response_size: None }),
    {
        IcpConfig { rpc_service, call_cycles: None, max_response_size: None }
    }

    /// Set the cycle budget override for this config.
    pub fn set_call_cycles(self, call_cycles: u128) -> (c: Self)
        ensures
            c == (IcpConfig { call_cycles: Some(call_cycles), ..self }),
    {
        IcpConfig { call_cycles: Some(call_cycles), ..self }
    }

    /// Set the response-size cap override for this config.
    pub fn set_max_response_size(self, max_response_size: u64) -> (c: Self)
        ensures
            c == (IcpConfig { max_response_size: Some(max_response_size), ..self }),
    {
        IcpConfig { max_response_size: Some(max_response_size), ..self }
    }
}

/// A transport bound to one call target, with the same optional overrides as
/// its config. It holds no other state: every call it prepares is an
/// independent unit of work.
#[derive(Clone, Copy, Debug)]
pub struct IcpTransport {
    pub rpc_service: RpcService,
    pub call_cycles: Option<u128>,
    pub max_response_size: Option<u64>,
}

/// Everything the caller must hand to the metered call mechanism for one
/// request packet: the target, the wire-form payload, and the resolved
/// response-size cap and cycle budget.
#[derive(Clone, Debug)]
pub struct CallPlan {
    pub rpc_service: RpcService,
    pub payload: String,
    pub max_response_size: u64,
    pub call_cycles: u128,
}

impl IcpTransport {
    /// Create a transport carrying every field of the config over verbatim.
    pub fn with_config(config: IcpConfig) -> (t: Self)
        ensures
            t == (IcpTransport {
                rpc_service: config.rpc_service,
                call_cycles: config.call_cycles,
                max_response_size: config.max_response_size,
            }),
    {
        IcpTransport {
            rpc_service: config.rpc_service,
            call_cycles: config.call_cycles,
            max_response_size: config.max_response_size,
        }
    }

    /// Set the call target for this transport.
    pub fn set_rpc_service(&mut self, rpc_service: RpcService)
        ensures
            *final(self) == (IcpTransport { rpc_service, ..*old(self) }),
    {
        self.rpc_service = rpc_service;
    }

    /// Get a reference to the call target.
    pub fn rpc_service(&self) -> (s: &RpcService)
        ensures
            *s == self.rpc_service,
    {
        &self.rpc_service
    }

    /// Set the cycle budget override for this transport.
    pub fn set_call_cycles(&mut self, call_cycles: u128)
        ensures
            *final(self) == (IcpTransport { call_cycles: Some(call_cycles), ..*old(self) }),
    {
        self.call_cycles = Some(call_cycles);
    }

    /// Get the cycle budget override, if one is set.
    pub fn call_cycles(&self) -> (c: Option<u128>)
        ensures
            c == self.call_cycles,
    {
        self.call_cycles
    }

    /// Set the response-size cap override for this transport.
    pub fn set_max_response_size(&mut self, max_response_size: u64)
        ensures
            *final(self) == (IcpTransport {
                max_response_size: Some(max_response_size),
                ..*old(self)
            }),
    {
        self.max_response_size = Some(max_response_size);
    }

    /// Get the response-size cap override, if one is set.
    pub fn max_response_size(&self) -> (m: Option<u64>)
        ensures
            m == self.max_response_size,
    {
        self.max_response_size
    }

    /// Whether the call target is local: always false for the defined targets.
    pub fn is_local(&self) -> (b: bool)
        ensures
            b == false,
    {
        false
    }

    /// Advisory response-size estimate for a packet, from the per-method tier
    /// table. Consulted only when no explicit cap is configured.
    pub fn estimate_max_response_size(&self, request_packet: &RequestPacket) -> (n: u64)
        requires
            request_packet matches RequestPacket::Batch(rs)
                ==> rs@.len() <= MAX_ESTIMATED_BATCH_LEN,
        ensures
            n as int == spec_estimate(*request_packet),
    {
        estimate_response_size(request_packet)
    }

    /// Resolve the parameters of the one external call for a packet: the
    /// explicit response-size cap if one is configured — the estimator is not
    /// consulted then, whatever the packet holds — else the packet's estimate;
    /// the configured cycle budget, else the default; and the packet's wire
    /// form, passed along with the target taken verbatim from this transport.
    pub fn prepare_call(&self, request_packet: &RequestPacket) -> (plan: CallPlan)
        requires
            self.max_response_size is None ==> (request_packet matches RequestPacket::Batch(rs)
                ==> rs@.len() <= MAX_ESTIMATED_BATCH_LEN),
        ensures
            plan.rpc_service == self.rpc_service,
            plan.payload@ == spec_wire_form(*request_packet),
            self.max_response_size matches Some(cap) ==> plan.max_response_size == cap,
            self.max_response_size is None ==> plan.max_response_size as int == spec_estimate(
                *request_packet,
            ),
            self.call_cycles matches Some(cycles) ==> plan.call_cycles == cycles,
            self.call_cycles is None ==> plan.call_cycles == DEFAULT_CALL_CYCLES,
    {
        let max_response_size: u64 = match self.max_response_size {
            Some(cap) => cap,
            None => estimate_response_size(request_packet),
        };
        let call_cycles: u128 = match self.call_cycles {
            Some(cycles) => cycles,
            None => DEFAULT_CALL_CYCLES,
        };
        CallPlan {
            rpc_service: self.rpc_service,
            payload: request_packet.serialize(),
            max_response_size,
            call_cycles,
        }
    }
}

} // verus!

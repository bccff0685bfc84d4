//! A transport adapter that bridges JSON-RPC request/response packets to a
//! metered, call-based execution environment: every outbound call must declare
//! in advance a maximum acceptable response size and a prepaid cycle budget.
//!
//! The adapter resolves sane defaults for those two parameters when the caller
//! has not supplied them (a per-method size table and a fixed cycle default),
//! serializes the packet into its wire form, and translates the three failure
//! domains of a call (local encoding, call-mechanism rejection, remote
//! application error) into one uniform error type.
//!
//! The asynchronous call itself belongs to the caller: this crate prepares the
//! call (`IcpTransport::prepare_call`) and interprets its outcome
//! (`handle_outcome`); the code that owns the runtime performs the single call
//! in between, with no retry, timeout or queue at this layer. A caller that
//! abandons the work between the two steps drops it locally only: the remote
//! side may have executed, and may bill, regardless.

mod estimate;
mod outcome;
mod packet;
mod rpc_error;
mod service;
mod transport;

pub use estimate::{
    estimate_response_size, lemma_batch_estimate_bounds, lemma_batch_estimate_concat,
    lemma_batch_estimate_permutation, method_tier, spec_batch_estimate,
    spec_estimate, spec_is_medium_method, spec_is_small_method, spec_tier,
    MAX_ESTIMATED_BATCH_LEN, MAX_RESPONSE_SIZE_MEDIUM, MAX_RESPONSE_SIZE_SMALL,
    MAX_RESPONSE_SIZE_UNKNOWN,
};
pub use outcome::{
    handle_outcome, spec_parses_as_response, MechanismError, RequestResult,
    APPLICATION_RPC_ERROR_CODE,
};
pub use packet::{spec_joined_bodies, spec_wire_form, RequestPacket, SerializedRequest};
pub use rpc_error::{
    spec_decimal, spec_digit_char, spec_i64_decimal, spec_rendered_rpc_error, RpcError,
    TransportError,
};
pub use service::RpcService;
pub use transport::{CallPlan, IcpConfig, IcpTransport, DEFAULT_CALL_CYCLES};

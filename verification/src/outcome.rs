use crate::rpc_error::{spec_rendered_rpc_error, RpcError, TransportError};
use vstd::prelude::*;

verus! {

/// Application-level outcome of a completed call, as the remote endpoint
/// reports it: a success payload, or a structured application error. The
/// call mechanism's own failure is orthogonal and reported separately.
#[derive(Clone, Debug)]
pub enum RequestResult {
    /// The endpoint returned a success payload: the response text.
    Success(String),
    /// The endpoint returned a structured application error.
    ApplicationError(RpcError),
}

/// Rejection by the call mechanism itself, before any application-level
/// outcome exists: a numeric reject code and a message.
#[derive(Clone, Debug)]
pub struct MechanismError {
    pub code: i64,
    pub message: String,
}

/// Sentinel code placed on every application-level RPC error.
pub const APPLICATION_RPC_ERROR_CODE: i64 = 6;

/// Declares `alloy_json_rpc::ResponsePacket`, the typed response envelope the
/// decoded payload is handed back as; opaque to this crate.
#[verifier::external_type_specification]
#[verifier::external_body]
#[verifier::reject_recursive_types(Payload)]
#[verifier::reject_recursive_types(ErrData)]
pub struct ExResponsePacket<Payload, ErrData>(alloy_json_rpc::ResponsePacket<Payload, ErrData>);

/// Declares `serde_json::value::RawValue`, the raw payload type inside the
/// default response envelope; opaque to this crate.
#[verifier::external_type_specification]
#[verifier::external_body]
pub struct ExRawValue(serde_json::value::RawValue);

/// Whether the text parses as a JSON-RPC response envelope, single or batch.
/// `serde_json::from_str`'s outcome is a function of the input text alone.
pub uninterp spec fn spec_parses_as_response(s: Seq<char>) -> bool;

/// Relies on `serde_json::from_str` with `alloy_json_rpc::ResponsePacket`'s
/// `Deserialize` impl: parses the text into a response envelope, succeeding
/// or failing as a function of the text alone. On failure the parse error's
/// rendered text is handed back.
#[verifier::external_body]
fn decode_response(s: &str) -> (r: Result<alloy_json_rpc::ResponsePacket, String>)
    ensures
        r is Ok <==> spec_parses_as_response(s@),
{
    serde_json::from_str(s).map_err(|e| e.to_string())
}

/// Interpret the outcome of the one external call: a success payload is
/// decoded into a response envelope, a payload that does not parse becomes a
/// decoding error carrying the raw string, a structured application error
/// becomes the sentinel-coded application error with its rendered text, and
/// a mechanism rejection keeps its code and message verbatim.
pub fn handle_outcome(outcome: Result<RequestResult, MechanismError>) -> (r: Result<
    alloy_json_rpc::ResponsePacket,
    TransportError,
>)
    ensures
        outcome matches Ok(RequestResult::Success(s)) ==> (r is Ok <==> spec_parses_as_response(
            s@,
        )),
        outcome matches Ok(RequestResult::Success(s)) ==> (!spec_parses_as_response(s@) ==> (
        r matches Err(TransportError::Decoding { message: _, raw }) && raw@ == s@)),
        outcome matches Ok(RequestResult::ApplicationError(e)) ==> (r matches Err(
            TransportError::ApplicationRpc { code, message },
        ) && code == APPLICATION_RPC_ERROR_CODE && message@ == spec_rendered_rpc_error(e)),
        outcome matches Err(m) ==> (r matches Err(
            TransportError::MechanismRejection { code, message },
        ) && code == m.code && message@ == m.message@),
{
    match outcome {
        Ok(RequestResult::Success(s)) => match decode_response(s.as_str()) {
            Ok(packet) => Ok(packet),
            Err(message) => Err(TransportError::Decoding { message, raw: s }),
        },
        Ok(RequestResult::ApplicationError(e)) => {
            let message = e.rendered();
            Err(TransportError::ApplicationRpc { code: APPLICATION_RPC_ERROR_CODE, message })
        },
        Err(m) => Err(TransportError::MechanismRejection { code: m.code, message: m.message }),
    }
}

} // verus!

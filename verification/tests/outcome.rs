use icp_transport::{
    handle_outcome, MechanismError, RequestResult, RpcError, TransportError,
    APPLICATION_RPC_ERROR_CODE,
};

#[test]
fn valid_single_envelope_decodes() {
    let text = "{\"jsonrpc\":\"2.0\",\"id\":1,\"result\":\"0x1\"}".to_string();
    let r = handle_outcome(Ok(RequestResult::Success(text)));
    let packet = r.expect("a valid envelope must decode");
    assert!(matches!(packet, alloy_json_rpc::ResponsePacket::Single(_)));
}

#[test]
fn valid_batch_envelope_decodes() {
    let text = "[{\"jsonrpc\":\"2.0\",\"id\":1,\"result\":\"0x1\"},\
                {\"jsonrpc\":\"2.0\",\"id\":2,\"result\":null}]"
        .to_string();
    let r = handle_outcome(Ok(RequestResult::Success(text)));
    let packet = r.expect("a valid batch envelope must decode");
    assert!(matches!(packet, alloy_json_rpc::ResponsePacket::Batch(_)));
}

#[test]
fn invalid_payload_becomes_decoding_error_with_raw_text() {
    let r = handle_outcome(Ok(RequestResult::Success("not valid json".to_string())));
    match r {
        Err(TransportError::Decoding { raw, message }) => {
            assert_eq!(raw, "not valid json");
            assert!(!message.is_empty());
        }
        other => panic!("expected a decoding error, got {other:?}"),
    }
}

#[test]
fn mechanism_rejection_keeps_code_and_message_verbatim() {
    let m = MechanismError { code: 120, message: "out of cycles".to_string() };
    let r = handle_outcome(Err(m));
    match r {
        Err(TransportError::MechanismRejection { code, message }) => {
            assert_eq!(code, 120);
            assert_eq!(message, "out of cycles");
        }
        other => panic!("expected a mechanism rejection, got {other:?}"),
    }
}

#[test]
fn application_error_gets_the_sentinel_code() {
    let e = RpcError { code: -32000, message: "execution reverted".to_string() };
    let r = handle_outcome(Ok(RequestResult::ApplicationError(e)));
    match r {
        Err(TransportError::ApplicationRpc { code, message }) => {
            assert_eq!(code, 6);
            assert_eq!(code, APPLICATION_RPC_ERROR_CODE);
            assert_eq!(message, "rpc error (code -32000): execution reverted");
        }
        other => panic!("expected an application error, got {other:?}"),
    }
}

#[test]
fn rendered_text_holds_code_and_message() {
    let e = RpcError { code: 120, message: "no consensus".to_string() };
    assert_eq!(e.rendered(), "rpc error (code 120): no consensus");
    let e = RpcError { code: 0, message: "".to_string() };
    assert_eq!(e.rendered(), "rpc error (code 0): ");
    let e = RpcError { code: i64::MIN, message: "edge".to_string() };
    assert_eq!(e.rendered(), format!("rpc error (code {}): edge", i64::MIN));
}

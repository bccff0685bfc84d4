use icp_transport::{
    estimate_response_size, RequestPacket, SerializedRequest, MAX_RESPONSE_SIZE_MEDIUM,
    MAX_RESPONSE_SIZE_SMALL, MAX_RESPONSE_SIZE_UNKNOWN,
};

fn req(method: &str) -> SerializedRequest {
    SerializedRequest { method: method.to_string(), body: "{}".to_string() }
}

#[test]
fn single_small_method_estimates_small() {
    let p = RequestPacket::Single(req("eth_blockNumber"));
    assert_eq!(estimate_response_size(&p), 1000);
}

#[test]
fn single_medium_method_estimates_medium() {
    let p = RequestPacket::Single(req("eth_getTransactionByHash"));
    assert_eq!(estimate_response_size(&p), 2000);
}

#[test]
fn single_unknown_method_estimates_unknown() {
    let p = RequestPacket::Single(req("eth_getLogs"));
    assert_eq!(estimate_response_size(&p), 5000);
}

#[test]
fn every_small_method_estimates_small() {
    let small = [
        "eth_blockNumber",
        "eth_getBalance",
        "eth_chainId",
        "eth_estimateGas",
        "eth_gasPrice",
        "eth_getBlockTransactionCountByHash",
        "eth_getBlockTransactionCountByNumber",
        "eth_getCode",
        "eth_getProof",
        "eth_getStorageAt",
        "eth_getTransactionCount",
        "eth_getUncleCountByBlockHash",
        "eth_getUncleCountByBlockNumber",
        "eth_maxPriorityFeePerGas",
        "eth_protocolVersion",
    ];
    for m in small {
        let p = RequestPacket::Single(req(m));
        assert_eq!(estimate_response_size(&p), MAX_RESPONSE_SIZE_SMALL, "{m}");
    }
}

#[test]
fn every_medium_method_estimates_medium() {
    let medium =
        ["eth_feeHistory", "eth_getTransactionByBlockHashAndIndex", "eth_getTransactionByHash"];
    for m in medium {
        let p = RequestPacket::Single(req(m));
        assert_eq!(estimate_response_size(&p), MAX_RESPONSE_SIZE_MEDIUM, "{m}");
    }
}

#[test]
fn batch_of_two_small_sums_to_two_small() {
    let p = RequestPacket::Batch(vec![req("eth_blockNumber"), req("eth_chainId")]);
    assert_eq!(estimate_response_size(&p), 2000);
}

#[test]
fn batch_small_plus_unknown_sums_mixed() {
    let p = RequestPacket::Batch(vec![req("eth_getBalance"), req("made_up_method")]);
    assert_eq!(estimate_response_size(&p), 6000);
}

#[test]
fn batch_order_does_not_change_sum() {
    let a = RequestPacket::Batch(vec![req("eth_getBalance"), req("eth_feeHistory")]);
    let b = RequestPacket::Batch(vec![req("eth_feeHistory"), req("eth_getBalance")]);
    assert_eq!(estimate_response_size(&a), estimate_response_size(&b));
}

#[test]
fn unknown_tier_is_conservative_maximum() {
    let p = RequestPacket::Single(req(""));
    assert_eq!(estimate_response_size(&p), MAX_RESPONSE_SIZE_UNKNOWN);
}

use graph::status::{
    ChainInfo, EthereumBlock, EthereumBlockPointer, Filter, Info, SubgraphDeploymentId, SubgraphError,
    SubgraphHealth,
};
use graph::value::{i32_to_decimal, u64_to_decimal, Value};

fn s(text: &str) -> Value {
    Value::String(text.to_string())
}

fn field(name: &str, value: Value) -> (String, Value) {
    (name.to_string(), value)
}

fn hash() -> [u8; 32] {
    let mut h = [0u8; 32];
    h[0] = 0xab;
    h[1] = 0x01;
    h[31] = 0xf0;
    h
}

fn hash_hex() -> String {
    let mut t = String::from("ab01");
    for _ in 2..31 {
        t.push_str("00");
    }
    t.push_str("f0");
    t
}

#[test]
fn block_number_and_pointer() {
    let b = EthereumBlock::new(hash(), 17);
    assert_eq!(b.number(), 17);
    let ptr = b.to_ptr();
    assert_eq!(ptr, EthereumBlockPointer { hash: hash(), number: 17 });
    let b2: EthereumBlock = EthereumBlock::from(ptr);
    assert_eq!(b2.number(), 17);
    assert_eq!(EthereumBlock::from(ptr).to_ptr(), ptr);
    assert_eq!(EthereumBlock::from_ptr(ptr).to_ptr(), ptr);
}

#[test]
fn block_value() {
    let b = EthereumBlock::new(hash(), 4_000_000);
    assert_eq!(
        b.into_value(),
        Value::Object(vec![
            field("__typename", s("EthereumBlock")),
            field("hash", Value::String(hash_hex())),
            field("number", s("4000000")),
        ])
    );
}

#[test]
fn negative_block_number_value() {
    let b = EthereumBlock::from_ptr(EthereumBlockPointer { hash: [0u8; 32], number: -5 });
    let v = b.into_value();
    match v {
        Value::Object(fields) => assert_eq!(fields[2], field("number", s("-5"))),
        _ => panic!("not an object"),
    }
}

#[test]
fn hash_hex_is_lower_case_without_prefix() {
    let ptr = EthereumBlockPointer::from_hash_number(hash(), 3);
    assert_eq!(ptr.number, 3);
    assert_eq!(ptr.hash_hex(), hash_hex());
    assert_eq!(ptr.hash_hex().len(), 64);
}

#[test]
fn decimal_text() {
    assert_eq!(u64_to_decimal(0), "0");
    assert_eq!(u64_to_decimal(9), "9");
    assert_eq!(u64_to_decimal(10), "10");
    assert_eq!(u64_to_decimal(1234567890123), "1234567890123");
    assert_eq!(u64_to_decimal(u64::MAX), "18446744073709551615");
    assert_eq!(i32_to_decimal(0), "0");
    assert_eq!(i32_to_decimal(-42), "-42");
    assert_eq!(i32_to_decimal(i32::MIN), "-2147483648");
    assert_eq!(i32_to_decimal(i32::MAX), "2147483647");
}

#[test]
fn chain_info_value() {
    let c = ChainInfo {
        network: "mainnet".to_string(),
        chain_head_block: Some(EthereumBlock::new(hash(), 12)),
        earliest_block: None,
        latest_block: Some(EthereumBlock::new([0u8; 32], 0)),
    };
    let mut zeros = String::new();
    for _ in 0..32 {
        zeros.push_str("00");
    }
    assert_eq!(
        c.into_value(),
        Value::Object(vec![
            field("__typename", s("EthereumIndexingStatus")),
            field("network", s("mainnet")),
            field(
                "chainHeadBlock",
                Value::Object(vec![
                    field("__typename", s("EthereumBlock")),
                    field("hash", Value::String(hash_hex())),
                    field("number", s("12")),
                ])
            ),
            field("earliestBlock", Value::Null),
            field(
                "latestBlock",
                Value::Object(vec![
                    field("__typename", s("EthereumBlock")),
                    field("hash", Value::String(zeros)),
                    field("number", s("0")),
                ])
            ),
        ])
    );
}

fn error(block: Option<EthereumBlockPointer>, handler: Option<&str>) -> SubgraphError {
    SubgraphError {
        subgraph_id: SubgraphDeploymentId("QmTest".to_string()),
        message: "boom".to_string(),
        block_ptr: block,
        handler: handler.map(|h| h.to_string()),
        deterministic: true,
    }
}

#[test]
fn subgraph_error_value() {
    let e = error(Some(EthereumBlockPointer { hash: hash(), number: 7 }), Some("handleTransfer"));
    assert_eq!(
        e.to_value(),
        Value::Object(vec![
            field("__typename", s("SubgraphError")),
            field("subgraphId", s("QmTest")),
            field("message", s("boom")),
            field("handler", s("handleTransfer")),
            field(
                "block",
                Value::Object(vec![
                    field("__typename", s("Block")),
                    field("number", Value::Int(7)),
                    field("hash", Value::String(format!("0x{}", hash_hex()))),
                ])
            ),
            field("deterministic", Value::Boolean(true)),
        ])
    );
    let e = error(None, None);
    assert_eq!(
        e.to_value(),
        Value::Object(vec![
            field("__typename", s("SubgraphError")),
            field("subgraphId", s("QmTest")),
            field("message", s("boom")),
            field("handler", Value::Null),
            field(
                "block",
                Value::Object(vec![
                    field("__typename", s("Block")),
                    field("number", Value::Null),
                    field("hash", Value::Null),
                ])
            ),
            field("deterministic", Value::Boolean(true)),
        ])
    );
}

#[test]
fn health_values() {
    assert_eq!(SubgraphHealth::Healthy.to_value(), Value::Enum("healthy".to_string()));
    assert_eq!(SubgraphHealth::Unhealthy.to_value(), Value::Enum("unhealthy".to_string()));
    assert_eq!(SubgraphHealth::Failed.to_value(), Value::Enum("failed".to_string()));
}

#[test]
fn info_value() {
    let info = Info {
        subgraph: "QmTest".to_string(),
        synced: false,
        health: SubgraphHealth::Unhealthy,
        fatal_error: None,
        non_fatal_errors: vec![error(None, None)],
        chains: vec![ChainInfo {
            network: "mainnet".to_string(),
            chain_head_block: None,
            earliest_block: None,
            latest_block: None,
        }],
        entity_count: 1234,
        node: Some("index_node_0".to_string()),
    };
    let expected_error = error(None, None).to_value();
    let expected_chain = ChainInfo {
        network: "mainnet".to_string(),
        chain_head_block: None,
        earliest_block: None,
        latest_block: None,
    }
    .into_value();
    assert_eq!(
        info.into_value(),
        Value::Object(vec![
            field("__typename", s("SubgraphIndexingStatus")),
            field("subgraph", s("QmTest")),
            field("synced", Value::Boolean(false)),
            field("health", Value::Enum("unhealthy".to_string())),
            field("fatalError", Value::Null),
            field("nonFatalErrors", Value::List(vec![expected_error])),
            field("chains", Value::List(vec![expected_chain])),
            field("entityCount", s("1234")),
            field("node", s("index_node_0")),
        ])
    );
}

#[test]
fn info_with_fatal_error_and_no_node() {
    let info = Info {
        subgraph: "sg".to_string(),
        synced: true,
        health: SubgraphHealth::Failed,
        fatal_error: Some(error(None, Some("h"))),
        non_fatal_errors: vec![],
        chains: vec![],
        entity_count: 0,
        node: None,
    };
    match info.into_value() {
        Value::Object(fields) => {
            assert_eq!(fields[4], field("fatalError", error(None, Some("h")).to_value()));
            assert_eq!(fields[5], field("nonFatalErrors", Value::List(vec![])));
            assert_eq!(fields[7], field("entityCount", s("0")));
            assert_eq!(fields[8], field("node", Value::Null));
        }
        _ => panic!("not an object"),
    }
}

#[test]
fn filter_variants() {
    let filters = vec![
        Filter::SubgraphName("name".to_string()),
        Filter::SubgraphVersion("name".to_string(), true),
        Filter::Deployments(vec!["Qm1".to_string()]),
    ];
    assert!(matches!(filters[1], Filter::SubgraphVersion(_, true)));
    assert!(matches!(&filters[2], Filter::Deployments(d) if d.len() == 1));
}

use etherscan::client::Client;
use etherscan::topics::TopicFilter;

fn pairs(v: &[(String, String)]) -> Vec<(&str, &str)> {
    v.iter().map(|(k, x)| (k.as_str(), x.as_str())).collect()
}

#[test]
fn test_get_balance() {
    let client: Client = Client::new("YourApiKeyToken");
    let query = client.get_balance("0xde0b295669a9fd93d5f28d9ec85e40f4cb697bae");
    assert_eq!(
        pairs(&query),
        vec![
            ("module", "account"),
            ("action", "balance"),
            ("apikey", "YourApiKeyToken"),
            ("address", "0xde0b295669a9fd93d5f28d9ec85e40f4cb697bae"),
            ("tag", "latest"),
        ]
    );
}

#[test]
fn balance_of_several_addresses() {
    let client = Client::new("K");
    let addresses: Vec<&str> = vec!["0xA", "0xB", "0xC"];
    let query = client.get_balance_multi(&addresses);
    assert_eq!(query[1].1, "balancemulti");
    assert_eq!(query[3], ("address".to_string(), "0xA,0xB,0xC".to_string()));
}

#[test]
fn block_by_number_uses_hex_tag() {
    let client = Client::new("K");
    let query = client.eth_get_block_by_number(255, true);
    assert_eq!(
        pairs(&query),
        vec![
            ("module", "proxy"),
            ("action", "eth_getBlockByNumber"),
            ("apikey", "K"),
            ("tag", "0xff"),
            ("boolean", "true"),
        ]
    );
}

#[test]
fn estimate_gas_writes_hex_values() {
    let client = Client::new("K");
    let query = client.eth_estimate_gas("0xto", "0xdata", 65314, 99999999, 0);
    assert_eq!(
        pairs(&query)[3..].to_vec(),
        vec![
            ("data", "0xdata"),
            ("to", "0xto"),
            ("value", "0xff22"),
            ("gas", "0x5f5e0ff"),
            ("gasPrice", "0x0"),
        ]
    );
}

#[test]
fn parameterless_query_has_base_fields_only() {
    let client = Client::new("K");
    assert_eq!(
        pairs(&client.eth_price()),
        vec![("module", "stats"), ("action", "ethprice"), ("apikey", "K")]
    );
}

#[test]
fn base_and_endpoint_keys_never_collide() {
    let client = Client::new("K");
    let addresses: Vec<&str> = vec!["0xA"];
    let queries = vec![
        client.get_tx_list("0xa", 0, 10, 1, 5, "asc"),
        client.get_erc20_transfer_events("0xa", "0xc", 0, 10, 1, 5, "asc"),
        client.contract_creation(&addresses),
        client.eth_get_storage_at("0xa", "0x0", "latest"),
        client.chain_size("2019-02-01", "2019-02-28", "geth", "default", "asc"),
        client.token_balance_history("0xc", "0xa", 8000000, 1, 1, "asc"),
        client.logs_by_address("0xa", 1, 2, 1, 5),
    ];
    for q in queries {
        for (k, _) in &q[3..] {
            assert!(k != "module" && k != "action" && k != "apikey");
        }
    }
}

#[test]
fn logs_by_topics_query() {
    let client = Client::new("K");
    let filter = TopicFilter {
        fromblock: 379224,
        toblock: 400000,
        topic0: "0xf6".to_string(),
        topic1: "0x72".to_string(),
        topic2: String::new(),
        topic3: String::new(),
        topic0_1_opr: "and".to_string(),
        topic1_2_opr: String::new(),
        topic2_3_opr: String::new(),
        page: 1,
        offset: 1000,
    };
    let query = client.logs_by_topics(filter);
    assert_eq!(query.len(), 3 + 7);
    assert_eq!(query[1].1, "getLogs");
    assert_eq!(query[7], ("topic0_1_opr".to_string(), "and".to_string()));
}

#[test]
fn same_call_twice_builds_the_same_query() {
    let client = Client::new("K");
    let first = client.block_reward(2165403);
    let second = client.block_reward(2165403);
    assert_eq!(first, second);
    assert_eq!(first[3], ("blockno".to_string(), "2165403".to_string()));
}

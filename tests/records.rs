use etherscan::params::Params;
use etherscan::topics::TopicFilter;

fn pairs(v: &[(String, String)]) -> Vec<(&str, &str)> {
    v.iter().map(|(k, x)| (k.as_str(), x.as_str())).collect()
}

fn filter(t1: &str, t2: &str, t3: &str) -> TopicFilter {
    TopicFilter {
        fromblock: 100,
        toblock: 200,
        topic0: "0xt0".to_string(),
        topic1: t1.to_string(),
        topic2: t2.to_string(),
        topic3: t3.to_string(),
        topic0_1_opr: "and".to_string(),
        topic1_2_opr: "or".to_string(),
        topic2_3_opr: "and".to_string(),
        page: 1,
        offset: 1000,
    }
}

#[test]
fn flat_record_in_declaration_order() {
    let p = Params::TxListPaginated {
        address: "0xabc".to_string(),
        startblock: 0,
        endblock: 99999999,
        page: 1,
        offset: 10,
        sort: "asc".to_string(),
    };
    let r = p.encode();
    assert_eq!(
        pairs(&r),
        vec![
            ("address", "0xabc"),
            ("startblock", "0"),
            ("endblock", "99999999"),
            ("page", "1"),
            ("offset", "10"),
            ("sort", "asc"),
        ]
    );
}

#[test]
fn flat_record_encodes_the_same_twice() {
    let p = Params::DateRange {
        startdate: "2020-02-01".to_string(),
        enddate: "2020-02-28".to_string(),
        sort: "desc".to_string(),
    };
    assert_eq!(p.encode(), p.encode());
}

#[test]
fn flag_is_written_as_word() {
    let p = Params::BlockNumberBool { tag: "0x10".to_string(), boolean: true };
    assert_eq!(pairs(&p.encode()), vec![("tag", "0x10"), ("boolean", "true")]);
    let q = Params::BlockNumberBool { tag: "0x10".to_string(), boolean: false };
    assert_eq!(pairs(&q.encode()), vec![("tag", "0x10"), ("boolean", "false")]);
}

#[test]
fn gas_price_key_keeps_its_case() {
    let p = Params::EstimateGas {
        data: "0x4e71d92d".to_string(),
        to: "0xf0160428a8552ac9bb7e050d90eeade4ddd52843".to_string(),
        value: "0xff22".to_string(),
        gas: "0x5f5e0ff".to_string(),
        gas_price: "0x51da038cc".to_string(),
    };
    let keys: Vec<String> = p.encode().into_iter().map(|(k, _)| k).collect();
    assert_eq!(keys, vec!["data", "to", "value", "gas", "gasPrice"]);
}

#[test]
fn empty_record_has_no_fields() {
    assert!(Params::Empty.encode().is_empty());
}

#[test]
fn topic_chain_with_one_topic() {
    let r = filter("", "", "").encode();
    assert_eq!(r.len(), 5);
    assert_eq!(
        pairs(&r),
        vec![
            ("fromblock", "100"),
            ("toblock", "200"),
            ("topic0", "0xt0"),
            ("page", "1"),
            ("offset", "1000"),
        ]
    );
}

#[test]
fn topic_chain_with_two_topics() {
    let r = filter("0xt1", "", "").encode();
    assert_eq!(r.len(), 7);
    assert_eq!(
        pairs(&r),
        vec![
            ("fromblock", "100"),
            ("toblock", "200"),
            ("topic0", "0xt0"),
            ("topic1", "0xt1"),
            ("topic0_1_opr", "and"),
            ("page", "1"),
            ("offset", "1000"),
        ]
    );
}

#[test]
fn topic_chain_with_three_topics() {
    let r = filter("0xt1", "0xt2", "").encode();
    assert_eq!(r.len(), 9);
    assert_eq!(r[5], ("topic2".to_string(), "0xt2".to_string()));
    assert_eq!(r[6], ("topic1_2_opr".to_string(), "or".to_string()));
}

#[test]
fn topic_chain_with_four_topics() {
    let r = filter("0xt1", "0xt2", "0xt3").encode();
    assert_eq!(r.len(), 11);
    assert_eq!(r[7], ("topic3".to_string(), "0xt3".to_string()));
    assert_eq!(r[8], ("topic2_3_opr".to_string(), "and".to_string()));
    assert_eq!(r[9], ("page".to_string(), "1".to_string()));
}

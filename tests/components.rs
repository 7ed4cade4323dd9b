use ton_sdk::endpoints::EndpointSet;
use ton_sdk::fetcher::{backoff_delay, classify_poll, jittered_delay, next_poll_delay, PollResult};
use ton_sdk::resolver::{block_input, find_transaction, primary_output_index, Block, DecodedMessageBody, MessageBodyType, TransactionRecord};
use ton_sdk::scheduler::Input;
use ton_sdk::{init, uninit, ContractABI, ContractABIFunction, ContractABIParameter, ContractPackage, NodeClientConfig, QueriesConfig, RequestsConfig, Sdk};

fn tx(id: &str, exit_code: i32, fees: u64) -> TransactionRecord {
    TransactionRecord { in_msg_id: id.to_string(), total_fees: fees, exit_code, out_messages: vec![] }
}

fn block() -> Block {
    Block { id: "b1".to_string(), gen_time: 77, transactions: vec![tx("a", 0, 5), tx("m", 100, 6), tx("m", 0, 7)] }
}

fn body(t: MessageBodyType, name: &str) -> Option<DecodedMessageBody> {
    Some(DecodedMessageBody { body_type: t, name: name.to_string(), value: Some("{}".to_string()) })
}

#[test]
fn transaction_lookup() {
    let b = block();
    assert_eq!(find_transaction(&b, &"m".to_string()), Some(1));
    assert_eq!(find_transaction(&b, &"a".to_string()), Some(0));
    assert_eq!(find_transaction(&b, &"z".to_string()), None);
    let empty = Block { id: "b0".to_string(), gen_time: 1, transactions: vec![] };
    assert_eq!(find_transaction(&empty, &"m".to_string()), None);
}

#[test]
fn resolving_twice_gives_the_same_transaction() {
    let b = block();
    let id = "m".to_string();
    let first = find_transaction(&b, &id);
    let second = find_transaction(&b, &id);
    assert_eq!(first, second);
    assert_eq!(block_input(&b, &id), block_input(&b, &id));
}

#[test]
fn block_reports() {
    let b = block();
    assert_eq!(block_input(&b, &"m".to_string()), Input::BlockFetched { block_time: 77, exit_code: Some(100) });
    assert_eq!(block_input(&b, &"q".to_string()), Input::BlockFetched { block_time: 77, exit_code: None });
}

#[test]
fn primary_output() {
    let one = vec![body(MessageBodyType::Event, "EventThrown"), body(MessageBodyType::Output, "returnValue")];
    assert_eq!(primary_output_index(&one), Some(1));
    let none = vec![body(MessageBodyType::Event, "EventThrown"), None];
    assert_eq!(primary_output_index(&none), None);
    let two = vec![body(MessageBodyType::Output, "a"), None, body(MessageBodyType::Output, "b")];
    assert_eq!(primary_output_index(&two), None);
    assert_eq!(primary_output_index(&vec![]), None);
}

#[test]
fn endpoint_health() {
    assert!(EndpointSet::new(vec![]).is_none());
    let mut set = EndpointSet::new(vec!["n1".to_string(), "n2".to_string(), "n3".to_string()]).unwrap();
    assert_eq!(set.select(), 0);
    set.mark_failed(0);
    assert_eq!(set.select(), 1);
    set.mark_failed(1);
    set.mark_failed(1);
    assert_eq!(set.select(), 2);
    set.mark_failed(2);
    set.mark_failed(2);
    assert_eq!(set.select(), 0);
    set.decay();
    assert_eq!(set.endpoints[1].failures, 1);
    assert_eq!(set.endpoints[0].failures, 0);
    set.mark_healthy(1);
    assert_eq!(set.endpoints[1].failures, 0);
    assert_eq!(set.endpoints[2].address, "n3");
    set.endpoints[0].failures = u32::MAX;
    set.mark_failed(0);
    assert_eq!(set.endpoints[0].failures, u32::MAX);
}

#[test]
fn polling_backoff() {
    assert_eq!(backoff_delay(0, 100, 1000), 100);
    assert_eq!(backoff_delay(1, 100, 1000), 200);
    assert_eq!(backoff_delay(3, 100, 1000), 800);
    assert_eq!(backoff_delay(4, 100, 1000), 1000);
    assert_eq!(backoff_delay(60, 100, u64::MAX), u64::MAX);
    assert_eq!(backoff_delay(0, 500, 300), 300);
    assert_eq!(jittered_delay(1, 100, 1000, 50), 250);
    assert_eq!(jittered_delay(4, 100, 1000, 50), 1000);
    for attempt in 0..6 {
        let d = next_poll_delay(attempt, 100, 1000);
        let base = backoff_delay(attempt, 100, 1000);
        assert!(base <= d && d <= 1000 && d <= base * 3 / 2);
    }
}

#[test]
fn poll_classification() {
    assert_eq!(classify_poll(PollResult::Nothing, 0, 3, 9), None);
    assert_eq!(classify_poll(PollResult::Nothing, 2, 3, 9), Some(Input::NextBlockNotYetAvailable { now: 9 }));
    assert_eq!(
        classify_poll(PollResult::NewBlock { block_time: 4, exit_code: None }, 0, 3, 9),
        Some(Input::BlockFetched { block_time: 4, exit_code: None })
    );
    assert_eq!(
        classify_poll(PollResult::Retry { code: 5 }, 0, 3, 9),
        Some(Input::NextBlockFailed { retriable: true, code: 5, now: 9 })
    );
    assert_eq!(
        classify_poll(PollResult::Fatal { code: 6 }, 0, 3, 9),
        Some(Input::NextBlockFailed { retriable: false, code: 6, now: 9 })
    );
}

#[test]
fn sdk_init_and_uninit() {
    let mut sdk = Sdk::new();
    assert!(sdk.config.is_none());
    let config = NodeClientConfig {
        queries_config: QueriesConfig {
            queries_server: "https://q".to_string(),
            subscriptions_server: "wss://s".to_string(),
        },
        requests_config: RequestsConfig { requests_server: "https://r".to_string() },
    };
    assert!(init(&mut sdk, config).is_ok());
    assert_eq!(sdk.config.as_ref().unwrap().requests_config.requests_server, "https://r");
    uninit(&mut sdk);
    assert!(sdk.config.is_none());
}

#[test]
fn contract_package_holds_its_abi() {
    let p = ContractABIParameter { name: "a".to_string(), parameterType: "uint256".to_string() };
    let f = ContractABIFunction { name: "touch".to_string(), signed: true, inputs: vec![p.clone()], outputs: vec![] };
    let abi = ContractABI { abiVersion: 1, functions: vec![f] };
    let pkg = ContractPackage { abi, imageBase64: "te6c".to_string() };
    assert_eq!(pkg.abi.functions[0].inputs[0].parameterType, "uint256");
    assert_eq!(pkg.abi.abiVersion, 1);
}

#[test]
fn poll_delay_jitter_varies() {
    // with a backoff of 1000 the jitter is drawn from 0..=500
    let draws: Vec<u64> = (0..64).map(|_| next_poll_delay(0, 1000, 5000)).collect();
    assert!(draws.iter().all(|d| (1000..=1500).contains(d)));
    assert!(draws.iter().any(|d| *d < 1500));
}

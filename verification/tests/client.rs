use web3_signer::api::eth::Eth;
use web3_signer::api::{Namespace, Web3};
use web3_signer::contract::{CallOptions, ContractInterface, Options};
use web3_signer::error::ClientError;
use web3_signer::helpers::{
    build_request, id_of_output, invalid_response, to_notification_from_slice,
    to_response_from_slice, to_result_from_output, to_results_from_outputs, CallFuture,
};
use web3_signer::rpc::{Call, Failure, Id, MethodCall, Output, Params, RpcError, Success, Version};
use web3_signer::transforms::{
    has_body_to_process, ArrayResultTransformProcessor, SingleResultTransformProcessor,
};
use web3_signer::transports::{ICHttp, Transport};
use web3_signer::types::{
    Address, BlockId, BlockNumber, CallRequest, Filter, Param, Reply, Request, TransactionId,
    TransactionParameters, TransactionRequest, H256, H64, U256,
};

fn eth() -> Eth<()> {
    Eth::new(())
}

fn request(method: &str, params: Vec<Param>, reply: Reply) -> Request {
    Request { method: method.to_string(), params, reply }
}

fn call_request() -> CallRequest {
    CallRequest {
        from: None,
        to: Some(Address([9; 20])),
        gas: None,
        gas_price: None,
        value: None,
        data: Some(vec![1, 2, 3]),
        transaction_type: None,
        access_list: None,
        max_fee_per_gas: None,
        max_priority_fee_per_gas: None,
    }
}

fn success(result: serde_json::Value, id: Id) -> Output {
    Output::Success(Success { jsonrpc: Some(Version::V2), result, id })
}

fn failure(code: i64, message: &str, id: Id) -> Output {
    Output::Failure(Failure {
        jsonrpc: Some(Version::V2),
        error: RpcError { code, message: message.to_string(), data: None },
        id,
    })
}

const ERC20: &str = r#"[
  {"type":"function","name":"transfer","stateMutability":"nonpayable",
   "inputs":[{"name":"to","type":"address"},{"name":"value","type":"uint256"}],
   "outputs":[{"name":"","type":"bool"}]},
  {"type":"function","name":"decimals","stateMutability":"view",
   "inputs":[],"outputs":[{"name":"","type":"uint8"}]}
]"#;

fn token() -> ContractInterface<()> {
    let abi = ethabi::Contract::load(ERC20.as_bytes()).unwrap();
    ContractInterface::new(eth(), Address([0xc0; 20]), abi)
}

fn transfer_tokens() -> Vec<ethabi::Token> {
    vec![
        ethabi::Token::Address(ethabi::ethereum_types::H160([0x11; 20])),
        ethabi::Token::Uint(ethabi::ethereum_types::U256::from(5u64)),
    ]
}

fn transfer_data() -> Vec<u8> {
    let mut data = vec![0xa9, 0x05, 0x9c, 0xbb];
    data.extend_from_slice(&[0; 12]);
    data.extend_from_slice(&[0x11; 20]);
    data.extend_from_slice(&[0; 31]);
    data.push(5);
    data
}

#[test]
fn requests_without_parameters() {
    assert_eq!(eth().accounts(), request("eth_accounts", vec![], Reply::Addresses));
    assert_eq!(eth().block_number(), request("eth_blockNumber", vec![], Reply::Number));
    assert_eq!(eth().coinbase(), request("eth_coinbase", vec![], Reply::Address));
    assert_eq!(eth().gas_price(), request("eth_gasPrice", vec![], Reply::Quantity));
    assert_eq!(eth().compilers(), request("eth_getCompilers", vec![], Reply::Texts));
    assert_eq!(eth().chain_id(), request("eth_chainId", vec![], Reply::Quantity));
    assert_eq!(eth().request_accounts(), request("eth_requestAccounts", vec![], Reply::Addresses));
    assert_eq!(eth().work(), request("eth_getWork", vec![], Reply::Work));
    assert_eq!(eth().hashrate(), request("eth_hashrate", vec![], Reply::Quantity));
    assert_eq!(eth().mining(), request("eth_mining", vec![], Reply::Bool));
    assert_eq!(eth().new_block_filter(), request("eth_newBlockFilter", vec![], Reply::Quantity));
    assert_eq!(
        eth().new_pending_transaction_filter(),
        request("eth_newPendingTransactionFilter", vec![], Reply::Quantity)
    );
    assert_eq!(eth().protocol_version(), request("eth_protocolVersion", vec![], Reply::Text));
}

#[test]
fn requests_default_to_the_latest_block() {
    let address = Address([5; 20]);
    let latest = Param::BlockNumber(BlockNumber::Latest);
    assert_eq!(
        eth().balance(address, None),
        request("eth_getBalance", vec![Param::Address(address), latest.clone()], Reply::Quantity)
    );
    assert_eq!(
        eth().balance(address, Some(BlockNumber::Number(7))),
        request(
            "eth_getBalance",
            vec![Param::Address(address), Param::BlockNumber(BlockNumber::Number(7))],
            Reply::Quantity
        )
    );
    assert_eq!(
        eth().code(address, None),
        request("eth_getCode", vec![Param::Address(address), latest.clone()], Reply::Bytes)
    );
    assert_eq!(
        eth().storage(address, U256::from_u64(3), Some(BlockNumber::Pending)),
        request(
            "eth_getStorageAt",
            vec![
                Param::Address(address),
                Param::Quantity(U256::from_u64(3)),
                Param::BlockNumber(BlockNumber::Pending)
            ],
            Reply::Hash
        )
    );
    assert_eq!(
        eth().transaction_count(address, None),
        request(
            "eth_getTransactionCount",
            vec![Param::Address(address), latest.clone()],
            Reply::Quantity
        )
    );
    assert_eq!(
        eth().get_proof(address, vec![U256::from_u64(1)], None),
        request(
            "eth_getProof",
            vec![Param::Address(address), Param::Quantities(vec![U256::from_u64(1)]), latest],
            Reply::MaybeProof
        )
    );
    assert_eq!(
        eth().call(call_request(), None),
        request(
            "eth_call",
            vec![Param::Call(call_request()), Param::BlockId(BlockId::Number(BlockNumber::Latest))],
            Reply::Bytes
        )
    );
    assert_eq!(
        eth().call(call_request(), Some(BlockId::Hash(H256([1; 32])))),
        request(
            "eth_call",
            vec![Param::Call(call_request()), Param::BlockId(BlockId::Hash(H256([1; 32])))],
            Reply::Bytes
        )
    );
}

#[test]
fn estimate_gas_names_a_block_only_where_one_is_given() {
    assert_eq!(
        eth().estimate_gas(call_request(), None),
        request("eth_estimateGas", vec![Param::Call(call_request())], Reply::Quantity)
    );
    assert_eq!(
        eth().estimate_gas(call_request(), Some(BlockNumber::Earliest)),
        request(
            "eth_estimateGas",
            vec![Param::Call(call_request()), Param::BlockNumber(BlockNumber::Earliest)],
            Reply::Quantity
        )
    );
}

#[test]
fn requests_by_block_hash_or_number() {
    let hash = H256([4; 32]);
    let number = BlockNumber::Number(12);
    assert_eq!(
        eth().block(BlockId::Hash(hash)),
        request("eth_getBlockByHash", vec![Param::Hash(hash), Param::Bool(false)], Reply::MaybeBlock)
    );
    assert_eq!(
        eth().block(BlockId::Number(number)),
        request(
            "eth_getBlockByNumber",
            vec![Param::BlockNumber(number), Param::Bool(false)],
            Reply::MaybeBlock
        )
    );
    assert_eq!(
        eth().block_with_txs(BlockId::Hash(hash)),
        request(
            "eth_getBlockByHash",
            vec![Param::Hash(hash), Param::Bool(true)],
            Reply::MaybeBlockWithTransactions
        )
    );
    assert_eq!(
        eth().block_with_txs(BlockId::Number(number)),
        request(
            "eth_getBlockByNumber",
            vec![Param::BlockNumber(number), Param::Bool(true)],
            Reply::MaybeBlockWithTransactions
        )
    );
    assert_eq!(
        eth().block_transaction_count(BlockId::Hash(hash)),
        request("eth_getBlockTransactionCountByHash", vec![Param::Hash(hash)], Reply::MaybeQuantity)
    );
    assert_eq!(
        eth().block_transaction_count(BlockId::Number(number)),
        request(
            "eth_getBlockTransactionCountByNumber",
            vec![Param::BlockNumber(number)],
            Reply::MaybeQuantity
        )
    );
    assert_eq!(
        eth().uncle_count(BlockId::Hash(hash)),
        request("eth_getUncleCountByBlockHash", vec![Param::Hash(hash)], Reply::MaybeQuantity)
    );
    assert_eq!(
        eth().uncle_count(BlockId::Number(number)),
        request("eth_getUncleCountByBlockNumber", vec![Param::BlockNumber(number)], Reply::MaybeQuantity)
    );
    assert_eq!(
        eth().uncle(BlockId::Hash(hash), 2),
        request(
            "eth_getUncleByBlockHashAndIndex",
            vec![Param::Hash(hash), Param::Index(2)],
            Reply::MaybeBlock
        )
    );
    assert_eq!(
        eth().uncle_header(BlockId::Number(number), 0),
        request(
            "eth_getUncleByBlockNumberAndIndex",
            vec![Param::BlockNumber(number), Param::Index(0)],
            Reply::MaybeBlockHeader
        )
    );
    assert_eq!(
        eth().fetch_uncle(BlockId::Number(number), 1, Reply::MaybeBlock),
        eth().uncle(BlockId::Number(number), 1)
    );
}

#[test]
fn transactions_by_hash_or_by_place() {
    let hash = H256([4; 32]);
    assert_eq!(
        eth().transaction(TransactionId::Hash(hash)),
        request("eth_getTransactionByHash", vec![Param::Hash(hash)], Reply::MaybeTransaction)
    );
    assert_eq!(
        eth().transaction(TransactionId::Block(BlockId::Hash(hash), 3)),
        request(
            "eth_getTransactionByBlockHashAndIndex",
            vec![Param::Hash(hash), Param::Index(3)],
            Reply::MaybeTransaction
        )
    );
    assert_eq!(
        eth().transaction(TransactionId::Block(BlockId::Number(BlockNumber::Latest), 3)),
        request(
            "eth_getTransactionByBlockNumberAndIndex",
            vec![Param::BlockNumber(BlockNumber::Latest), Param::Index(3)],
            Reply::MaybeTransaction
        )
    );
    assert_eq!(
        eth().transaction_receipt(hash),
        request("eth_getTransactionReceipt", vec![Param::Hash(hash)], Reply::MaybeReceipt)
    );
}

#[test]
fn requests_that_carry_data() {
    let address = Address([5; 20]);
    assert_eq!(
        eth().send_raw_transaction(vec![0xf8, 0x01]),
        request("eth_sendRawTransaction", vec![Param::Bytes(vec![0xf8, 0x01])], Reply::Hash)
    );
    assert_eq!(
        eth().sign(address, vec![1, 2]),
        request("eth_sign", vec![Param::Address(address), Param::Bytes(vec![1, 2])], Reply::Signature)
    );
    assert_eq!(
        eth().submit_hashrate(U256::from_u64(500), H256([1; 32])),
        request(
            "eth_submitHashrate",
            vec![Param::Quantity(U256::from_u64(500)), Param::Hash(H256([1; 32]))],
            Reply::Bool
        )
    );
    assert_eq!(
        eth().submit_work(H64([1; 8]), H256([2; 32]), H256([3; 32])),
        request(
            "eth_submitWork",
            vec![Param::Nonce(H64([1; 8])), Param::Hash(H256([2; 32])), Param::Hash(H256([3; 32]))],
            Reply::Bool
        )
    );
    for (made, method) in [
        (eth().compile_lll("(x)".to_string()), "eth_compileLLL"),
        (eth().compile_solidity("(x)".to_string()), "eth_compileSolidity"),
        (eth().compile_serpent("(x)".to_string()), "eth_compileSerpent"),
    ] {
        assert_eq!(made, request(method, vec![Param::Text("(x)".to_string())], Reply::Bytes));
    }
    let filter = Filter {
        from_block: Some(BlockNumber::Earliest),
        to_block: None,
        block_hash: None,
        address: Some(vec![address]),
        topics: None,
        limit: Some(10),
    };
    assert_eq!(
        eth().logs(filter.clone()),
        request("eth_getLogs", vec![Param::Filter(filter)], Reply::Logs)
    );
}

#[test]
fn a_request_is_a_method_call_of_version_two() {
    let call = build_request(7, "eth_chainId", vec![Param::Bool(true)]);
    assert_eq!(
        call,
        Call::MethodCall(MethodCall {
            jsonrpc: Some(Version::V2),
            method: "eth_chainId".to_string(),
            params: Params::Array(vec![Param::Bool(true)]),
            id: Id::Num(7),
        })
    );
}

#[test]
fn outputs_become_results_in_their_order() {
    let one = serde_json::Value::from(1);
    assert_eq!(to_result_from_output(success(one.clone(), Id::Num(1))), Ok(one.clone()));
    let refused = RpcError { code: -32000, message: "nope".to_string(), data: None };
    assert_eq!(
        to_result_from_output(failure(-32000, "nope", Id::Num(2))),
        Err(ClientError::Rpc(RpcError { code: -32000, message: "nope".to_string(), data: None }))
    );
    let results = to_results_from_outputs(vec![
        success(one.clone(), Id::Num(1)),
        failure(-32000, "nope", Id::Num(2)),
        success(serde_json::Value::from("0x10"), Id::Num(3)),
    ])
    .unwrap();
    assert_eq!(
        results,
        vec![Ok(one), Err(ClientError::Rpc(refused)), Ok(serde_json::Value::from("0x10"))]
    );
    assert_eq!(to_results_from_outputs(Vec::new()).unwrap(), Vec::new());
}

#[test]
fn the_id_of_an_output_is_a_number() {
    let null = serde_json::Value::Null;
    assert_eq!(id_of_output(&success(null.clone(), Id::Num(41))), Ok(41));
    assert_eq!(id_of_output(&failure(1, "x", Id::Num(0))), Ok(0));
    assert_eq!(
        id_of_output(&success(null.clone(), Id::Str("41".to_string()))),
        Err(ClientError::InvalidResponse("response id is not u64".to_string()))
    );
    assert_eq!(
        id_of_output(&failure(1, "x", Id::Null)),
        Err(ClientError::InvalidResponse("response id is not u64".to_string()))
    );
}

#[test]
fn responses_are_read_from_their_text() {
    let read = to_response_from_slice(br#"{"jsonrpc":"2.0","result":"0x1","id":1}"#).unwrap();
    match read {
        jsonrpc_core::Response::Single(jsonrpc_core::Output::Success(success)) => {
            assert_eq!(success.result, serde_json::Value::from("0x1"));
            assert_eq!(success.id, jsonrpc_core::Id::Num(1));
        }
        other => panic!("{:?}", other),
    }
    let read = to_response_from_slice(
        br#"[{"jsonrpc":"2.0","result":1,"id":1},
             {"jsonrpc":"2.0","error":{"code":-32000,"message":"nope"},"id":2}]"#,
    )
    .unwrap();
    match read {
        jsonrpc_core::Response::Batch(outputs) => {
            assert_eq!(outputs.len(), 2);
            assert!(matches!(outputs[1], jsonrpc_core::Output::Failure(_)));
        }
        other => panic!("{:?}", other),
    }
    let bad = serde_json::from_slice::<serde_json::Value>(b"{").unwrap_err();
    let text = format!("{:?}", bad);
    assert_eq!(invalid_response(&bad), ClientError::InvalidResponse(text.clone()));
    assert_eq!(to_response_from_slice(b"{"), Err(ClientError::InvalidResponse(text)));
    assert!(matches!(to_response_from_slice(b"{}"), Err(ClientError::InvalidResponse(_))));
    assert!(matches!(to_response_from_slice(b""), Err(ClientError::InvalidResponse(_))));
}

#[test]
fn notifications_are_read_from_their_text() {
    let read = to_notification_from_slice(
        br#"{"jsonrpc":"2.0","method":"eth_subscription","params":["0x1"]}"#,
    )
    .unwrap();
    assert_eq!(read.method, "eth_subscription");
    assert_eq!(read.params, jsonrpc_core::Params::Array(vec![serde_json::Value::from("0x1")]));
    assert!(matches!(
        to_notification_from_slice(b"[]"),
        Err(ClientError::InvalidResponse(_))
    ));
    assert!(matches!(
        to_notification_from_slice(br#"{"jsonrpc":"2.0"}"#),
        Err(ClientError::InvalidResponse(_))
    ));
}

#[test]
fn a_call_future_keeps_its_call() {
    let future: CallFuture<u64, &str> = CallFuture::new("pending");
    assert_eq!(future.into_inner(), "pending");
}

#[test]
fn a_transport_numbers_its_requests_from_zero() {
    let mut http = ICHttp::new("https://node.example", Some(4096)).unwrap();
    assert_eq!(http.new_request(), (Some(4096), "https://node.example".to_string()));
    assert_eq!(http.next_id(), 0);
    assert_eq!(http.next_id(), 1);
    let (id, call) = http.prepare_call("eth_mining", vec![]);
    assert_eq!(id, 2);
    assert_eq!(call, build_request(2, "eth_mining", vec![]));
    let (id, call) = Transport::prepare(&mut http, "eth_mining", vec![]);
    assert_eq!(id, 3);
    assert_eq!(call, build_request(3, "eth_mining", vec![]));
    http.limit_response(10);
    assert_eq!(http.new_request().0, Some(10));
    Transport::set_max_response_bytes(&mut http, 11);
    assert_eq!(http.new_request().0, Some(11));
    assert_eq!(http.next_id(), 4);
    let unlimited = ICHttp::new("u", None).unwrap();
    assert_eq!(unlimited.new_request(), (None, "u".to_string()));
}

#[test]
fn namespaces_share_the_transport() {
    let http = ICHttp::new("https://node.example", None).unwrap();
    let mut web3 = Web3::new(http.clone());
    assert_eq!(web3.transport(), &http);
    let eth: Eth<ICHttp> = web3.eth();
    assert_eq!(eth.transport(), &http);
    let again: Eth<ICHttp> = web3.api();
    assert_eq!(again.transport(), &http);
    web3.set_max_response_bytes(99);
    assert_eq!(web3.transport().new_request().0, Some(99));
}

fn json(text: &str) -> serde_json::Value {
    serde_json::from_str(text).unwrap()
}

/// The members overwritten in place, element by element.
fn overwritten_in_place(body: &[u8], names: &[&str], array: bool) -> Vec<u8> {
    let mut body: serde_json::Value = serde_json::from_slice(body).unwrap();
    if array {
        let elements = body.get_mut("result").unwrap().as_array_mut().unwrap();
        for element in elements.iter_mut() {
            for name in names {
                element.as_object_mut().unwrap().insert(name.to_string(), serde_json::Value::from("0x0"));
            }
        }
    } else if !names.is_empty() {
        let result = body.get_mut("result").unwrap().as_object_mut().unwrap();
        for name in names {
            result.insert(name.to_string(), serde_json::Value::from("0x0"));
        }
    }
    serde_json::to_vec(&body).unwrap()
}

const LOGS: &str = r#"{"jsonrpc":"2.0","id":1,"result":[
    {"logIndex":"0x5","transactionIndex":"0x3","data":"0x","topics":["0x01"]},
    {"address":"0xab","blockNumber":"0x10"},
    {}
]}"#;

const RECEIPT: &str = r#"{"jsonrpc":"2.0","id":7,"result":
    {"transactionIndex":"0x9","status":"0x1","logs":[{"logIndex":"0x2"}]}}"#;

#[test]
fn processors_overwrite_the_members_that_are_switched_on() {
    assert!(has_body_to_process(200));
    assert!(!has_body_to_process(201));
    assert!(!has_body_to_process(500));
    assert!(!has_body_to_process(0));
    assert_eq!(SingleResultTransformProcessor::default().overwritten_members(), Vec::<&str>::new());
    assert_eq!(
        SingleResultTransformProcessor { transaction_index: true }.overwritten_members(),
        vec!["transactionIndex"]
    );
    assert_eq!(ArrayResultTransformProcessor::default().overwritten_members(), Vec::<&str>::new());
    assert_eq!(
        ArrayResultTransformProcessor { transaction_index: true, log_index: true }
            .overwritten_members(),
        vec!["transactionIndex", "logIndex"]
    );
    assert_eq!(
        ArrayResultTransformProcessor { transaction_index: false, log_index: true }
            .overwritten_members(),
        vec!["logIndex"]
    );
    assert_eq!(
        ArrayResultTransformProcessor { transaction_index: true, log_index: false }
            .overwritten_members(),
        vec!["transactionIndex"]
    );
}

#[test]
fn every_element_of_an_array_result_is_overwritten() {
    let both = ArrayResultTransformProcessor { transaction_index: true, log_index: true };
    let out = both.process_body(LOGS.as_bytes()).unwrap();
    assert_eq!(
        serde_json::from_slice::<serde_json::Value>(&out).unwrap(),
        json(
            r#"{"jsonrpc":"2.0","id":1,"result":[
                {"logIndex":"0x0","transactionIndex":"0x0","data":"0x","topics":["0x01"]},
                {"address":"0xab","blockNumber":"0x10","logIndex":"0x0","transactionIndex":"0x0"},
                {"logIndex":"0x0","transactionIndex":"0x0"}
            ]}"#
        )
    );
    for (transaction_index, log_index) in [(false, false), (true, false), (false, true), (true, true)] {
        let processor = ArrayResultTransformProcessor { transaction_index, log_index };
        let names = processor.overwritten_members();
        assert_eq!(
            processor.process_body(LOGS.as_bytes()).unwrap(),
            overwritten_in_place(LOGS.as_bytes(), &names, true)
        );
        let empty = br#"{"id":1,"result":[]}"#;
        assert_eq!(processor.process_body(empty).unwrap(), overwritten_in_place(empty, &names, true));
    }
    let logs_only = ArrayResultTransformProcessor { transaction_index: false, log_index: true };
    let out = logs_only.process_body(LOGS.as_bytes()).unwrap();
    let read = serde_json::from_slice::<serde_json::Value>(&out).unwrap();
    assert_eq!(read["result"][0]["transactionIndex"], "0x3");
    assert_eq!(read["result"][0]["logIndex"], "0x0");
    assert_eq!(read["result"][1].get("transactionIndex"), None);
}

#[test]
fn a_single_result_is_overwritten() {
    let on = SingleResultTransformProcessor { transaction_index: true };
    let out = on.process_body(RECEIPT.as_bytes()).unwrap();
    assert_eq!(
        serde_json::from_slice::<serde_json::Value>(&out).unwrap(),
        json(
            r#"{"jsonrpc":"2.0","id":7,"result":
                {"transactionIndex":"0x0","status":"0x1","logs":[{"logIndex":"0x2"}]}}"#
        )
    );
    assert_eq!(out, overwritten_in_place(RECEIPT.as_bytes(), &["transactionIndex"], false));
    let off = SingleResultTransformProcessor { transaction_index: false };
    let out = off.process_body(RECEIPT.as_bytes()).unwrap();
    assert_eq!(serde_json::from_slice::<serde_json::Value>(&out).unwrap(), json(RECEIPT));
    assert_eq!(out, overwritten_in_place(RECEIPT.as_bytes(), &[], false));
    assert_eq!(off.process_body(b"[1, 2]").unwrap(), b"[1,2]".to_vec());
}

#[test]
fn bodies_that_do_not_fit_are_refused() {
    let both = ArrayResultTransformProcessor { transaction_index: true, log_index: true };
    let none = ArrayResultTransformProcessor::default();
    let single = SingleResultTransformProcessor { transaction_index: true };
    assert_eq!(both.process_body(b"not json"), None);
    assert_eq!(none.process_body(b""), None);
    assert_eq!(single.process_body(b"{"), None);
    assert_eq!(SingleResultTransformProcessor::default().process_body(b"{"), None);
    assert_eq!(both.process_body(br#"{"id":1}"#), None);
    assert_eq!(none.process_body(br#"{"id":1}"#), None);
    assert_eq!(single.process_body(br#"{"id":1}"#), None);
    assert_eq!(both.process_body(br#"{"result":{"a":1}}"#), None);
    assert_eq!(none.process_body(br#"{"result":"0x1"}"#), None);
    assert_eq!(both.process_body(br#"{"result":[{"a":1},"0x1"]}"#), None);
    assert_eq!(both.process_body(br#"{"result":["0x1",{"a":1}]}"#), None);
    assert_eq!(
        none.process_body(br#"{"result":["0x1"]}"#),
        Some(br#"{"result":["0x1"]}"#.to_vec())
    );
    assert_eq!(single.process_body(br#"{"result":["0x1"]}"#), None);
    assert_eq!(single.process_body(br#"{"result":null}"#), None);
    assert_eq!(both.process_body(br#"[{"result":[]}]"#), None);
}

#[test]
fn options_start_empty() {
    let options = Options::default();
    assert_eq!(options.gas, None);
    assert_eq!(options.call_options, None);
    assert_eq!(Options::with(|o| o), Options::default());
    let changed = Options::with(|mut o| {
        o.gas = Some(U256::from_u64(3_000_000));
        o.call_options = Some(CallOptions { max_resp: Some(1), cycles: None });
        o
    });
    assert_eq!(changed.gas, Some(U256::from_u64(3_000_000)));
    assert_eq!(changed.call_options, Some(CallOptions { max_resp: Some(1), cycles: None }));
    assert_eq!(changed.nonce, None);
}

#[test]
fn a_contract_call_carries_the_call_data() {
    let contract = token();
    assert_eq!(contract.address(), Address([0xc0; 20]));
    assert_eq!(contract.abi().functions().count(), 2);
    let data = contract.abi().function("transfer").unwrap().encode_input(&transfer_tokens()).unwrap();
    assert_eq!(data, transfer_data());
    let from = Address([0x0f; 20]);
    let options = Options::with(|mut o| {
        o.gas = Some(U256::from_u64(60_000));
        o.nonce = Some(U256::from_u64(4));
        o
    });
    let made = contract.call(data, from, options);
    let expected = TransactionRequest {
        from,
        to: Some(Address([0xc0; 20])),
        gas: Some(U256::from_u64(60_000)),
        gas_price: None,
        value: None,
        data: Some(transfer_data()),
        nonce: Some(U256::from_u64(4)),
        condition: None,
        transaction_type: None,
        access_list: None,
        max_fee_per_gas: None,
        max_priority_fee_per_gas: None,
    };
    assert_eq!(made, request("eth_sendTransaction", vec![Param::Transaction(expected)], Reply::Hash));
    let empty = contract.call(Vec::new(), from, Options::default());
    match &empty.params[0] {
        Param::Transaction(sent) => {
            assert_eq!(sent.data, Some(Vec::new()));
            assert_eq!(sent.gas, None);
            assert_eq!(sent.to, Some(Address([0xc0; 20])));
        }
        other => panic!("{:?}", other),
    }
}

#[test]
fn a_contract_query_is_a_call_at_a_block() {
    let contract = token();
    let from = Address([0x0f; 20]);
    let data = vec![0x31, 0x3c, 0xe5, 0x67];
    let mut options = Options::default();
    options.value = Some(U256::from_u64(1));
    options.transaction_type = Some(1);
    let expected = CallRequest {
        from: Some(from),
        to: Some(Address([0xc0; 20])),
        gas: None,
        gas_price: None,
        value: Some(U256::from_u64(1)),
        data: Some(data.clone()),
        transaction_type: Some(1),
        access_list: None,
        max_fee_per_gas: None,
        max_priority_fee_per_gas: None,
    };
    assert_eq!(
        contract.query(data.clone(), Some(from), options.clone(), None),
        request(
            "eth_call",
            vec![
                Param::Call(expected.clone()),
                Param::BlockId(BlockId::Number(BlockNumber::Latest))
            ],
            Reply::Bytes
        )
    );
    let mut unnamed = expected.clone();
    unnamed.from = None;
    assert_eq!(
        contract.query(data.clone(), None, options.clone(), Some(BlockId::Hash(H256([7; 32])))),
        request(
            "eth_call",
            vec![Param::Call(unnamed), Param::BlockId(BlockId::Hash(H256([7; 32])))],
            Reply::Bytes
        )
    );
    assert_eq!(
        contract.estimate_gas(data, from, options),
        request("eth_estimateGas", vec![Param::Call(expected)], Reply::Quantity)
    );
}

#[test]
fn gas_of_a_transaction_is_estimated_without_a_limit() {
    let contract = token();
    let from = Address([0x0f; 20]);
    let tx = TransactionParameters {
        nonce: Some(U256::from_u64(1)),
        to: Some(Address([0x35; 20])),
        gas: U256::from_u64(21000),
        gas_price: Some(U256::from_u64(10)),
        value: U256::from_u64(77),
        data: vec![9, 9],
        transaction_type: Some(2),
        access_list: None,
        max_fee_per_gas: Some(U256::from_u64(20)),
        max_priority_fee_per_gas: None,
    };
    let expected = CallRequest {
        from: Some(from),
        to: Some(Address([0x35; 20])),
        gas: None,
        gas_price: Some(U256::from_u64(10)),
        value: Some(U256::from_u64(77)),
        data: Some(vec![9, 9]),
        transaction_type: Some(2),
        access_list: None,
        max_fee_per_gas: Some(U256::from_u64(20)),
        max_priority_fee_per_gas: None,
    };
    assert_eq!(
        contract._estimate_gas(from, tx),
        request("eth_estimateGas", vec![Param::Call(expected)], Reply::Quantity)
    );
}

#[test]
fn events_are_asked_for_by_topics_alone() {
    let contract = token();
    let topics = vec![Some(vec![H256([1; 32])]), None, Some(vec![H256([2; 32]), H256([3; 32])])];
    let expected = Filter {
        from_block: None,
        to_block: None,
        block_hash: None,
        address: None,
        topics: Some(topics.clone()),
        limit: None,
    };
    assert_eq!(
        contract.events(topics),
        request("eth_getLogs", vec![Param::Filter(expected)], Reply::Logs)
    );
}

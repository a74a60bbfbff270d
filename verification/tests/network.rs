use cosmos_client::account::{AccountReply, Any, BaseAccount};
use cosmos_client::client::{CosmosClient, CosmosClientConfig, PendingClient};
use cosmos_client::error::Error;
use cosmos_client::header::{HeaderStep, LightBlock, UpdateType};
use cosmos_client::height::{Height, TmHeight, MAX_BLOCK_HEIGHT};
use cosmos_client::key::{ConfigKeyEntry, ExtendedKey, KeyEntry};
use cosmos_client::query::{AbciQuery, AbciRequest, ProofOp};
use cosmos_client::submit::{
    Fee, SignedTx, Simulation, SubmitAction, SubmitEvent, SubmitState, SubmitStep,
};

type Client = CosmosClient<(), (), ()>;
type Step = SubmitStep<&'static str, u32>;
type Event = SubmitEvent<&'static str, u32>;

fn extended(byte: u8) -> ExtendedKey {
    ExtendedKey {
        depth: 0,
        parent_fingerprint: vec![0; 4],
        child_number: 0,
        chain_code: vec![byte; 32],
        key: vec![byte; 32],
    }
}

fn client() -> Client {
    let config = CosmosClientConfig {
        name: "hu\"b".to_string(),
        rpc_url: "http://127.0.0.1:26657/".to_string(),
        grpc_url: "http://127.0.0.1:9090/".to_string(),
        websocket_url: "ws://127.0.0.1:26657/websocket".to_string(),
        chain_id: "cosmoshub-4".to_string(),
        client_id: None,
        connection_id: None,
        account_prefix: "cosmos".to_string(),
        store_prefix: "ibc".to_string(),
        max_tx_size: 200000,
        keybase: ConfigKeyEntry {
            public_key: String::new(),
            private_key: String::new(),
            account: String::new(),
            address: vec![],
        },
        wasm_code_id: None,
        wasm_client_type: None,
    };
    let pending = PendingClient::prepare(config, Ok(())).unwrap();
    let keybase = KeyEntry::from_parsed(
        Ok(extended(1)),
        Ok(extended(2)),
        "cosmos1account".to_string(),
        vec![5],
    );
    match CosmosClient::assemble(pending, Ok(()), keybase) {
        Ok(client) => client,
        Err(error) => panic!("{:?}", error),
    }
}

fn custom(error: Error) -> String {
    match error {
        Error::Custom(text) => text,
        Error::RpcError(text) => panic!("unexpected RPC error {}", text),
    }
}

fn height(value: u64) -> TmHeight {
    TmHeight::new(value).unwrap()
}

fn trusted(revision_height: u64) -> Height {
    Height { revision_number: 4, revision_height }
}

fn block(id: u32) -> LightBlock<u32, u32> {
    LightBlock { signed_header: id, validators: id + 1, next_validators: id + 2 }
}

fn answer() -> AbciQuery {
    AbciQuery {
        code: 0,
        log: "lo\ng".to_string(),
        info: "info".to_string(),
        index: -3,
        key: vec![1],
        value: vec![2],
        proof: Some(vec![op(vec![])]),
        height: height(12),
        codespace: "sdk".to_string(),
    }
}

fn op(data: Vec<u8>) -> ProofOp {
    ProofOp { field_type: "ics23:iavl".to_string(), key: vec![9], data }
}

fn failed_query(prove: bool, response: AbciQuery) -> String {
    match client().query_path(prove, Ok(response)) {
        Ok(_) => panic!("the query succeeded"),
        Err(error) => custom(error),
    }
}

#[test]
fn block_heights_are_signed_numbers() {
    assert_eq!(height(0).value(), 0);
    assert_eq!(height(MAX_BLOCK_HEIGHT).value(), i64::MAX as u64);
    assert!(TmHeight::new(MAX_BLOCK_HEIGHT + 1).is_err());
    assert_eq!(height(41).increment().value(), 42);
}

#[test]
fn update_of_no_heights_is_empty() {
    let step: HeaderStep<u32, u32> =
        client().msg_update_client_header(height(5), height(4), trusted(MAX_BLOCK_HEIGHT));
    match step {
        HeaderStep::Done(Ok(headers)) => assert!(headers.is_empty()),
        _ => panic!("expected no headers"),
    }
}

#[test]
fn update_yields_a_header_for_each_height() {
    let mut step = client().msg_update_client_header(height(10), height(12), trusted(3));
    let mut asked: Vec<u64> = vec![];
    loop {
        match step {
            HeaderStep::Fetch { height, sync } => {
                asked.push(height.value());
                step = sync.step(Ok(block(100 * asked.len() as u32)));
            }
            HeaderStep::Done(result) => {
                let headers = result.unwrap();
                assert_eq!(asked, vec![10, 4, 11, 4, 12, 4]);
                assert_eq!(headers.len(), 3);
                for (i, (header, update)) in headers.into_iter().enumerate() {
                    let first = 100 * (2 * i as u32 + 1);
                    assert_eq!(header.signed_header, first);
                    assert_eq!(header.validator_set, first + 1);
                    assert_eq!(header.trusted_validator_set, first + 101);
                    assert_eq!(header.trusted_height, trusted(3));
                    assert_eq!(update, UpdateType::Mandatory);
                }
                return;
            }
        }
    }
}

fn signed_headers(from: u64, to: u64, trusted_height: Height) -> Vec<(u32, u32, Height)> {
    let mut step = client().msg_update_client_header(height(from), height(to), trusted_height);
    loop {
        match step {
            HeaderStep::Fetch { height, sync } => {
                step = sync.step(Ok(block(10 * height.value() as u32)));
            }
            HeaderStep::Done(result) => {
                return result
                    .unwrap()
                    .into_iter()
                    .map(|(h, _)| (h.signed_header, h.trusted_validator_set, h.trusted_height))
                    .collect();
            }
        }
    }
}

#[test]
fn update_in_two_parts_has_the_same_headers() {
    let mut parts = signed_headers(10, 12, trusted(3));
    parts.extend(signed_headers(13, 15, trusted(3)));
    assert_eq!(parts, signed_headers(10, 15, trusted(3)));
    assert_eq!(parts.len(), 6);
}

#[test]
fn trusted_revision_number_is_copied() {
    let other = Height { revision_number: 9, revision_height: 3 };
    assert_eq!(signed_headers(10, 10, trusted(3)), vec![(100, 41, trusted(3))]);
    assert_eq!(signed_headers(10, 10, other), vec![(100, 41, other)]);
}

#[test]
fn revision_number_of_a_query_is_ignored() {
    let request = |revision_number: u64| {
        let at = Height { revision_number, revision_height: 33 };
        client().query_path_request(vec![1], at, true).unwrap()
    };
    assert_eq!(request(1).height.unwrap().value(), request(2).height.unwrap().value());
    assert_eq!(request(1).data, request(2).data);
    assert_eq!(request(1).path, request(2).path);
}

#[test]
fn update_reaches_the_last_height() {
    let step = client().msg_update_client_header(height(MAX_BLOCK_HEIGHT), height(MAX_BLOCK_HEIGHT), trusted(0));
    let step = match step {
        HeaderStep::Fetch { sync, .. } => sync.step(Ok(block(1))),
        _ => panic!("expected a request"),
    };
    let step = match step {
        HeaderStep::Fetch { height, sync } => {
            assert_eq!(height.value(), 1);
            sync.step(Ok(block(2)))
        }
        _ => panic!("expected a request"),
    };
    assert!(matches!(step, HeaderStep::Done(Ok(headers)) if headers.len() == 1));
}

#[test]
fn update_stops_at_a_block_that_cannot_be_had() {
    let text = "Failed to fetch light block for chain \"hu\\\"b\" with error Rpc(1)";
    let step: HeaderStep<u32, u32> = client().msg_update_client_header(height(1), height(2), trusted(3));
    let sync = match step {
        HeaderStep::Fetch { sync, .. } => sync,
        _ => panic!("expected a request"),
    };
    match sync.step(Ok(block(1))) {
        HeaderStep::Fetch { sync, .. } => match sync.step(Err("Rpc(1)".to_string())) {
            HeaderStep::Done(Err(error)) => assert_eq!(custom(error), text),
            _ => panic!("expected a failure"),
        },
        _ => panic!("expected a request"),
    }
    // The trusted height is not looked at before the first block is there.
    let step: HeaderStep<u32, u32> =
        client().msg_update_client_header(height(1), height(2), trusted(MAX_BLOCK_HEIGHT));
    match step {
        HeaderStep::Fetch { sync, .. } => match sync.step(Err("Rpc(1)".to_string())) {
            HeaderStep::Done(Err(error)) => assert_eq!(custom(error), text),
            _ => panic!("expected a failure"),
        },
        _ => panic!("expected a request"),
    }
}

#[test]
fn update_stops_at_a_trusted_height_out_of_range() {
    let step = client().msg_update_client_header(height(1), height(2), trusted(u64::MAX));
    match step {
        HeaderStep::Fetch { sync, .. } => match sync.step(Ok(block(1))) {
            HeaderStep::Done(Err(error)) => {
                let text = custom(error);
                let start = "Failed to convert height for chain \"hu\\\"b\" with error ";
                assert!(text.starts_with(start));
                assert!(text.len() > start.len());
            }
            _ => panic!("expected a failure"),
        },
        _ => panic!("expected a request"),
    }
}

#[test]
fn known_result_of_the_height_conversion() {
    let step = client().msg_update_client_header(height(1), height(2), trusted(3));
    match step {
        HeaderStep::Fetch { sync, .. } => match sync.with_latest(block(1), Err("overflow".to_string())) {
            HeaderStep::Done(Err(error)) => assert_eq!(
                custom(error),
                "Failed to convert height for chain \"hu\\\"b\" with error overflow"
            ),
            _ => panic!("expected a failure"),
        },
        _ => panic!("expected a request"),
    }
}

#[test]
fn query_goes_to_the_ibc_store() {
    let request = client().query_path_request(vec![1, 2], trusted(33), true).unwrap();
    assert_eq!(request.path, "store/ibc/key");
    assert_eq!(request.data, vec![1, 2]);
    assert_eq!(request.height.unwrap().value(), 33);
    assert!(request.prove);
    let request = client().query_path_request(vec![], trusted(0), false).unwrap();
    assert!(request.height.is_none());
    assert!(!request.prove);
}

#[test]
fn query_height_must_be_a_block_height() {
    match client().query_path_request(vec![], trusted(MAX_BLOCK_HEIGHT + 1), true) {
        Err(error) => assert!(custom(error).starts_with("Invalid height ")),
        Ok(_) => panic!("the height was accepted"),
    }
    match AbciRequest::at(vec![], Err("too high".to_string()), true) {
        Err(error) => assert_eq!(custom(error), "Invalid height too high"),
        Ok(_) => panic!("the height was accepted"),
    }
}

#[test]
fn answer_comes_with_its_proof() {
    let (response, proof) = client().query_path(true, Ok(answer())).unwrap();
    assert_eq!(proof, vec![10, 0]);
    assert_eq!(response.log, "lo\ng");
    assert_eq!(response.info, "info");
    assert_eq!(response.index, -3);
    assert_eq!(response.key, vec![1]);
    assert_eq!(response.value, vec![2]);
    assert_eq!(response.height.value(), 12);
    assert_eq!(response.codespace, "sdk");
    assert_eq!(response.proof.unwrap().len(), 1);
}

#[test]
fn proof_is_made_of_the_data_of_its_steps() {
    let step = vec![0x0a, 0x03, 0x0a, 0x01, 0x01];
    let mut first = answer();
    first.proof = Some(vec![op(step.clone()), op(vec![])]);
    let mut second = answer();
    second.proof = Some(vec![
        ProofOp { field_type: String::new(), key: vec![], data: step },
        ProofOp { field_type: "other".to_string(), key: vec![1, 1], data: vec![] },
    ]);
    let expected = vec![0x0a, 0x05, 0x0a, 0x03, 0x0a, 0x01, 0x01, 0x0a, 0x00];
    assert_eq!(client().query_path(true, Ok(first)).unwrap().1, expected);
    assert_eq!(client().query_path(false, Ok(second)).unwrap().1, expected);
}

#[test]
fn failing_queries_are_reported() {
    match client().query_path(true, Err("Timeout".to_string())) {
        Err(error) => assert_eq!(custom(error), "Failed to query chain hu\"b with error Timeout"),
        Ok(_) => panic!("the query succeeded"),
    }
    let mut response = answer();
    response.code = 1234567;
    response.proof = None;
    assert_eq!(
        failed_query(false, response),
        "Query failed with code Err(1234567) and log \"lo\\ng\""
    );
    let mut response = answer();
    response.proof = None;
    assert_eq!(
        failed_query(true, response),
        "Query failed due to empty proof for chain hu\"b"
    );
    let mut response = answer();
    response.proof = Some(vec![op(vec![]), op(vec![0xff])]);
    assert_eq!(failed_query(true, response), "bad client state proof");
    let mut response = answer();
    response.proof = Some(vec![]);
    assert_eq!(
        failed_query(true, response),
        "bad client state proof: empty merkle proof"
    );
}

#[test]
fn proof_that_was_encoded_is_attached() {
    assert_eq!(answer().with_proof(Some(vec![7])).unwrap().1, vec![7]);
    match answer().with_proof(None) {
        Err(error) => assert_eq!(custom(error), "bad client state proof"),
        Ok(_) => panic!("a proof out of nothing"),
    }
}

#[test]
fn account_is_queried_by_the_key() {
    let query = client().account_query();
    assert_eq!(query.endpoint, "http://127.0.0.1:9090/");
    assert_eq!(query.address, "cosmos1account");
}

#[test]
fn account_is_decoded() {
    let value = vec![
        0x0a, 0x02, b'a', b'b', 0x12, 0x06, 0x0a, 0x01, b'/', 0x12, 0x01, 0x05, 0x18, 0x07, 0x20, 0x09,
    ];
    let found = Any { type_url: "/any".to_string(), value };
    let account = client().query_account(AccountReply::Answered(Some(found))).unwrap();
    assert_eq!(account.address, "ab");
    let key = account.pub_key.unwrap();
    assert_eq!(key.type_url, "/");
    assert_eq!(key.value, vec![5]);
    assert_eq!(account.account_number, 7);
    assert_eq!(account.sequence, 9);
    let nothing = Any { type_url: String::new(), value: vec![] };
    let account = client().query_account(AccountReply::Answered(Some(nothing))).unwrap();
    assert_eq!(account.address, "");
    assert!(account.pub_key.is_none());
    assert_eq!(account.sequence, 0);
}

#[test]
fn type_of_the_account_is_ignored() {
    for type_url in ["", "/cosmos.auth.v1beta1.BaseAccount", "/other"] {
        let found = Any { type_url: type_url.to_string(), value: vec![0x20, 0x09] };
        let account = client().query_account(AccountReply::Answered(Some(found))).unwrap();
        assert_eq!(account.sequence, 9);
    }
}

#[test]
fn failing_account_queries_are_reported() {
    let failure = |reply: AccountReply| match client().query_account(reply) {
        Ok(_) => panic!("an account was found"),
        Err(error) => custom(error),
    };
    assert_eq!(failure(AccountReply::NotConnected("refused".to_string())), "GRPC client error: refused");
    assert_eq!(failure(AccountReply::Failed("Status".to_string())), "Status");
    assert_eq!(failure(AccountReply::Answered(None)), "Account not found");
    let broken = Any { type_url: String::new(), value: vec![0xff] };
    assert_eq!(
        failure(AccountReply::Answered(Some(broken))),
        "Failed to decode account failed to decode Protobuf message: invalid varint"
    );
    match BaseAccount::from_decoded(Err("why".to_string())) {
        Err(error) => assert_eq!(custom(error), "Failed to decode account why"),
        Ok(_) => panic!("an account was found"),
    }
}

#[test]
fn fee_is_fixed() {
    let fee = Fee::standard();
    assert_eq!(fee.amount.len(), 1);
    assert_eq!(fee.amount[0].denom, "stake");
    assert_eq!(fee.amount[0].amount, "1000000");
    assert_eq!(fee.gas_limit, (i64::MAX - 1) as u64);
    assert_eq!(fee.payer, "");
    assert_eq!(fee.granter, "");
}

fn account() -> BaseAccount {
    BaseAccount { address: "ab".to_string(), pub_key: None, account_number: 7, sequence: 9 }
}

fn messages() -> Vec<Any> {
    vec![Any { type_url: "/msg".to_string(), value: vec![1] }]
}

fn act(step: Step) -> (SubmitAction<&'static str, u32>, SubmitState) {
    match step {
        SubmitStep::Act { action, state } => (action, state),
        SubmitStep::Done(_) => panic!("the submission ended"),
    }
}

#[test]
fn submission_goes_through_its_steps() {
    let client = client();
    let (action, state) = act(client.submit_call(messages()));
    assert!(matches!(action, SubmitAction::QueryAccount));
    let (action, state) = act(client.submit_step(state, Event::Account(Ok(account()))));
    match action {
        SubmitAction::Sign(request) => {
            assert_eq!(request.key.account, "cosmos1account");
            assert_eq!(request.key.private_key.key, vec![2; 32]);
            assert_eq!(request.chain_id.as_str(), "cosmoshub-4");
            assert_eq!(request.account.account_number, 7);
            assert_eq!(request.messages.len(), 1);
            assert_eq!(request.messages[0].type_url, "/msg");
            assert_eq!(request.fee.amount[0].denom, "stake");
        }
        _ => panic!("expected to sign"),
    }
    let signed = SignedTx { tx: "tx", tx_bytes: vec![3, 4] };
    let (action, state) = act(client.submit_step(state, Event::Signed(Ok(signed))));
    match action {
        SubmitAction::Simulate { endpoint, tx, tx_bytes } => {
            assert_eq!(endpoint, "http://127.0.0.1:9090/");
            assert_eq!(tx, "tx");
            assert_eq!(tx_bytes, vec![3, 4]);
        }
        _ => panic!("expected to simulate"),
    }
    let simulation = Simulation { events: "[Event]".to_string(), log: "fine".to_string() };
    let (action, state) = act(client.submit_step(state, Event::Simulated(Ok(Some(simulation)))));
    match action {
        SubmitAction::Broadcast { report, tx_bytes } => {
            assert_eq!(report.unwrap(), "Simulated transaction: events: [Event]\nlogs: fine");
            assert_eq!(tx_bytes, vec![3, 4]);
        }
        _ => panic!("expected to broadcast"),
    }
    let (action, state) = act(client.submit_step(state, Event::Broadcast(Ok(11))));
    assert!(matches!(action, SubmitAction::Confirm { hash: 11 }));
    match client.submit_step(state, Event::Confirmed(Ok(12))) {
        SubmitStep::Done(Ok(hash)) => assert_eq!(hash, 12),
        _ => panic!("expected the end"),
    }
}

#[test]
fn submission_without_a_simulation_result_prints_nothing() {
    let state = SubmitState::Simulating { tx_bytes: vec![1] };
    let (action, _) = act(client().submit_step(state, Event::Simulated(Ok(None))));
    assert!(matches!(action, SubmitAction::Broadcast { report: None, .. }));
}

#[test]
fn submission_stops_at_any_failure() {
    let failing = |state: SubmitState, event: Event| match client().submit_step(state, event) {
        SubmitStep::Done(Err(error)) => custom(error),
        _ => panic!("the submission went on"),
    };
    let error = |text: &str| Error::Custom(text.to_string());
    assert_eq!(failing(SubmitState::Querying { messages: messages() }, Event::Account(Err(error("a")))), "a");
    assert_eq!(failing(SubmitState::Signing, Event::Signed(Err(error("b")))), "b");
    assert_eq!(failing(SubmitState::Simulating { tx_bytes: vec![] }, Event::Simulated(Err(error("c")))), "c");
    assert_eq!(failing(SubmitState::Broadcasting, Event::Broadcast(Err(error("d")))), "d");
    assert_eq!(failing(SubmitState::Confirming, Event::Confirmed(Err(error("e")))), "e");
}

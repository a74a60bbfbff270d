use cosmos_client::client::{CosmosClient, CosmosClientConfig, PendingClient};
use cosmos_client::client_state::{AnyClientState, AnyConsensusState};
use cosmos_client::error::Error;
use cosmos_client::identifier::{ChainId, ChannelId, ClientId, CommitmentPrefix, ConnectionId, PortId};
use cosmos_client::key::{ConfigKeyEntry, ExtendedKey, KeyEntry, KeyError};

const XPUB: &str = "xpub661MyMwAqRbcFtXgS5sYJABqqG9YLmC4Q1Rdap9gSE8NqtwybGhePY2gZ29ESFjqJoCu1Rupje8YtGqsefD265TMg7usUDFdp6W1EGMcet8";
const XPRV: &str = "xprv9s21ZrQH143K3QTDL4LXw2F7HEK3wJUD2nW2nRk4stbPy6cq3jPPqjiChkVvvNKmPGJxWUtg6LnF5kejMRNNU3TGtRBeJgk33yuGBxrMPHi";

type Client = CosmosClient<(), u32, u64>;

fn key() -> ConfigKeyEntry {
    ConfigKeyEntry {
        public_key: XPUB.to_string(),
        private_key: XPRV.to_string(),
        account: "cosmos1account".to_string(),
        address: vec![1, 2, 3],
    }
}

fn config() -> CosmosClientConfig {
    CosmosClientConfig {
        name: "hub".to_string(),
        rpc_url: "http://127.0.0.1:26657/".to_string(),
        grpc_url: "http://127.0.0.1:9090/".to_string(),
        websocket_url: "ws://127.0.0.1:26657/websocket".to_string(),
        chain_id: "cosmoshub-4".to_string(),
        client_id: Some("07-tendermint-0".to_string()),
        connection_id: Some("connection-0".to_string()),
        account_prefix: "cosmos".to_string(),
        store_prefix: "ibc".to_string(),
        max_tx_size: 200000,
        keybase: key(),
        wasm_code_id: None,
        wasm_client_type: None,
    }
}

fn open(config: CosmosClientConfig) -> Result<Client, Error> {
    CosmosClient::new(PendingClient::prepare(config, Ok(7))?, Ok(8))
}

fn custom(error: Error) -> String {
    match error {
        Error::Custom(text) => text,
        Error::RpcError(text) => panic!("unexpected RPC error {}", text),
    }
}

fn refused(config: CosmosClientConfig) -> String {
    match open(config) {
        Ok(_) => panic!("the client opened"),
        Err(error) => custom(error),
    }
}

fn extended(byte: u8) -> ExtendedKey {
    ExtendedKey {
        depth: 1,
        parent_fingerprint: vec![byte; 4],
        child_number: 2,
        chain_code: vec![byte; 32],
        key: vec![byte; 32],
    }
}

#[test]
fn client_opens_as_configured() {
    let client = open(config()).unwrap();
    assert_eq!(client.name, "hub");
    assert_eq!(client.rpc_client, 7);
    assert_eq!(client.light_client, 8);
    assert_eq!(client.grpc_url, "http://127.0.0.1:9090/");
    assert_eq!(client.websocket_url, "ws://127.0.0.1:26657/websocket");
    assert_eq!(client.chain_id.as_str(), "cosmoshub-4");
    assert_eq!(client.chain_id.version(), 4);
    assert_eq!(client.client_id().as_str(), "07-tendermint-0");
    assert_eq!(client.connection_id.as_ref().unwrap().as_str(), "connection-0");
    assert_eq!(client.account_prefix, "cosmos");
    assert_eq!(client.commitment_prefix.as_bytes(), b"ibc");
    assert_eq!(client.max_tx_size, 200000);
    assert_eq!(client.keybase.account, "cosmos1account");
    assert_eq!(client.keybase.address, vec![1, 2, 3]);
    assert!(client.channel_whitelist.is_empty());
}

#[test]
fn client_opens_without_identifiers() {
    let mut given = config();
    given.client_id = None;
    given.connection_id = None;
    let client = open(given).unwrap();
    assert!(client.client_id.is_none());
    assert!(client.connection_id.is_none());
}

#[test]
fn pending_client_keeps_its_configuration() {
    let pending = PendingClient::prepare(config(), Ok(7u32)).unwrap();
    assert_eq!(pending.config.rpc_url, "http://127.0.0.1:26657/");
    assert_eq!(pending.rpc_client, 7);
    assert_eq!(pending.chain_id.version(), 4);
    assert_eq!(pending.client_id.unwrap().as_str(), "07-tendermint-0");
}

#[test]
fn rpc_failure_comes_first() {
    let mut given = config();
    given.client_id = Some("short".to_string());
    let pending: Result<PendingClient<u32>, Error> = PendingClient::prepare(given, Err("no route".to_string()));
    match pending {
        Err(Error::RpcError(text)) => assert_eq!(text, "no route"),
        _ => panic!("expected the RPC error"),
    }
}

#[test]
fn invalid_client_id_is_reported() {
    let mut given = config();
    given.client_id = Some("short".to_string());
    given.store_prefix = String::new();
    assert_eq!(
        refused(given),
        "Invalid client id InvalidLength { id: \"short\", length: 5, min: 9, max: 64 }"
    );
}

#[test]
fn light_client_failure_is_handed_on() {
    let mut given = config();
    given.store_prefix = String::new();
    let pending = PendingClient::prepare(given, Ok(7u32)).unwrap();
    let client: Result<Client, Error> = CosmosClient::new(pending, Err(Error::RpcError("down".to_string())));
    match client {
        Err(Error::RpcError(text)) => assert_eq!(text, "down"),
        _ => panic!("expected the failure of the light client"),
    }
}

#[test]
fn empty_store_prefix_is_reported() {
    let mut given = config();
    given.store_prefix = String::new();
    given.connection_id = Some("a/b".to_string());
    assert_eq!(refused(given), "Invalid store prefix EmptyCommitmentPrefix");
}

#[test]
fn invalid_connection_id_is_reported() {
    let mut given = config();
    given.connection_id = Some("connection/0".to_string());
    given.keybase.public_key = String::new();
    assert_eq!(
        refused(given),
        "Invalid connection id ContainSeparator { id: \"connection/0\" }"
    );
}

#[test]
fn invalid_keys_are_reported() {
    let mut given = config();
    given.keybase.public_key = "0".to_string();
    assert_eq!(refused(given), "base58 error");
    let mut given = config();
    given.keybase.private_key = XPUB.to_string();
    assert_eq!(refused(given), "cryptographic error");
}

#[test]
fn wasm_options_change_nothing() {
    let mut given = config();
    given.wasm_code_id = Some("0123".to_string());
    given.wasm_client_type = Some("10-grandpa".to_string());
    let client = open(given).unwrap();
    assert_eq!(client.name, "hub");
    assert_eq!(client.client_id().as_str(), "07-tendermint-0");
    assert_eq!(client.chain_id.as_str(), "cosmoshub-4");
    assert_eq!(client.commitment_prefix.as_bytes(), b"ibc");
}

#[test]
fn first_fault_of_an_identifier_is_told() {
    assert_eq!(ClientId::parse("a/b").unwrap_err(), "ContainSeparator { id: \"a/b\" }");
    assert_eq!(
        ClientId::parse("a@b").unwrap_err(),
        "InvalidLength { id: \"a@b\", length: 3, min: 9, max: 64 }"
    );
    assert_eq!(
        ClientId::parse("\u{e9}\u{e9}").unwrap_err(),
        "InvalidLength { id: \"\u{e9}\u{e9}\", length: 4, min: 9, max: 64 }"
    );
    let long = "c".repeat(100);
    assert_eq!(
        ConnectionId::parse(&long).unwrap_err(),
        format!("InvalidLength {{ id: \"{}\", length: 100, min: 10, max: 64 }}", long)
    );
    assert_eq!(
        ConnectionId::parse("tab\tand\"quote").unwrap_err(),
        "InvalidCharacter { id: \"tab\\tand\\\"quote\" }"
    );
    assert_eq!(ConnectionId::parse("").unwrap_err(), "Empty");
}

#[test]
fn keys_have_their_sizes() {
    let keybase = open(config()).unwrap().keybase;
    assert_eq!(keybase.public_key.key.len(), 33);
    assert_eq!(keybase.private_key.key.len(), 32);
    assert_eq!(keybase.public_key.chain_code.len(), 32);
    assert_eq!(keybase.private_key.chain_code.len(), 32);
    assert_eq!(keybase.public_key.parent_fingerprint.len(), 4);
    assert_eq!(keybase.private_key.parent_fingerprint.len(), 4);
}

#[test]
fn client_id_reads_back_what_was_set() {
    let mut client = open(config()).unwrap();
    client.set_client_id(ClientId::parse("07-tendermint-1").unwrap());
    client.set_client_id(ClientId::parse("07-tendermint-2").unwrap());
    assert_eq!(client.client_id().as_str(), "07-tendermint-2");
    assert_eq!(client.name, "hub");
    assert_eq!(client.connection_id.unwrap().as_str(), "connection-0");
}

#[test]
fn clone_keeps_every_value() {
    let mut client = open(config()).unwrap();
    client.channel_whitelist.push((
        ChannelId { id: "channel-0".to_string() },
        PortId { id: "transfer".to_string() },
    ));
    let copy = client.clone();
    assert_eq!(copy.name, client.name);
    assert_eq!(copy.rpc_client, 7);
    assert_eq!(copy.light_client, 8);
    assert_eq!(copy.keybase.private_key.key, client.keybase.private_key.key);
    assert_eq!(copy.channel_whitelist.len(), 1);
    assert_eq!(copy.channel_whitelist[0].0.id, "channel-0");
    assert_eq!(copy.channel_whitelist[0].1.id, "transfer");
    assert_eq!(config().clone().store_prefix, "ibc");
}

#[test]
fn keys_are_read_from_base58() {
    let entry = KeyEntry::try_from(key()).unwrap();
    assert_eq!(entry.public_key.depth, 0);
    assert_eq!(entry.public_key.parent_fingerprint, vec![0; 4]);
    assert_eq!(entry.public_key.child_number, 0);
    assert_eq!(entry.public_key.chain_code[..4], [0x87, 0x3d, 0xff, 0x81]);
    assert_eq!(entry.public_key.key.len(), 33);
    assert_eq!(entry.public_key.key[..4], [0x03, 0x39, 0xa3, 0x60]);
    assert_eq!(entry.private_key.chain_code, entry.public_key.chain_code);
    assert_eq!(entry.private_key.key.len(), 32);
    assert_eq!(entry.private_key.key[..4], [0xe8, 0xf3, 0x2e, 0x72]);
    assert_eq!(entry.account, "cosmos1account");
    assert_eq!(entry.address, vec![1, 2, 3]);
}

#[test]
fn error_of_the_public_key_comes_first() {
    let mut given = key();
    given.public_key = XPRV.to_string();
    given.private_key = "0".to_string();
    match KeyEntry::try_from(given) {
        Err(error) => assert_eq!(error.message, "cryptographic error"),
        Ok(_) => panic!("a private key passed for a public one"),
    }
}

#[test]
fn parsed_keys_are_put_together() {
    let entry = KeyEntry::from_parsed(Ok(extended(1)), Ok(extended(2)), "a".to_string(), vec![9]).unwrap();
    assert_eq!(entry.public_key.key, vec![1; 32]);
    assert_eq!(entry.private_key.parent_fingerprint, vec![2; 4]);
    let refused = KeyEntry::from_parsed(
        Ok(extended(1)),
        Err(KeyError { message: "second".to_string() }),
        "a".to_string(),
        vec![9],
    );
    assert!(matches!(refused, Err(error) if error.message == "second"));
}

#[test]
fn client_ids_are_checked() {
    assert_eq!(ClientId::parse("07-tendermint-0").unwrap().as_str(), "07-tendermint-0");
    assert!(ClientId::parse("123456789").is_ok());
    assert!(ClientId::parse("12345678").is_err());
    assert!(ClientId::parse(&"a".repeat(64)).is_ok());
    assert!(ClientId::parse(&"a".repeat(65)).is_err());
    assert!(ClientId::parse("._+-#[]<>aZ09").is_ok());
    assert_eq!(ClientId::parse("").unwrap_err(), "Empty");
    assert_eq!(
        ClientId::parse("client@00001").unwrap_err(),
        "InvalidCharacter { id: \"client@00001\" }"
    );
    // Nine bytes in six characters, all of them letters.
    assert!(ClientId::parse("abc\u{e9}\u{e9}\u{e9}").is_ok());
    assert!(ClientId::parse("client\u{2603}00001").is_err());
}

#[test]
fn connection_ids_are_checked() {
    assert_eq!(ConnectionId::parse("connection-0").unwrap().as_str(), "connection-0");
    assert_eq!(
        ConnectionId::parse("connect01").unwrap_err(),
        "InvalidLength { id: \"connect01\", length: 9, min: 10, max: 64 }"
    );
    let connection = ConnectionId::parse("connection-11").unwrap();
    assert!(ClientId::parse(connection.clone().as_str()).is_ok());
}

#[test]
fn chain_versions_stand_behind_the_last_dash() {
    assert_eq!(ChainId::parse("ibc-10").version(), 10);
    assert_eq!(ChainId::parse("cosmos-hub-97").version(), 97);
    assert_eq!(ChainId::parse("testnet-helloworld-2").version(), 2);
    assert_eq!(ChainId::parse("chainA").version(), 0);
    assert_eq!(ChainId::parse("chainA-0").version(), 0);
    assert_eq!(ChainId::parse("chain--a-0").version(), 0);
    assert_eq!(ChainId::parse("chain--7").version(), 0);
    assert_eq!(ChainId::parse("-7").version(), 0);
    assert_eq!(ChainId::parse("c-18446744073709551615").version(), u64::MAX);
    assert_eq!(ChainId::parse("c-18446744073709551616").version(), 0);
    assert_eq!(ChainId::parse("").version(), 0);
    assert_eq!(ChainId::parse("\u{e9}-3").version(), 3);
    assert_eq!(ChainId::parse("a\nb-3").clone().as_str(), "a\nb-3");
    assert_eq!(ChainId::parse("a\nb-3").version(), 3);
}

#[test]
fn store_prefix_is_utf8() {
    assert_eq!(CommitmentPrefix::parse("\u{e9}").unwrap().clone().as_bytes(), [0xc3, 0xa9]);
    assert_eq!(CommitmentPrefix::parse("").unwrap_err(), "EmptyCommitmentPrefix");
}

#[test]
fn client_state_must_be_tendermint() {
    let client = open(config()).unwrap();
    let states = client.construct_tendermint_client_state(Ok((
        AnyClientState::Tendermint(1u8),
        AnyConsensusState::Tendermint(2u16),
    )));
    assert_eq!(states.unwrap(), (1, 2));
    let mixed: Result<(u8, u16), Error> =
        client.construct_tendermint_client_state(Ok((AnyClientState::Tendermint(1), AnyConsensusState::Other)));
    assert_eq!(custom(mixed.unwrap_err()), "Failed to initialize client state for chain \"hub\"");
    let other: Result<(u8, u16), Error> =
        client.construct_tendermint_client_state(Ok((AnyClientState::Other, AnyConsensusState::Tendermint(2))));
    assert_eq!(custom(other.unwrap_err()), "Failed to initialize client state for chain \"hub\"");
    let failed: Result<(u8, u16), Error> = client.construct_tendermint_client_state(Err("Timeout".to_string()));
    assert_eq!(
        custom(failed.unwrap_err()),
        "Failed to initialize client state for chain \"hub\" with error Timeout"
    );
}

#[test]
fn errors_are_made_from_text() {
    assert_eq!(custom(Error::from("text".to_string())), "text");
}

//! The client and its configuration.

use crate::error::{join2, Error, ErrorView};
use crate::identifier::{
    chain_id_of, chain_version, client_id_error, connection_id_error, valid_client_id, valid_connection_id,
    ChainId, ChainIdView, ChannelId, ClientId, CommitmentPrefix, ConnectionId, PortId,
};
use crate::key::{
    key_entry_of, key_outcome, private_key_of, public_key_of, sized_keys, ConfigKeyEntry,
    ConfigKeyEntryView, KeyEntry, KeyEntryView, KeyError,
};
use crate::views::{described, option_view, outcome};
use vstd::prelude::*;

verus! {

/// Configuration of a [`CosmosClient`].
#[derive(Debug)]
pub struct CosmosClientConfig {
    /// Chain name
    pub name: String,
    /// RPC URL of the chain
    pub rpc_url: String,
    /// gRPC URL of the chain
    pub grpc_url: String,
    /// Websocket URL of the chain
    pub websocket_url: String,
    /// Chain identifier
    pub chain_id: String,
    /// Light client identifier on the counterparty chain
    pub client_id: Option<String>,
    /// Connection identifier
    pub connection_id: Option<String>,
    /// Account prefix
    pub account_prefix: String,
    /// Store prefix
    pub store_prefix: String,
    /// Maximum transaction size
    pub max_tx_size: usize,
    /// The key that signs transactions
    pub keybase: ConfigKeyEntry,
    /// The WASM code identifier with which client states and headers are wrapped
    pub wasm_code_id: Option<String>,
    /// The client type beneath the WASM one
    pub wasm_client_type: Option<String>,
}

/// The mathematical value of a [`CosmosClientConfig`].
pub struct CosmosClientConfigView {
    pub name: Seq<char>,
    pub rpc_url: Seq<char>,
    pub grpc_url: Seq<char>,
    pub websocket_url: Seq<char>,
    pub chain_id: Seq<char>,
    pub client_id: Option<Seq<char>>,
    pub connection_id: Option<Seq<char>>,
    pub account_prefix: Seq<char>,
    pub store_prefix: Seq<char>,
    pub max_tx_size: usize,
    pub keybase: ConfigKeyEntryView,
    pub wasm_code_id: Option<Seq<char>>,
    pub wasm_client_type: Option<Seq<char>>,
}

impl View for CosmosClientConfig {
    type V = CosmosClientConfigView;

    open spec fn view(&self) -> CosmosClientConfigView {
        CosmosClientConfigView {
            name: self.name@,
            rpc_url: self.rpc_url@,
            grpc_url: self.grpc_url@,
            websocket_url: self.websocket_url@,
            chain_id: self.chain_id@,
            client_id: option_view(self.client_id),
            connection_id: option_view(self.connection_id),
            account_prefix: self.account_prefix@,
            store_prefix: self.store_prefix@,
            max_tx_size: self.max_tx_size,
            keybase: self.keybase@,
            wasm_code_id: option_view(self.wasm_code_id),
            wasm_client_type: option_view(self.wasm_client_type),
        }
    }
}

impl Clone for CosmosClientConfig {
    fn clone(&self) -> (copy: Self)
        ensures
            copy@ == self@,
    {
        CosmosClientConfig {
            name: self.name.clone(),
            rpc_url: self.rpc_url.clone(),
            grpc_url: self.grpc_url.clone(),
            websocket_url: self.websocket_url.clone(),
            chain_id: self.chain_id.clone(),
            client_id: self.client_id.clone(),
            connection_id: self.connection_id.clone(),
            account_prefix: self.account_prefix.clone(),
            store_prefix: self.store_prefix.clone(),
            max_tx_size: self.max_tx_size,
            keybase: self.keybase.clone(),
            wasm_code_id: self.wasm_code_id.clone(),
            wasm_client_type: self.wasm_client_type.clone(),
        }
    }
}

/// A client that has its RPC handle and waits for its light client.
pub struct PendingClient<R> {
    pub config: CosmosClientConfig,
    pub rpc_client: R,
    pub chain_id: ChainId,
    pub client_id: Option<ClientId>,
}

/// The mathematical value of a [`PendingClient`].
pub struct PendingClientView<R> {
    pub config: CosmosClientConfigView,
    pub rpc_client: R,
    pub chain_id: ChainIdView,
    pub client_id: Option<Seq<char>>,
}

impl<R> View for PendingClient<R> {
    type V = PendingClientView<R>;

    open spec fn view(&self) -> PendingClientView<R> {
        PendingClientView {
            config: self.config@,
            rpc_client: self.rpc_client,
            chain_id: self.chain_id@,
            client_id: option_view(self.client_id),
        }
    }
}

/// A client of a Cosmos chain, with the handle `R` of its RPC interface, its
/// light client `L` and the host functions `H`. It is responsible for:
/// 1. Tracking a light client of the chain on a counterparty chain, and
///    advancing the state of that light client as new finality proofs are
///    observed.
/// 2. Submitting new IBC messages to the chain.
pub struct CosmosClient<H, R, L> {
    /// Chain name
    pub name: String,
    /// Handle of the chain's RPC interface
    pub rpc_client: R,
    /// Chain gRPC address
    pub grpc_url: String,
    /// Chain websocket address
    pub websocket_url: String,
    /// Chain identifier
    pub chain_id: ChainId,
    /// Light client identifier on the counterparty chain
    pub client_id: Option<ClientId>,
    /// Connection identifier
    pub connection_id: Option<ConnectionId>,
    /// Light client instance
    pub light_client: L,
    /// The key that signs transactions
    pub keybase: KeyEntry,
    /// Account prefix
    pub account_prefix: String,
    /// Prefix of the commitment store
    pub commitment_prefix: CommitmentPrefix,
    /// Maximum transaction size
    pub max_tx_size: usize,
    /// Channels cleared for packet relay
    pub channel_whitelist: Vec<(ChannelId, PortId)>,
    /// Finality protocol to use
    pub _phantom: std::marker::PhantomData<H>,
}

/// The mathematical value of a [`CosmosClient`].
pub struct CosmosClientView<R, L> {
    pub name: Seq<char>,
    pub rpc_client: R,
    pub grpc_url: Seq<char>,
    pub websocket_url: Seq<char>,
    pub chain_id: ChainIdView,
    pub client_id: Option<Seq<char>>,
    pub connection_id: Option<Seq<char>>,
    pub light_client: L,
    pub keybase: KeyEntryView,
    pub account_prefix: Seq<char>,
    pub commitment_prefix: Seq<u8>,
    pub max_tx_size: usize,
    pub channel_whitelist: Seq<(ChannelId, PortId)>,
}

impl<H, R, L> View for CosmosClient<H, R, L> {
    type V = CosmosClientView<R, L>;

    open spec fn view(&self) -> CosmosClientView<R, L> {
        CosmosClientView {
            name: self.name@,
            rpc_client: self.rpc_client,
            grpc_url: self.grpc_url@,
            websocket_url: self.websocket_url@,
            chain_id: self.chain_id@,
            client_id: option_view(self.client_id),
            connection_id: option_view(self.connection_id),
            light_client: self.light_client,
            keybase: self.keybase@,
            account_prefix: self.account_prefix@,
            commitment_prefix: self.commitment_prefix@,
            max_tx_size: self.max_tx_size,
            channel_whitelist: self.channel_whitelist@,
        }
    }
}

/// A copy of a channel whitelist.
fn copy_whitelist(whitelist: &Vec<(ChannelId, PortId)>) -> (copy: Vec<(ChannelId, PortId)>)
    ensures
        copy@ == whitelist@,
{
    let mut copy: Vec<(ChannelId, PortId)> = Vec::new();
    let mut i: usize = 0;
    while i < whitelist.len()
        invariant
            i <= whitelist@.len(),
            copy@ == whitelist@.take(i as int),
        decreases whitelist@.len() - i,
    {
        copy.push((whitelist[i].0.clone(), whitelist[i].1.clone()));
        i = i + 1;
    }
    copy
}

impl<H, R: Clone, L: Clone> Clone for CosmosClient<H, R, L> {
    /// A client with the same values, and with clones of both handles.
    fn clone(&self) -> (copy: Self)
        ensures
            copy@ == (CosmosClientView {
                rpc_client: copy.rpc_client,
                light_client: copy.light_client,
                ..self@
            }),
            cloned(self.rpc_client, copy.rpc_client),
            cloned(self.light_client, copy.light_client),
    {
        CosmosClient {
            name: self.name.clone(),
            rpc_client: self.rpc_client.clone(),
            grpc_url: self.grpc_url.clone(),
            websocket_url: self.websocket_url.clone(),
            chain_id: self.chain_id.clone(),
            client_id: self.client_id.clone(),
            connection_id: self.connection_id.clone(),
            light_client: self.light_client.clone(),
            keybase: self.keybase.clone(),
            account_prefix: self.account_prefix.clone(),
            commitment_prefix: self.commitment_prefix.clone(),
            max_tx_size: self.max_tx_size,
            channel_whitelist: copy_whitelist(&self.channel_whitelist),
            _phantom: std::marker::PhantomData,
        }
    }
}

/// What is known of the client once its RPC handle was asked for: the failure
/// of the handle, else the failure of the client identifier, else the client
/// that waits for its light client.
pub open spec fn prepared<R>(config: CosmosClientConfigView, rpc: Result<R, Seq<char>>) -> Result<
    PendingClientView<R>,
    ErrorView,
> {
    match rpc {
        Err(text) => Err(ErrorView::RpcError(text)),
        Ok(rpc_client) => match config.client_id {
            Some(id) if !valid_client_id(id) => Err(
                ErrorView::Custom("Invalid client id "@ + client_id_error(id)),
            ),
            _ => Ok(
                PendingClientView {
                    config,
                    rpc_client,
                    chain_id: chain_id_of(config.chain_id),
                    client_id: config.client_id,
                },
            ),
        },
    }
}

/// The client once its light client was asked for and its key was read: the
/// failure of the light client, else that of the store prefix, else that of the
/// connection identifier, else that of the key, else the client.
pub open spec fn finished<R, L>(
    pending: PendingClientView<R>,
    light_client: Result<L, ErrorView>,
    keybase: Result<KeyEntryView, Seq<char>>,
) -> Result<CosmosClientView<R, L>, ErrorView> {
    let config = pending.config;
    match light_client {
        Err(error) => Err(error),
        Ok(light_client) => if config.store_prefix.len() == 0 {
            Err(ErrorView::Custom("Invalid store prefix "@ + "EmptyCommitmentPrefix"@))
        } else {
            match config.connection_id {
                Some(id) if !valid_connection_id(id) => Err(
                    ErrorView::Custom("Invalid connection id "@ + connection_id_error(id)),
                ),
                _ => match keybase {
                    Err(text) => Err(ErrorView::Custom(text)),
                    Ok(keybase) => Ok(
                        CosmosClientView {
                            name: config.name,
                            rpc_client: pending.rpc_client,
                            grpc_url: config.grpc_url,
                            websocket_url: config.websocket_url,
                            chain_id: pending.chain_id,
                            client_id: pending.client_id,
                            connection_id: config.connection_id,
                            light_client,
                            keybase,
                            account_prefix: config.account_prefix,
                            commitment_prefix: vstd::utf8::encode_utf8(config.store_prefix),
                            max_tx_size: config.max_tx_size,
                            channel_whitelist: Seq::empty(),
                        },
                    ),
                },
            }
        },
    }
}

impl<R> PendingClient<R> {
    /// The first half of setting a client up: takes the RPC handle that was
    /// opened at `config.rpc_url`, or the description of its failure, and reads
    /// the identifiers of the chain and of the light client.
    pub fn prepare(config: CosmosClientConfig, rpc_client: Result<R, String>) -> (pending: Result<
        Self,
        Error,
    >)
        ensures
            outcome(pending, |p: PendingClient<R>| p@) == prepared(config@, described(rpc_client)),
    {
        let rpc_client = match rpc_client {
            Ok(rpc_client) => rpc_client,
            Err(text) => return Err(Error::RpcError(text)),
        };
        let chain_id = ChainId::parse(config.chain_id.as_str());
        let client_id = match &config.client_id {
            None => None,
            Some(id) => match ClientId::parse(id.as_str()) {
                Ok(client_id) => Some(client_id),
                Err(text) => return Err(
                    Error::from(join2("Invalid client id ", text.as_str())),
                ),
            },
        };
        Ok(PendingClient { config, rpc_client, chain_id, client_id })
    }
}

impl<H, R, L> CosmosClient<H, R, L> {
    /// The second half of setting a client up: takes the light client that was
    /// started at `pending.config.rpc_url`, or its failure, and reads the rest
    /// of the configuration.
    pub fn new(pending: PendingClient<R>, light_client: Result<L, Error>) -> (client: Result<
        Self,
        Error,
    >)
        ensures
            outcome(client, |c: CosmosClient<H, R, L>| c@) == finished(
                pending@,
                outcome(light_client, |l: L| l),
                key_entry_of(pending@.config.keybase),
            ),
            client matches Ok(client) ==> sized_keys(client@.keybase),
    {
        let keybase = KeyEntry::try_from(pending.config.keybase.clone());
        CosmosClient::assemble(pending, light_client, keybase)
    }

    /// Puts the client together from its parts and a key that was read.
    pub fn assemble(
        pending: PendingClient<R>,
        light_client: Result<L, Error>,
        keybase: Result<KeyEntry, KeyError>,
    ) -> (client: Result<Self, Error>)
        ensures
            outcome(client, |c: CosmosClient<H, R, L>| c@) == finished(
                pending@,
                outcome(light_client, |l: L| l),
                key_outcome(keybase),
            ),
    {
        let light_client = match light_client {
            Ok(light_client) => light_client,
            Err(error) => return Err(error),
        };
        let config = pending.config;
        let commitment_prefix = match CommitmentPrefix::parse(config.store_prefix.as_str()) {
            Ok(prefix) => prefix,
            Err(text) => return Err(Error::from(join2("Invalid store prefix ", text.as_str()))),
        };
        let connection_id = match &config.connection_id {
            None => None,
            Some(id) => match ConnectionId::parse(id.as_str()) {
                Ok(connection_id) => Some(connection_id),
                Err(text) => return Err(
                    Error::from(join2("Invalid connection id ", text.as_str())),
                ),
            },
        };
        let keybase = match keybase {
            Ok(keybase) => keybase,
            Err(error) => return Err(Error::from(error.message)),
        };
        Ok(
            CosmosClient {
                name: config.name,
                rpc_client: pending.rpc_client,
                grpc_url: config.grpc_url,
                websocket_url: config.websocket_url,
                chain_id: pending.chain_id,
                client_id: pending.client_id,
                connection_id,
                light_client,
                keybase,
                account_prefix: config.account_prefix,
                commitment_prefix,
                max_tx_size: config.max_tx_size,
                channel_whitelist: Vec::new(),
                _phantom: std::marker::PhantomData,
            },
        )
    }

    /// The identifier of the light client on the counterparty chain, which must
    /// have been set.
    pub fn client_id(&self) -> (id: ClientId)
        requires
            self.client_id is Some,
        ensures
            Some(id) == self.client_id,
    {
        self.client_id.as_ref().unwrap().clone()
    }

    /// Sets the identifier of the light client on the counterparty chain.
    pub fn set_client_id(&mut self, client_id: ClientId)
        ensures
            final(self).client_id == Some(client_id),
            final(self)@ == with_client_id(old(self)@, client_id@),
            final(self).name == old(self).name,
            final(self).rpc_client == old(self).rpc_client,
            final(self).grpc_url == old(self).grpc_url,
            final(self).websocket_url == old(self).websocket_url,
            final(self).chain_id == old(self).chain_id,
            final(self).connection_id == old(self).connection_id,
            final(self).light_client == old(self).light_client,
            final(self).keybase == old(self).keybase,
            final(self).account_prefix == old(self).account_prefix,
            final(self).commitment_prefix == old(self).commitment_prefix,
            final(self).max_tx_size == old(self).max_tx_size,
            final(self).channel_whitelist == old(self).channel_whitelist,
    {
        self.client_id = Some(client_id);
    }
}

/// The client with another client identifier, all else unchanged.
pub open spec fn with_client_id<R, L>(client: CosmosClientView<R, L>, id: Seq<char>) -> CosmosClientView<
    R,
    L,
> {
    CosmosClientView { client_id: Some(id), ..client }
}

/// The whole of setting a client up, from its configuration and from how asking
/// for its handles went.
pub open spec fn opened<R, L>(
    config: CosmosClientConfigView,
    rpc: Result<R, Seq<char>>,
    light_client: Result<L, ErrorView>,
) -> Result<CosmosClientView<R, L>, ErrorView> {
    match prepared(config, rpc) {
        Err(error) => Err(error),
        Ok(pending) => finished(pending, light_client, key_entry_of(config.keybase)),
    }
}

/// A client opens exactly where both handles could be had, the identifiers that
/// are configured are valid, the store prefix is not empty and the key can be
/// read.
pub proof fn client_opens_exactly_when<R, L>(
    config: CosmosClientConfigView,
    rpc: Result<R, Seq<char>>,
    light_client: Result<L, ErrorView>,
)
    ensures
        opened(config, rpc, light_client) is Ok <==> {
            &&& rpc is Ok
            &&& config.client_id matches Some(id) ==> valid_client_id(id)
            &&& light_client is Ok
            &&& config.store_prefix.len() > 0
            &&& config.connection_id matches Some(id) ==> valid_connection_id(id)
            &&& key_entry_of(config.keybase) is Ok
        },
{
}

/// A client that opened is as its configuration says: it has the handles that
/// were handed in, the values that were configured, and no channel cleared for
/// relay.
pub proof fn opened_client_is_as_configured<R, L>(
    config: CosmosClientConfigView,
    rpc: Result<R, Seq<char>>,
    light_client: Result<L, ErrorView>,
)
    ensures
        opened(config, rpc, light_client) matches Ok(client) ==> {
            &&& rpc == Ok::<R, Seq<char>>(client.rpc_client)
            &&& light_client == Ok::<L, ErrorView>(client.light_client)
            &&& key_entry_of(config.keybase) == Ok::<KeyEntryView, Seq<char>>(client.keybase)
            &&& client.name == config.name
            &&& client.grpc_url == config.grpc_url
            &&& client.websocket_url == config.websocket_url
            &&& client.chain_id == chain_id_of(config.chain_id)
            &&& client.client_id == config.client_id
            &&& client.connection_id == config.connection_id
            &&& client.account_prefix == config.account_prefix
            &&& client.commitment_prefix == vstd::utf8::encode_utf8(config.store_prefix)
            &&& client.max_tx_size == config.max_tx_size
            &&& client.keybase.account == config.keybase.account
            &&& client.keybase.address == config.keybase.address
            &&& client.channel_whitelist.len() == 0
        },
{
}

/// Where several things are wrong, the first of them is reported: the RPC
/// handle, the client identifier, the light client, the store prefix, the
/// connection identifier, the public key, the private key.
pub proof fn first_failure_is_reported<R, L>(
    config: CosmosClientConfigView,
    rpc: Result<R, Seq<char>>,
    light_client: Result<L, ErrorView>,
)
    ensures
        opened(config, rpc, light_client) matches Err(error) ==> {
            if rpc is Err {
                error == ErrorView::RpcError(rpc->Err_0)
            } else if config.client_id is Some && !valid_client_id(config.client_id->0) {
                error == ErrorView::Custom(
                    "Invalid client id "@ + client_id_error(config.client_id->0),
                )
            } else if light_client is Err {
                error == light_client->Err_0
            } else if config.store_prefix.len() == 0 {
                error == ErrorView::Custom("Invalid store prefix "@ + "EmptyCommitmentPrefix"@)
            } else if config.connection_id is Some && !valid_connection_id(
                config.connection_id->0,
            ) {
                error == ErrorView::Custom(
                    "Invalid connection id "@ + connection_id_error(config.connection_id->0),
                )
            } else if public_key_of(config.keybase.public_key) is Err {
                error == ErrorView::Custom(public_key_of(config.keybase.public_key)->Err_0)
            } else {
                error == ErrorView::Custom(private_key_of(config.keybase.private_key)->Err_0)
            }
        },
{
}

/// The WASM options of a configuration have no effect on the client.
pub proof fn wasm_options_are_ignored<R, L>(
    config: CosmosClientConfigView,
    wasm_code_id: Option<Seq<char>>,
    wasm_client_type: Option<Seq<char>>,
    rpc: Result<R, Seq<char>>,
    light_client: Result<L, ErrorView>,
)
    ensures
        opened(
            CosmosClientConfigView { wasm_code_id, wasm_client_type, ..config },
            rpc,
            light_client,
        ) == opened(config, rpc, light_client),
{
}

/// The client identifier that was set last is the one that is read, and
/// identifiers set before leave no trace.
pub proof fn last_client_id_counts<R, L>(
    client: CosmosClientView<R, L>,
    first: Seq<char>,
    second: Seq<char>,
)
    ensures
        with_client_id(client, second).client_id == Some(second),
        with_client_id(with_client_id(client, first), second) == with_client_id(client, second),
{
}

/// A client is prepared exactly where its RPC handle could be had and the client
/// identifier, where one is configured, is valid. It then has that handle, the
/// whole configuration, and the identifiers that are configured.
pub proof fn prepared_client_keeps_its_configuration<R>(
    config: CosmosClientConfig,
    rpc_client: Result<R, String>,
    pending: Result<PendingClient<R>, Error>,
)
    requires
        call_ensures(PendingClient::<R>::prepare, (config, rpc_client), pending),
    ensures
        pending is Ok <==> rpc_client is Ok && (config.client_id matches Some(id)
            ==> valid_client_id(id@)),
        pending matches Ok(pending) ==> {
            &&& rpc_client == Ok::<R, String>(pending.rpc_client)
            &&& pending.chain_id@.id == config.chain_id@
            &&& pending.chain_id@.version == chain_version(config.chain_id@)
            &&& pending.client_id is Some <==> config.client_id is Some
            &&& pending.client_id matches Some(id) ==> id@ == config.client_id->0@
            &&& pending.config.name@ == config.name@
            &&& pending.config.rpc_url@ == config.rpc_url@
            &&& pending.config.grpc_url@ == config.grpc_url@
            &&& pending.config.websocket_url@ == config.websocket_url@
            &&& pending.config.chain_id@ == config.chain_id@
            &&& pending.config.account_prefix@ == config.account_prefix@
            &&& pending.config.store_prefix@ == config.store_prefix@
            &&& pending.config.client_id is Some <==> config.client_id is Some
            &&& pending.config.client_id matches Some(text) ==> text@ == config.client_id->0@
            &&& pending.config.connection_id is Some <==> config.connection_id is Some
            &&& pending.config.connection_id matches Some(text) ==> text@ == config.connection_id->0@
            &&& pending.config.wasm_code_id is Some <==> config.wasm_code_id is Some
            &&& pending.config.wasm_code_id matches Some(text) ==> text@ == config.wasm_code_id->0@
            &&& pending.config.wasm_client_type is Some <==> config.wasm_client_type is Some
            &&& pending.config.wasm_client_type matches Some(text) ==> text@ == config.wasm_client_type->0@
            &&& pending.config.max_tx_size == config.max_tx_size
            &&& pending.config.keybase.public_key@ == config.keybase.public_key@
            &&& pending.config.keybase.private_key@ == config.keybase.private_key@
            &&& pending.config.keybase.account@ == config.keybase.account@
            &&& pending.config.keybase.address@ == config.keybase.address@
        },
        pending matches Err(error) ==> match rpc_client {
            Err(detail) => error matches Error::RpcError(text) && text@ == detail@,
            Ok(_) => config.client_id is Some && (error matches Error::Custom(text) && text@
                == "Invalid client id "@ + client_id_error(config.client_id->0@)),
        },
{
}

/// A client is put together exactly where its light client and its key could be
/// had, the store prefix is not empty, and the connection identifier, where one
/// is configured, is valid. Every part of it is then the one that was handed in
/// or configured. Else the first thing that is wrong is reported.
pub proof fn assembled_client_keeps_its_parts<H, R, L>(
    pending: PendingClient<R>,
    light_client: Result<L, Error>,
    keybase: Result<KeyEntry, KeyError>,
    client: Result<CosmosClient<H, R, L>, Error>,
)
    requires
        call_ensures(
            CosmosClient::<H, R, L>::assemble,
            (pending, light_client, keybase),
            client,
        ),
    ensures
        client is Ok <==> light_client is Ok && pending.config.store_prefix@.len() > 0 && (
        pending.config.connection_id matches Some(id) ==> valid_connection_id(id@)) && keybase is Ok,
        client matches Ok(client) ==> {
            &&& client.name@ == pending.config.name@
            &&& client.rpc_client == pending.rpc_client
            &&& client.grpc_url@ == pending.config.grpc_url@
            &&& client.websocket_url@ == pending.config.websocket_url@
            &&& client.chain_id@.id == pending.chain_id@.id
            &&& client.chain_id@.version == pending.chain_id@.version
            &&& client.client_id is Some <==> pending.client_id is Some
            &&& client.client_id matches Some(id) ==> id@ == pending.client_id->0@
            &&& client.connection_id is Some <==> pending.config.connection_id is Some
            &&& client.connection_id matches Some(id) ==> id@ == pending.config.connection_id->0@
            &&& light_client == Ok::<L, Error>(client.light_client)
            &&& client.account_prefix@ == pending.config.account_prefix@
            &&& client.commitment_prefix@ == vstd::utf8::encode_utf8(pending.config.store_prefix@)
            &&& client.max_tx_size == pending.config.max_tx_size
            &&& client.channel_whitelist@.len() == 0
            &&& client.keybase.public_key.depth == keybase->Ok_0.public_key.depth
            &&& client.keybase.public_key.parent_fingerprint@ == keybase->Ok_0.public_key.parent_fingerprint@
            &&& client.keybase.public_key.child_number == keybase->Ok_0.public_key.child_number
            &&& client.keybase.public_key.chain_code@ == keybase->Ok_0.public_key.chain_code@
            &&& client.keybase.public_key.key@ == keybase->Ok_0.public_key.key@
            &&& client.keybase.private_key.depth == keybase->Ok_0.private_key.depth
            &&& client.keybase.private_key.parent_fingerprint@ == keybase->Ok_0.private_key.parent_fingerprint@
            &&& client.keybase.private_key.child_number == keybase->Ok_0.private_key.child_number
            &&& client.keybase.private_key.chain_code@ == keybase->Ok_0.private_key.chain_code@
            &&& client.keybase.private_key.key@ == keybase->Ok_0.private_key.key@
            &&& client.keybase.account@ == keybase->Ok_0.account@
            &&& client.keybase.address@ == keybase->Ok_0.address@
        },
        client matches Err(error) ==> {
            if light_client is Err {
                error@ == light_client->Err_0@
            } else {
                error matches Error::Custom(text) && if pending.config.store_prefix@.len() == 0 {
                    text@ == "Invalid store prefix "@ + "EmptyCommitmentPrefix"@
                } else if pending.config.connection_id is Some && !valid_connection_id(
                    pending.config.connection_id->0@,
                ) {
                    text@ == "Invalid connection id "@ + connection_id_error(
                        pending.config.connection_id->0@,
                    )
                } else {
                    text@ == keybase->Err_0.message@
                }
            }
        },
{
}

/// A client opens exactly where its light client could be had, the store prefix
/// is not empty, the connection identifier, where one is configured, is valid,
/// and both configured keys can be read. Every part of it is then the one that was
/// handed in or configured, and its keys are the keys read. Else the first thing
/// that is wrong is reported.
pub proof fn new_client_is_as_configured<H, R, L>(
    pending: PendingClient<R>,
    light_client: Result<L, Error>,
    client: Result<CosmosClient<H, R, L>, Error>,
)
    requires
        call_ensures(CosmosClient::<H, R, L>::new, (pending, light_client), client),
    ensures
        client is Ok <==> light_client is Ok && pending.config.store_prefix@.len() > 0 && (
        pending.config.connection_id matches Some(id) ==> valid_connection_id(id@)) && public_key_of(
            pending.config.keybase.public_key@,
        ) is Ok && private_key_of(pending.config.keybase.private_key@) is Ok,
        client matches Ok(client) ==> {
            let public_key = public_key_of(pending.config.keybase.public_key@)->Ok_0;
            let private_key = private_key_of(pending.config.keybase.private_key@)->Ok_0;
            &&& client.name@ == pending.config.name@
            &&& client.rpc_client == pending.rpc_client
            &&& client.grpc_url@ == pending.config.grpc_url@
            &&& client.websocket_url@ == pending.config.websocket_url@
            &&& client.chain_id@.id == pending.chain_id@.id
            &&& client.chain_id@.version == pending.chain_id@.version
            &&& client.client_id is Some <==> pending.client_id is Some
            &&& client.client_id matches Some(id) ==> id@ == pending.client_id->0@
            &&& client.connection_id is Some <==> pending.config.connection_id is Some
            &&& client.connection_id matches Some(id) ==> id@ == pending.config.connection_id->0@
            &&& light_client == Ok::<L, Error>(client.light_client)
            &&& client.account_prefix@ == pending.config.account_prefix@
            &&& client.commitment_prefix@ == vstd::utf8::encode_utf8(pending.config.store_prefix@)
            &&& client.max_tx_size == pending.config.max_tx_size
            &&& client.channel_whitelist@.len() == 0
            &&& client.keybase.public_key.depth == public_key.depth
            &&& client.keybase.public_key.parent_fingerprint@ == public_key.parent_fingerprint
            &&& client.keybase.public_key.child_number == public_key.child_number
            &&& client.keybase.public_key.chain_code@ == public_key.chain_code
            &&& client.keybase.public_key.key@ == public_key.key
            &&& client.keybase.private_key.depth == private_key.depth
            &&& client.keybase.private_key.parent_fingerprint@ == private_key.parent_fingerprint
            &&& client.keybase.private_key.child_number == private_key.child_number
            &&& client.keybase.private_key.chain_code@ == private_key.chain_code
            &&& client.keybase.private_key.key@ == private_key.key
            &&& client.keybase.account@ == pending.config.keybase.account@
            &&& client.keybase.address@ == pending.config.keybase.address@
        },
        client matches Err(error) ==> {
            if light_client is Err {
                error@ == light_client->Err_0@
            } else {
                error matches Error::Custom(text) && if pending.config.store_prefix@.len() == 0 {
                    text@ == "Invalid store prefix "@ + "EmptyCommitmentPrefix"@
                } else if pending.config.connection_id is Some && !valid_connection_id(
                    pending.config.connection_id->0@,
                ) {
                    text@ == "Invalid connection id "@ + connection_id_error(
                        pending.config.connection_id->0@,
                    )
                } else if public_key_of(pending.config.keybase.public_key@) is Err {
                    text@ == public_key_of(pending.config.keybase.public_key@)->Err_0
                } else {
                    text@ == private_key_of(pending.config.keybase.private_key@)->Err_0
                }
            }
        },
{
}

/// A copy of a configuration has the same values.
pub proof fn copied_config_is_the_same(config: &CosmosClientConfig, copy: CosmosClientConfig)
    requires
        call_ensures(<CosmosClientConfig as Clone>::clone, (config,), copy),
    ensures
        copy.name@ == config.name@,
        copy.rpc_url@ == config.rpc_url@,
        copy.grpc_url@ == config.grpc_url@,
        copy.websocket_url@ == config.websocket_url@,
        copy.chain_id@ == config.chain_id@,
        copy.account_prefix@ == config.account_prefix@,
        copy.store_prefix@ == config.store_prefix@,
        copy.client_id is Some <==> config.client_id is Some,
        copy.client_id matches Some(text) ==> text@ == config.client_id->0@,
        copy.connection_id is Some <==> config.connection_id is Some,
        copy.connection_id matches Some(text) ==> text@ == config.connection_id->0@,
        copy.wasm_code_id is Some <==> config.wasm_code_id is Some,
        copy.wasm_code_id matches Some(text) ==> text@ == config.wasm_code_id->0@,
        copy.wasm_client_type is Some <==> config.wasm_client_type is Some,
        copy.wasm_client_type matches Some(text) ==> text@ == config.wasm_client_type->0@,
        copy.max_tx_size == config.max_tx_size,
        copy.keybase.public_key@ == config.keybase.public_key@,
        copy.keybase.private_key@ == config.keybase.private_key@,
        copy.keybase.account@ == config.keybase.account@,
        copy.keybase.address@ == config.keybase.address@,
{
}

/// A copy of a client has the same values, and clones of both handles.
pub proof fn copied_client_is_the_same<H, R: Clone, L: Clone>(
    client: &CosmosClient<H, R, L>,
    copy: CosmosClient<H, R, L>,
)
    requires
        call_ensures(<CosmosClient<H, R, L> as Clone>::clone, (client,), copy),
    ensures
        copy.name@ == client.name@,
        cloned(client.rpc_client, copy.rpc_client),
        copy.grpc_url@ == client.grpc_url@,
        copy.websocket_url@ == client.websocket_url@,
        copy.chain_id@.id == client.chain_id@.id,
        copy.chain_id@.version == client.chain_id@.version,
        copy.client_id is Some <==> client.client_id is Some,
        copy.client_id matches Some(id) ==> id@ == client.client_id->0@,
        copy.connection_id is Some <==> client.connection_id is Some,
        copy.connection_id matches Some(id) ==> id@ == client.connection_id->0@,
        cloned(client.light_client, copy.light_client),
        copy.keybase.public_key.depth == client.keybase.public_key.depth,
        copy.keybase.public_key.parent_fingerprint@ == client.keybase.public_key.parent_fingerprint@,
        copy.keybase.public_key.child_number == client.keybase.public_key.child_number,
        copy.keybase.public_key.chain_code@ == client.keybase.public_key.chain_code@,
        copy.keybase.public_key.key@ == client.keybase.public_key.key@,
        copy.keybase.private_key.depth == client.keybase.private_key.depth,
        copy.keybase.private_key.parent_fingerprint@ == client.keybase.private_key.parent_fingerprint@,
        copy.keybase.private_key.child_number == client.keybase.private_key.child_number,
        copy.keybase.private_key.chain_code@ == client.keybase.private_key.chain_code@,
        copy.keybase.private_key.key@ == client.keybase.private_key.key@,
        copy.keybase.account@ == client.keybase.account@,
        copy.keybase.address@ == client.keybase.address@,
        copy.account_prefix@ == client.account_prefix@,
        copy.commitment_prefix@ == client.commitment_prefix@,
        copy.max_tx_size == client.max_tx_size,
        copy.channel_whitelist@ == client.channel_whitelist@,
{
}

/// A client that was prepared from a configuration and then opened has the
/// identifiers and values of that configuration, and the handles that were handed
/// in.
pub proof fn opened_client_keeps_the_configuration<H, R, L>(
    config: CosmosClientConfig,
    rpc_client: R,
    pending: PendingClient<R>,
    light_client: L,
    client: CosmosClient<H, R, L>,
)
    requires
        call_ensures(
            PendingClient::<R>::prepare,
            (config, Ok::<R, String>(rpc_client)),
            Ok::<PendingClient<R>, Error>(pending),
        ),
        call_ensures(
            CosmosClient::<H, R, L>::new,
            (pending, Ok::<L, Error>(light_client)),
            Ok::<CosmosClient<H, R, L>, Error>(client),
        ),
    ensures
        client.rpc_client == rpc_client,
        client.light_client == light_client,
        client.name@ == config.name@,
        client.grpc_url@ == config.grpc_url@,
        client.websocket_url@ == config.websocket_url@,
        client.chain_id@.id == config.chain_id@,
        client.client_id is Some <==> config.client_id is Some,
        client.client_id matches Some(id) ==> id@ == config.client_id->0@,
        client.connection_id is Some <==> config.connection_id is Some,
        client.connection_id matches Some(id) ==> id@ == config.connection_id->0@,
        client.account_prefix@ == config.account_prefix@,
        client.commitment_prefix@ == vstd::utf8::encode_utf8(config.store_prefix@),
        client.max_tx_size == config.max_tx_size,
        client.keybase.account@ == config.keybase.account@,
        client.keybase.address@ == config.keybase.address@,
        client.channel_whitelist@.len() == 0,
{
    prepared_client_keeps_its_configuration(config, Ok(rpc_client), Ok(pending));
    new_client_is_as_configured(pending, Ok(light_client), Ok(client));
}

/// The client identifier can be read wherever there is one, and is the one that
/// the client has.
pub proof fn client_id_can_be_read<H, R, L>(client: &CosmosClient<H, R, L>, id: ClientId)
    requires
        client.client_id is Some,
        call_ensures(CosmosClient::<H, R, L>::client_id, (client,), id),
    ensures
        call_requires(CosmosClient::<H, R, L>::client_id, (client,)),
        client.client_id == Some(id),
{
}

/// Setting the client identifier changes that identifier and nothing else.
pub proof fn only_the_client_id_is_set<H, R, L>()
    ensures
        forall|client: &mut CosmosClient<H, R, L>, id: ClientId|
            #[trigger]
            call_ensures(CosmosClient::<H, R, L>::set_client_id, (client, id), ()) ==> {
                &&& final(client).client_id == Some(id)
                &&& final(client).name == client.name
                &&& final(client).rpc_client == client.rpc_client
                &&& final(client).grpc_url == client.grpc_url
                &&& final(client).websocket_url == client.websocket_url
                &&& final(client).chain_id == client.chain_id
                &&& final(client).connection_id == client.connection_id
                &&& final(client).light_client == client.light_client
                &&& final(client).keybase == client.keybase
                &&& final(client).account_prefix == client.account_prefix
                &&& final(client).commitment_prefix == client.commitment_prefix
                &&& final(client).max_tx_size == client.max_tx_size
                &&& final(client).channel_whitelist == client.channel_whitelist
            },
{
}

} // verus!

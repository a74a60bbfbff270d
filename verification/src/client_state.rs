//! The client state with which a light client of the chain is created on the
//! counterparty chain.

use crate::client::CosmosClient;
use crate::error::{chain_failure, fail_for_chain, join2, quote, quoted, Error, ErrorView};
use crate::views::{described, outcome};
use vstd::prelude::*;

verus! {

/// The state of a light client of some kind, as the counterparty keeps it.
pub enum AnyClientState<C> {
    /// The state of a Tendermint light client.
    Tendermint(C),
    /// The state of a light client of another kind.
    Other,
}

/// A consensus state of some kind, as the counterparty keeps it.
pub enum AnyConsensusState<S> {
    /// The consensus state of a Tendermint chain.
    Tendermint(S),
    /// The consensus state of a chain of another kind.
    Other,
}

/// Both states where they are Tendermint states; the failure to initialize
/// them, or the failure that one of them is of another kind.
pub open spec fn tendermint_states<C, S>(
    chain: Seq<char>,
    initialized: Result<(AnyClientState<C>, AnyConsensusState<S>), Seq<char>>,
) -> Result<(C, S), ErrorView> {
    match initialized {
        Err(detail) => Err(
            chain_failure("Failed to initialize client state for chain "@, chain, detail),
        ),
        Ok((AnyClientState::Tendermint(client_state), AnyConsensusState::Tendermint(consensus_state)))
            => Ok((client_state, consensus_state)),
        Ok(_) => Err(
            ErrorView::Custom("Failed to initialize client state for chain "@ + quoted(chain)),
        ),
    }
}

impl<H, R, L> CosmosClient<H, R, L> {
    /// The Tendermint client state to be submitted to the counterparty chain,
    /// from the states that the chain was initialized with, or from the Debug
    /// text of what went wrong there.
    pub fn construct_tendermint_client_state<C, S>(
        &self,
        initialized: Result<(AnyClientState<C>, AnyConsensusState<S>), String>,
    ) -> (states: Result<(C, S), Error>)
        ensures
            outcome(states, |pair: (C, S)| pair) == tendermint_states(
                self@.name,
                described(initialized),
            ),
    {
        match initialized {
            Err(detail) => Err(
                fail_for_chain(
                    "Failed to initialize client state for chain ",
                    self.name.as_str(),
                    detail.as_str(),
                ),
            ),
            Ok((AnyClientState::Tendermint(client_state), AnyConsensusState::Tendermint(
                consensus_state,
            ))) => Ok((client_state, consensus_state)),
            Ok(_) => Err(
                Error::from(
                    join2(
                        "Failed to initialize client state for chain ",
                        quote(self.name.as_str()).as_str(),
                    ),
                ),
            ),
        }
    }
}

/// The states come out exactly where both are Tendermint states, as they are,
/// whatever the chain is called.
pub proof fn tendermint_states_come_out<H, R, L, C, S>(
    client: &CosmosClient<H, R, L>,
    initialized: Result<(AnyClientState<C>, AnyConsensusState<S>), String>,
    states: Result<(C, S), Error>,
    client_state: C,
    consensus_state: S,
)
    requires
        call_ensures(
            CosmosClient::<H, R, L>::construct_tendermint_client_state::<C, S>,
            (client, initialized),
            states,
        ),
    ensures
        states == Ok::<(C, S), Error>((client_state, consensus_state)) <==> initialized == Ok::<
            (AnyClientState<C>, AnyConsensusState<S>),
            String,
        >(
            (
                AnyClientState::Tendermint(client_state),
                AnyConsensusState::Tendermint(consensus_state),
            ),
        ),
        states is Ok <==> initialized matches Ok((
            AnyClientState::Tendermint(_),
            AnyConsensusState::Tendermint(_),
        )),
{
}

/// Where the states do not come out, the error names the chain, and holds what
/// went wrong where initializing them failed.
pub proof fn missing_states_are_explained<H, R, L, C, S>(
    client: &CosmosClient<H, R, L>,
    initialized: Result<(AnyClientState<C>, AnyConsensusState<S>), String>,
    states: Result<(C, S), Error>,
)
    requires
        call_ensures(
            CosmosClient::<H, R, L>::construct_tendermint_client_state::<C, S>,
            (client, initialized),
            states,
        ),
    ensures
        states matches Err(error) ==> (error matches Error::Custom(text) && text@
            == "Failed to initialize client state for chain "@ + quoted(client.name@) + (
        match initialized {
            Err(detail) => " with error "@ + detail@,
            Ok(_) => Seq::empty(),
        })),
{
    let what = "Failed to initialize client state for chain "@;
    if let Err(Error::Custom(text)) = states {
        match initialized {
            Err(detail) => {
                assert(text@ =~= what + quoted(client.name@) + (" with error "@ + detail@));
            },
            Ok(_) => {
                assert(text@ =~= what + quoted(client.name@) + Seq::empty());
            },
        }
    }
}

} // verus!

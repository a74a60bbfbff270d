//! Submitting messages to the chain in a transaction.
//!
//! A transaction is signed for the account as the chain knows it, simulated,
//! broadcast and confirmed, in this order. What touches the network or the
//! signing scheme is left to the caller: the client says what to do next, and
//! the caller hands back how it went. `T` is a signed transaction, `X` the hash
//! of one.

use crate::account::{Any, BaseAccount};
use crate::client::{CosmosClient, CosmosClientView};
use crate::error::{join4, Error, ErrorView};
use crate::identifier::{ChainId, ChainIdView};
use crate::key::{KeyEntry, KeyEntryView};
use crate::views::{option_view, outcome};
use vstd::prelude::*;

verus! {

/// An amount of one currency.
pub struct Coin {
    pub denom: String,
    pub amount: String,
}

/// The mathematical value of a [`Coin`].
pub struct CoinView {
    pub denom: Seq<char>,
    pub amount: Seq<char>,
}

impl View for Coin {
    type V = CoinView;

    open spec fn view(&self) -> CoinView {
        CoinView { denom: self.denom@, amount: self.amount@ }
    }
}

/// The fee of a transaction.
pub struct Fee {
    pub amount: Vec<Coin>,
    pub gas_limit: u64,
    pub payer: String,
    pub granter: String,
}

/// The mathematical value of a [`Fee`].
pub struct FeeView {
    pub amount: Seq<CoinView>,
    pub gas_limit: u64,
    pub payer: Seq<char>,
    pub granter: Seq<char>,
}

impl View for Fee {
    type V = FeeView;

    open spec fn view(&self) -> FeeView {
        FeeView {
            amount: self.amount@.map_values(|coin: Coin| coin@),
            gas_limit: self.gas_limit,
            payer: self.payer@,
            granter: self.granter@,
        }
    }
}

/// The gas limit of every transaction: one below the largest signed number.
pub const GAS_LIMIT: u64 = 0x7fff_ffff_ffff_fffe;

/// The fee of every transaction: a million `stake`, paid by the signer.
pub open spec fn standard_fee() -> FeeView {
    FeeView {
        amount: seq![CoinView { denom: "stake"@, amount: "1000000"@ }],
        gas_limit: GAS_LIMIT,
        payer: ""@,
        granter: ""@,
    }
}

impl Fee {
    /// The fee of every transaction.
    pub fn standard() -> (fee: Fee)
        ensures
            fee@ == standard_fee(),
    {
        let mut amount: Vec<Coin> = Vec::new();
        amount.push(Coin { denom: "stake".to_owned(), amount: "1000000".to_owned() });
        let fee = Fee {
            amount,
            gas_limit: GAS_LIMIT,
            payer: "".to_owned(),
            granter: "".to_owned(),
        };
        assert(fee@.amount =~= standard_fee().amount);
        fee
    }
}

/// A signed transaction with its encoding.
pub struct SignedTx<T> {
    pub tx: T,
    pub tx_bytes: Vec<u8>,
}

/// What the simulation of a transaction gave.
pub struct Simulation {
    /// The Debug text of the events.
    pub events: String,
    pub log: String,
}

/// What is to be signed.
pub struct SignRequest {
    pub key: KeyEntry,
    pub chain_id: ChainId,
    pub account: BaseAccount,
    pub messages: Vec<Any>,
    pub fee: Fee,
}

/// The mathematical value of a [`SignRequest`].
pub struct SignRequestView {
    pub key: KeyEntryView,
    pub chain_id: ChainIdView,
    pub account: BaseAccount,
    pub messages: Seq<Any>,
    pub fee: FeeView,
}

impl View for SignRequest {
    type V = SignRequestView;

    open spec fn view(&self) -> SignRequestView {
        SignRequestView {
            key: self.key@,
            chain_id: self.chain_id@,
            account: self.account,
            messages: self.messages@,
            fee: self.fee@,
        }
    }
}

/// What the caller has to do next.
pub enum SubmitAction<T, X> {
    /// Query the account of the client's key.
    QueryAccount,
    /// Sign a transaction.
    Sign(SignRequest),
    /// Simulate the transaction at the gRPC interface.
    Simulate { endpoint: String, tx: T, tx_bytes: Vec<u8> },
    /// Print the report where there is one, then broadcast the transaction.
    Broadcast { report: Option<String>, tx_bytes: Vec<u8> },
    /// Wait until the transaction is confirmed.
    Confirm { hash: X },
}

/// The mathematical value of a [`SubmitAction`].
pub enum SubmitActionView<T, X> {
    QueryAccount,
    Sign(SignRequestView),
    Simulate { endpoint: Seq<char>, tx: T, tx_bytes: Seq<u8> },
    Broadcast { report: Option<Seq<char>>, tx_bytes: Seq<u8> },
    Confirm { hash: X },
}

impl<T, X> View for SubmitAction<T, X> {
    type V = SubmitActionView<T, X>;

    open spec fn view(&self) -> SubmitActionView<T, X> {
        match self {
            SubmitAction::QueryAccount => SubmitActionView::QueryAccount,
            SubmitAction::Sign(request) => SubmitActionView::Sign(request@),
            SubmitAction::Simulate { endpoint, tx, tx_bytes } => SubmitActionView::Simulate {
                endpoint: endpoint@,
                tx: *tx,
                tx_bytes: tx_bytes@,
            },
            SubmitAction::Broadcast { report, tx_bytes } => SubmitActionView::Broadcast {
                report: option_view(*report),
                tx_bytes: tx_bytes@,
            },
            SubmitAction::Confirm { hash } => SubmitActionView::Confirm { hash: *hash },
        }
    }
}

/// How far a submission has come: the action that is under way, and what is
/// needed after it.
pub enum SubmitState {
    Querying { messages: Vec<Any> },
    Signing,
    Simulating { tx_bytes: Vec<u8> },
    Broadcasting,
    Confirming,
}

/// The mathematical value of a [`SubmitState`].
pub enum SubmitStateView {
    Querying { messages: Seq<Any> },
    Signing,
    Simulating { tx_bytes: Seq<u8> },
    Broadcasting,
    Confirming,
}

impl View for SubmitState {
    type V = SubmitStateView;

    open spec fn view(&self) -> SubmitStateView {
        match self {
            SubmitState::Querying { messages } => SubmitStateView::Querying {
                messages: messages@,
            },
            SubmitState::Signing => SubmitStateView::Signing,
            SubmitState::Simulating { tx_bytes } => SubmitStateView::Simulating {
                tx_bytes: tx_bytes@,
            },
            SubmitState::Broadcasting => SubmitStateView::Broadcasting,
            SubmitState::Confirming => SubmitStateView::Confirming,
        }
    }
}

/// How the action that was asked for went.
pub enum SubmitEvent<T, X> {
    Account(Result<BaseAccount, Error>),
    Signed(Result<SignedTx<T>, Error>),
    Simulated(Result<Option<Simulation>, Error>),
    Broadcast(Result<X, Error>),
    Confirmed(Result<X, Error>),
}

/// The mathematical value of a [`SubmitEvent`].
pub enum SubmitEventView<T, X> {
    Account(Result<BaseAccount, ErrorView>),
    Signed(Result<(T, Seq<u8>), ErrorView>),
    Simulated(Result<Option<(Seq<char>, Seq<char>)>, ErrorView>),
    Broadcast(Result<X, ErrorView>),
    Confirmed(Result<X, ErrorView>),
}

/// The events and the log of a simulation.
pub open spec fn simulation_view(simulation: Option<Simulation>) -> Option<(Seq<char>, Seq<char>)> {
    match simulation {
        Some(simulation) => Some((simulation.events@, simulation.log@)),
        None => None,
    }
}

impl<T, X> View for SubmitEvent<T, X> {
    type V = SubmitEventView<T, X>;

    open spec fn view(&self) -> SubmitEventView<T, X> {
        match self {
            SubmitEvent::Account(result) => SubmitEventView::Account(
                outcome(*result, |account: BaseAccount| account),
            ),
            SubmitEvent::Signed(result) => SubmitEventView::Signed(
                outcome(*result, |signed: SignedTx<T>| (signed.tx, signed.tx_bytes@)),
            ),
            SubmitEvent::Simulated(result) => SubmitEventView::Simulated(
                outcome(*result, |simulation: Option<Simulation>| simulation_view(simulation)),
            ),
            SubmitEvent::Broadcast(result) => SubmitEventView::Broadcast(
                outcome(*result, |hash: X| hash),
            ),
            SubmitEvent::Confirmed(result) => SubmitEventView::Confirmed(
                outcome(*result, |hash: X| hash),
            ),
        }
    }
}

/// What a submission needs next, or how it ended.
pub enum SubmitStep<T, X> {
    /// Do `action`, and hand how it went to [`CosmosClient::submit_step`].
    Act { action: SubmitAction<T, X>, state: SubmitState },
    /// The hash of the confirmed transaction, or what went wrong.
    Done(Result<X, Error>),
}

/// The mathematical value of a [`SubmitStep`].
pub enum SubmitStepView<T, X> {
    Act { action: SubmitActionView<T, X>, state: SubmitStateView },
    Done(Result<X, ErrorView>),
}

impl<T, X> View for SubmitStep<T, X> {
    type V = SubmitStepView<T, X>;

    open spec fn view(&self) -> SubmitStepView<T, X> {
        match self {
            SubmitStep::Act { action, state } => SubmitStepView::Act {
                action: action@,
                state: state@,
            },
            SubmitStep::Done(result) => SubmitStepView::Done(outcome(*result, |hash: X| hash)),
        }
    }
}

/// The event tells how the action went that is under way.
pub open spec fn event_fits<T, X>(state: SubmitStateView, event: SubmitEventView<T, X>) -> bool {
    match state {
        SubmitStateView::Querying { .. } => event is Account,
        SubmitStateView::Signing => event is Signed,
        SubmitStateView::Simulating { .. } => event is Simulated,
        SubmitStateView::Broadcasting => event is Broadcast,
        SubmitStateView::Confirming => event is Confirmed,
    }
}

/// What is printed of a simulation.
pub open spec fn simulation_report(events: Seq<char>, log: Seq<char>) -> Seq<char> {
    "Simulated transaction: events: "@ + events + "\nlogs: "@ + log
}

/// The beginning of a submission.
pub open spec fn submit_start<T, X>(messages: Seq<Any>) -> SubmitStepView<T, X> {
    SubmitStepView::Act {
        action: SubmitActionView::QueryAccount,
        state: SubmitStateView::Querying { messages },
    }
}

/// What follows an event. Any failure ends the submission with its error.
pub open spec fn submit_next<R, L, T, X>(
    client: CosmosClientView<R, L>,
    state: SubmitStateView,
    event: SubmitEventView<T, X>,
) -> SubmitStepView<T, X>
    recommends
        event_fits(state, event),
{
    match event {
        SubmitEventView::Account(Err(error)) => SubmitStepView::Done(Err(error)),
        SubmitEventView::Account(Ok(account)) => SubmitStepView::Act {
            action: SubmitActionView::Sign(
                SignRequestView {
                    key: client.keybase,
                    chain_id: client.chain_id,
                    account,
                    messages: state->messages,
                    fee: standard_fee(),
                },
            ),
            state: SubmitStateView::Signing,
        },
        SubmitEventView::Signed(Err(error)) => SubmitStepView::Done(Err(error)),
        SubmitEventView::Signed(Ok((tx, tx_bytes))) => SubmitStepView::Act {
            action: SubmitActionView::Simulate { endpoint: client.grpc_url, tx, tx_bytes },
            state: SubmitStateView::Simulating { tx_bytes },
        },
        SubmitEventView::Simulated(Err(error)) => SubmitStepView::Done(Err(error)),
        SubmitEventView::Simulated(Ok(simulation)) => SubmitStepView::Act {
            action: SubmitActionView::Broadcast {
                report: match simulation {
                    Some((events, log)) => Some(simulation_report(events, log)),
                    None => None,
                },
                tx_bytes: state->tx_bytes,
            },
            state: SubmitStateView::Broadcasting,
        },
        SubmitEventView::Broadcast(Err(error)) => SubmitStepView::Done(Err(error)),
        SubmitEventView::Broadcast(Ok(hash)) => SubmitStepView::Act {
            action: SubmitActionView::Confirm { hash },
            state: SubmitStateView::Confirming,
        },
        SubmitEventView::Confirmed(result) => SubmitStepView::Done(result),
    }
}

impl<H, R, L> CosmosClient<H, R, L> {
    /// Begins the submission of `messages` in one transaction.
    pub fn submit_call<T, X>(&self, messages: Vec<Any>) -> (step: SubmitStep<T, X>)
        ensures
            step@ == submit_start::<T, X>(messages@),
    {
        SubmitStep::Act {
            action: SubmitAction::QueryAccount,
            state: SubmitState::Querying { messages },
        }
    }

    /// Continues a submission with how the action went that was asked for.
    pub fn submit_step<T, X>(&self, state: SubmitState, event: SubmitEvent<T, X>) -> (step:
        SubmitStep<T, X>)
        requires
            event_fits(state@, event@),
        ensures
            step@ == submit_next(self@, state@, event@),
            step@ matches SubmitStepView::Act { action, state: next } ==> action_under_way(
                action,
                next,
            ),
    {
        match (state, event) {
            (SubmitState::Querying { messages }, SubmitEvent::Account(Ok(account))) => {
                SubmitStep::Act {
                    action: SubmitAction::Sign(
                        SignRequest {
                            key: self.keybase.clone(),
                            chain_id: self.chain_id.clone(),
                            account,
                            messages,
                            fee: Fee::standard(),
                        },
                    ),
                    state: SubmitState::Signing,
                }
            },
            (SubmitState::Signing, SubmitEvent::Signed(Ok(signed))) => {
                SubmitStep::Act {
                    action: SubmitAction::Simulate {
                        endpoint: self.grpc_url.clone(),
                        tx: signed.tx,
                        tx_bytes: signed.tx_bytes.clone(),
                    },
                    state: SubmitState::Simulating { tx_bytes: signed.tx_bytes },
                }
            },
            (SubmitState::Simulating { tx_bytes }, SubmitEvent::Simulated(Ok(simulation))) => {
                let report = match simulation {
                    Some(simulation) => Some(
                        join4(
                            "Simulated transaction: events: ",
                            simulation.events.as_str(),
                            "\nlogs: ",
                            simulation.log.as_str(),
                        ),
                    ),
                    None => None,
                };
                SubmitStep::Act {
                    action: SubmitAction::Broadcast { report, tx_bytes },
                    state: SubmitState::Broadcasting,
                }
            },
            (SubmitState::Broadcasting, SubmitEvent::Broadcast(Ok(hash))) => SubmitStep::Act {
                action: SubmitAction::Confirm { hash },
                state: SubmitState::Confirming,
            },
            (_, SubmitEvent::Confirmed(result)) => SubmitStep::Done(result),
            (_, SubmitEvent::Account(Err(error))) => SubmitStep::Done(Err(error)),
            (_, SubmitEvent::Signed(Err(error))) => SubmitStep::Done(Err(error)),
            (_, SubmitEvent::Simulated(Err(error))) => SubmitStep::Done(Err(error)),
            (_, SubmitEvent::Broadcast(Err(error))) => SubmitStep::Done(Err(error)),
            (_, _) => vstd::pervasive::unreached(),
        }
    }
}

/// The state belongs to the action: it waits for how that action goes, and what
/// is to be broadcast is what is being simulated.
pub open spec fn action_under_way<T, X>(action: SubmitActionView<T, X>, state: SubmitStateView) -> bool {
    match action {
        SubmitActionView::QueryAccount => state is Querying,
        SubmitActionView::Sign(_) => state is Signing,
        SubmitActionView::Simulate { tx_bytes, .. } => state == (SubmitStateView::Simulating {
            tx_bytes,
        }),
        SubmitActionView::Broadcast { .. } => state is Broadcasting,
        SubmitActionView::Confirm { .. } => state is Confirming,
    }
}

/// Where a submission stands after a number of events.
pub open spec fn submit_run<R, L, T, X>(
    client: CosmosClientView<R, L>,
    messages: Seq<Any>,
    events: Seq<SubmitEventView<T, X>>,
) -> SubmitStepView<T, X>
    decreases events.len(),
{
    if events.len() == 0 {
        submit_start(messages)
    } else {
        match submit_run(client, messages, events.drop_last()) {
            SubmitStepView::Done(result) => SubmitStepView::Done(result),
            SubmitStepView::Act { state, .. } => submit_next(client, state, events.last()),
        }
    }
}

/// Every event of a submission told how the action went that was under way.
pub open spec fn events_fit<R, L, T, X>(
    client: CosmosClientView<R, L>,
    messages: Seq<Any>,
    events: Seq<SubmitEventView<T, X>>,
) -> bool
    decreases events.len(),
{
    events.len() > 0 ==> {
        &&& events_fit(client, messages, events.drop_last())
        &&& submit_run(client, messages, events.drop_last()) matches SubmitStepView::Act {
            state,
            ..
        } ==> event_fits(state, events.last())
    }
}

/// The error that an event tells of.
pub open spec fn event_error<T, X>(event: SubmitEventView<T, X>) -> Option<ErrorView> {
    match event {
        SubmitEventView::Account(Err(error)) => Some(error),
        SubmitEventView::Signed(Err(error)) => Some(error),
        SubmitEventView::Simulated(Err(error)) => Some(error),
        SubmitEventView::Broadcast(Err(error)) => Some(error),
        SubmitEventView::Confirmed(Err(error)) => Some(error),
        _ => None,
    }
}

/// Where every action goes well, the transaction is signed for the account that
/// the chain told of, with the standard fee, the encoding that was signed is
/// what is simulated and then broadcast, the hash that was broadcast is what is
/// waited for, and the submission ends with the hash that was confirmed.
pub proof fn submission_goes_through<R, L, T, X>(
    client: CosmosClientView<R, L>,
    messages: Seq<Any>,
    account: BaseAccount,
    tx: T,
    tx_bytes: Seq<u8>,
    simulation: Option<(Seq<char>, Seq<char>)>,
    hash: X,
    confirmed: X,
)
    ensures
        ({
            let events: Seq<SubmitEventView<T, X>> = seq![
                SubmitEventView::Account(Ok(account)),
                SubmitEventView::Signed(Ok((tx, tx_bytes))),
                SubmitEventView::Simulated(Ok(simulation)),
                SubmitEventView::Broadcast(Ok(hash)),
                SubmitEventView::Confirmed(Ok(confirmed)),
            ];
            &&& events_fit(client, messages, events)
            &&& submit_run(client, messages, events.take(0)) matches SubmitStepView::Act {
                action: SubmitActionView::QueryAccount,
                ..
            }
            &&& submit_run(client, messages, events.take(1)) matches SubmitStepView::Act {
                action: SubmitActionView::Sign(request),
                ..
            } && request == (SignRequestView {
                key: client.keybase,
                chain_id: client.chain_id,
                account,
                messages,
                fee: standard_fee(),
            })
            &&& submit_run(client, messages, events.take(2)) matches SubmitStepView::Act {
                action: SubmitActionView::Simulate { endpoint, tx: simulated, tx_bytes: bytes },
                ..
            } && endpoint == client.grpc_url && simulated == tx && bytes == tx_bytes
            &&& submit_run(client, messages, events.take(3)) matches SubmitStepView::Act {
                action: SubmitActionView::Broadcast { tx_bytes: bytes, .. },
                ..
            } && bytes == tx_bytes
            &&& submit_run(client, messages, events.take(4)) matches SubmitStepView::Act {
                action: SubmitActionView::Confirm { hash: awaited },
                ..
            } && awaited == hash
            &&& submit_run(client, messages, events) == SubmitStepView::<T, X>::Done(Ok(confirmed))
        }),
{
    let events: Seq<SubmitEventView<T, X>> = seq![
        SubmitEventView::Account(Ok(account)),
        SubmitEventView::Signed(Ok((tx, tx_bytes))),
        SubmitEventView::Simulated(Ok(simulation)),
        SubmitEventView::Broadcast(Ok(hash)),
        SubmitEventView::Confirmed(Ok(confirmed)),
    ];
    reveal_with_fuel(submit_run, 6);
    reveal_with_fuel(events_fit, 6);
    assert(events.take(1).drop_last() =~= events.take(0));
    assert(events.take(2).drop_last() =~= events.take(1));
    assert(events.take(3).drop_last() =~= events.take(2));
    assert(events.take(4).drop_last() =~= events.take(3));
    assert(events.drop_last() =~= events.take(4));
}

/// A failure ends the submission with its error: nothing more is asked for.
pub proof fn submission_stops_at_a_failure<R, L, T, X>(
    client: CosmosClientView<R, L>,
    state: SubmitStateView,
    event: SubmitEventView<T, X>,
)
    requires
        event_error(event) is Some,
    ensures
        submit_next(client, state, event) == SubmitStepView::<T, X>::Done(
            Err(event_error(event)->0),
        ),
{
}

/// What a successful simulation gave decides nothing: the same bytes are
/// broadcast, and only what is printed differs.
pub proof fn simulation_result_decides_nothing<R, L, T, X>(
    client: CosmosClientView<R, L>,
    state: SubmitStateView,
    first: Option<(Seq<char>, Seq<char>)>,
    second: Option<(Seq<char>, Seq<char>)>,
)
    requires
        state is Simulating,
    ensures
        match (
            submit_next::<R, L, T, X>(client, state, SubmitEventView::Simulated(Ok(first))),
            submit_next::<R, L, T, X>(client, state, SubmitEventView::Simulated(Ok(second))),
        ) {
            (
                SubmitStepView::Act {
                    action: SubmitActionView::Broadcast { report: _, tx_bytes: first_bytes },
                    state: first_state,
                },
                SubmitStepView::Act {
                    action: SubmitActionView::Broadcast { report: _, tx_bytes: second_bytes },
                    state: second_state,
                },
            ) => first_bytes == second_bytes && first_bytes == state->tx_bytes && first_state
                == second_state,
            _ => false,
        },
{
}

/// A transaction is broadcast only after its simulation went well, and with the
/// bytes that were signed and simulated.
pub proof fn broadcast_was_simulated<R, L, T, X>(
    client: CosmosClientView<R, L>,
    messages: Seq<Any>,
    events: Seq<SubmitEventView<T, X>>,
)
    requires
        events_fit(client, messages, events),
        submit_run(client, messages, events) matches SubmitStepView::Act {
            action: SubmitActionView::Broadcast { .. },
            ..
        },
    ensures
        events.len() == 3,
        submit_run(client, messages, events) matches SubmitStepView::Act {
            action: SubmitActionView::Broadcast { tx_bytes, .. },
            ..
        } ==> {
            &&& events[0] matches SubmitEventView::Account(Ok(_))
            &&& events[1] matches SubmitEventView::Signed(Ok((_, signed))) && signed == tx_bytes
            &&& events[2] matches SubmitEventView::Simulated(Ok(_))
        },
{
    submission_keeps_order(client, messages, events);
}

/// How many events lie behind an action.
spec fn events_before<T, X>(action: SubmitActionView<T, X>) -> nat {
    match action {
        SubmitActionView::QueryAccount => 0,
        SubmitActionView::Sign(_) => 1,
        SubmitActionView::Simulate { .. } => 2,
        SubmitActionView::Broadcast { .. } => 3,
        SubmitActionView::Confirm { .. } => 4,
    }
}

/// What is under way after a number of events tells what these events were.
proof fn submission_keeps_order<R, L, T, X>(
    client: CosmosClientView<R, L>,
    messages: Seq<Any>,
    events: Seq<SubmitEventView<T, X>>,
)
    requires
        events_fit(client, messages, events),
    ensures
        submit_run(client, messages, events) matches SubmitStepView::Act { action, state } ==> {
            &&& action_under_way(action, state)
            &&& events.len() == events_before(action)
            &&& events.len() >= 1 ==> (events[0] matches SubmitEventView::Account(Ok(_)))
            &&& events.len() >= 2 ==> (events[1] matches SubmitEventView::Signed(Ok(_)))
            &&& events.len() >= 3 ==> (events[2] matches SubmitEventView::Simulated(Ok(_)))
            &&& action matches SubmitActionView::Simulate { tx_bytes, .. } ==> (
                events[1] matches SubmitEventView::Signed(Ok((_, signed))) && signed == tx_bytes)
            &&& action matches SubmitActionView::Broadcast { tx_bytes, .. } ==> (
                events[1] matches SubmitEventView::Signed(Ok((_, signed))) && signed == tx_bytes)
        },
    decreases events.len(),
{
    if events.len() > 0 {
        submission_keeps_order(client, messages, events.drop_last());
    }
}

/// The fee of every transaction is a million `stake` and almost all gas that a
/// signed number can write, with no other payer and no granter.
pub proof fn fee_is_a_million_stake(fee: Fee)
    requires
        call_ensures(Fee::standard, (), fee),
    ensures
        fee.amount@.len() == 1,
        fee.amount@[0].denom@ == "stake"@,
        fee.amount@[0].amount@ == "1000000"@,
        fee.gas_limit == i64::MAX - 1,
        fee.payer@.len() == 0,
        fee.granter@.len() == 0,
{
    reveal_strlit("");
    assert(fee@.amount.len() == 1 && fee@.amount[0] == fee.amount@[0]@);
}

/// A submission begins with the query for the account, and keeps its messages.
pub proof fn submission_begins_with_the_account<H, R, L, T, X>(
    client: &CosmosClient<H, R, L>,
    messages: Vec<Any>,
    step: SubmitStep<T, X>,
)
    requires
        call_ensures(CosmosClient::<H, R, L>::submit_call::<T, X>, (client, messages), step),
    ensures
        step matches SubmitStep::Act {
            action: SubmitAction::QueryAccount,
            state: SubmitState::Querying { messages: kept },
        } && kept@ == messages@,
{
}

/// What is signed are the messages of the submission, for the account that was
/// found, with the client's key, its chain identifier and the fee of every
/// transaction.
pub proof fn account_leads_to_signing<H, R, L, T, X>(
    client: &CosmosClient<H, R, L>,
    messages: Vec<Any>,
    account: BaseAccount,
    step: SubmitStep<T, X>,
)
    requires
        call_ensures(
            CosmosClient::<H, R, L>::submit_step::<T, X>,
            (
                client,
                SubmitState::Querying { messages },
                SubmitEvent::<T, X>::Account(Ok(account)),
            ),
            step,
        ),
    ensures
        step matches SubmitStep::Act { action: SubmitAction::Sign(request), state } && {
            &&& state is Signing
            &&& request.key.public_key.depth == client.keybase.public_key.depth
            &&& request.key.public_key.parent_fingerprint@ == client.keybase.public_key.parent_fingerprint@
            &&& request.key.public_key.child_number == client.keybase.public_key.child_number
            &&& request.key.public_key.chain_code@ == client.keybase.public_key.chain_code@
            &&& request.key.public_key.key@ == client.keybase.public_key.key@
            &&& request.key.private_key.depth == client.keybase.private_key.depth
            &&& request.key.private_key.parent_fingerprint@ == client.keybase.private_key.parent_fingerprint@
            &&& request.key.private_key.child_number == client.keybase.private_key.child_number
            &&& request.key.private_key.chain_code@ == client.keybase.private_key.chain_code@
            &&& request.key.private_key.key@ == client.keybase.private_key.key@
            &&& request.key.account@ == client.keybase.account@
            &&& request.key.address@ == client.keybase.address@
            &&& request.chain_id@.id == client.chain_id@.id
            &&& request.chain_id@.version == client.chain_id@.version
            &&& request.account == account
            &&& request.messages@ == messages@
            &&& request.fee.amount@.len() == 1
            &&& request.fee.amount@[0].denom@ == "stake"@
            &&& request.fee.amount@[0].amount@ == "1000000"@
            &&& request.fee.gas_limit == i64::MAX - 1
            &&& request.fee.payer@.len() == 0
            &&& request.fee.granter@.len() == 0
        },
{
    reveal_strlit("");
    if let SubmitStep::Act { action: SubmitAction::Sign(request), .. } = step {
        let fee = request.fee;
        assert(request@.fee == fee@);
        assert(fee@.amount.len() == 1);
        assert(fee@.amount[0] == fee.amount@[0]@);
    }
}

/// The transaction that was signed is simulated at the client's gRPC interface,
/// and its bytes are kept.
pub proof fn signature_leads_to_simulation<H, R, L, T, X>(
    client: &CosmosClient<H, R, L>,
    signed: SignedTx<T>,
    step: SubmitStep<T, X>,
)
    requires
        call_ensures(
            CosmosClient::<H, R, L>::submit_step::<T, X>,
            (client, SubmitState::Signing, SubmitEvent::<T, X>::Signed(Ok(signed))),
            step,
        ),
    ensures
        step matches SubmitStep::Act {
            action: SubmitAction::Simulate { endpoint, tx, tx_bytes },
            state: SubmitState::Simulating { tx_bytes: kept },
        } && {
            &&& endpoint@ == client.grpc_url@
            &&& tx == signed.tx
            &&& tx_bytes@ == signed.tx_bytes@
            &&& kept@ == signed.tx_bytes@
        },
{
}

/// After the simulation the bytes that were kept are broadcast, and what the
/// simulation gave is reported where it gave something.
pub proof fn simulation_leads_to_broadcast<H, R, L, T, X>(
    client: &CosmosClient<H, R, L>,
    tx_bytes: Vec<u8>,
    simulation: Option<Simulation>,
    step: SubmitStep<T, X>,
)
    requires
        call_ensures(
            CosmosClient::<H, R, L>::submit_step::<T, X>,
            (
                client,
                SubmitState::Simulating { tx_bytes },
                SubmitEvent::<T, X>::Simulated(Ok(simulation)),
            ),
            step,
        ),
    ensures
        step matches SubmitStep::Act {
            action: SubmitAction::Broadcast { report, tx_bytes: sent },
            state,
        } && {
            &&& state is Broadcasting
            &&& sent@ == tx_bytes@
            &&& report is Some <==> simulation is Some
            &&& report matches Some(text) ==> text@ == "Simulated transaction: events: "@
                + simulation->0.events@ + "\nlogs: "@ + simulation->0.log@
        },
{
}

/// The hash of the transaction that was broadcast is the one that is waited for.
pub proof fn broadcast_leads_to_confirmation<H, R, L, T, X>(
    client: &CosmosClient<H, R, L>,
    hash: X,
    step: SubmitStep<T, X>,
)
    requires
        call_ensures(
            CosmosClient::<H, R, L>::submit_step::<T, X>,
            (client, SubmitState::Broadcasting, SubmitEvent::<T, X>::Broadcast(Ok(hash))),
            step,
        ),
    ensures
        step matches SubmitStep::Act {
            action: SubmitAction::Confirm { hash: awaited },
            state: SubmitState::Confirming,
        } && awaited == hash,
{
}

/// A submission ends with the hash that was confirmed, and only there.
pub proof fn confirmation_ends_the_submission<H, R, L, T, X>(
    client: &CosmosClient<H, R, L>,
    state: SubmitState,
    event: SubmitEvent<T, X>,
    step: SubmitStep<T, X>,
    hash: X,
)
    requires
        call_ensures(
            CosmosClient::<H, R, L>::submit_step::<T, X>,
            (client, state, event),
            step,
        ),
    ensures
        step == SubmitStep::<T, X>::Done(Ok(hash)) <==> event == SubmitEvent::<T, X>::Confirmed(
            Ok(hash),
        ),
{
}

/// Whatever fails, the submission ends, with the error that it failed with; and
/// it ends with an error only then.
pub proof fn failure_ends_the_submission<H, R, L, T, X>(
    client: &CosmosClient<H, R, L>,
    state: SubmitState,
    event: SubmitEvent<T, X>,
    step: SubmitStep<T, X>,
)
    requires
        call_ensures(
            CosmosClient::<H, R, L>::submit_step::<T, X>,
            (client, state, event),
            step,
        ),
    ensures
        match event {
            SubmitEvent::Account(Err(error)) => step matches SubmitStep::Done(Err(told)) && told@
                == error@,
            SubmitEvent::Signed(Err(error)) => step matches SubmitStep::Done(Err(told)) && told@
                == error@,
            SubmitEvent::Simulated(Err(error)) => step matches SubmitStep::Done(Err(told)) && told@
                == error@,
            SubmitEvent::Broadcast(Err(error)) => step matches SubmitStep::Done(Err(told)) && told@
                == error@,
            SubmitEvent::Confirmed(Err(error)) => step matches SubmitStep::Done(Err(told)) && told@
                == error@,
            _ => !(step matches SubmitStep::Done(Err(_))),
        },
{
}

/// However an action goes, that can be handed in.
pub proof fn every_event_can_be_handed_in<H, R, L, T, X>(
    client: &CosmosClient<H, R, L>,
    state: SubmitState,
    event: SubmitEvent<T, X>,
)
    requires
        match state {
            SubmitState::Querying { .. } => event is Account,
            SubmitState::Signing => event is Signed,
            SubmitState::Simulating { .. } => event is Simulated,
            SubmitState::Broadcasting => event is Broadcast,
            SubmitState::Confirming => event is Confirmed,
        },
    ensures
        call_requires(
            CosmosClient::<H, R, L>::submit_step::<T, X>,
            (client, state, event),
        ),
{
}

/// The messages that were submitted are the ones that are signed.
pub proof fn submitted_messages_are_signed<H, R, L, T, X>(
    client: &CosmosClient<H, R, L>,
    messages: Vec<Any>,
    account: BaseAccount,
    action: SubmitAction<T, X>,
    state: SubmitState,
    step: SubmitStep<T, X>,
)
    requires
        call_ensures(
            CosmosClient::<H, R, L>::submit_call::<T, X>,
            (client, messages),
            SubmitStep::<T, X>::Act { action, state },
        ),
        call_ensures(
            CosmosClient::<H, R, L>::submit_step::<T, X>,
            (client, state, SubmitEvent::<T, X>::Account(Ok(account))),
            step,
        ),
    ensures
        step matches SubmitStep::Act { action: SubmitAction::Sign(request), .. }
            && request.messages@ == messages@ && request.account == account,
{
    if let SubmitState::Querying { messages: kept } = state {
        account_leads_to_signing(client, kept, account, step);
    }
}

/// The bytes that were signed are the ones that are simulated and then broadcast,
/// whatever the simulation gave.
pub proof fn signed_bytes_are_broadcast<H, R, L, T, X>(
    client: &CosmosClient<H, R, L>,
    signed: SignedTx<T>,
    action: SubmitAction<T, X>,
    state: SubmitState,
    simulation: Option<Simulation>,
    step: SubmitStep<T, X>,
)
    requires
        call_ensures(
            CosmosClient::<H, R, L>::submit_step::<T, X>,
            (client, SubmitState::Signing, SubmitEvent::<T, X>::Signed(Ok(signed))),
            SubmitStep::<T, X>::Act { action, state },
        ),
        call_ensures(
            CosmosClient::<H, R, L>::submit_step::<T, X>,
            (client, state, SubmitEvent::<T, X>::Simulated(Ok(simulation))),
            step,
        ),
    ensures
        action matches SubmitAction::Simulate { tx_bytes, .. } && tx_bytes@ == signed.tx_bytes@,
        step matches SubmitStep::Act { action: SubmitAction::Broadcast { tx_bytes, .. }, .. }
            && tx_bytes@ == signed.tx_bytes@,
{
    if let SubmitState::Simulating { tx_bytes } = state {
        simulation_leads_to_broadcast(client, tx_bytes, simulation, step);
    }
}

} // verus!

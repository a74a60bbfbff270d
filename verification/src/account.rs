//! The account that pays for and signs transactions.

use crate::client::CosmosClient;
use crate::error::{join2, Error, ErrorView};
use crate::views::{option_view, outcome};
use vstd::prelude::*;

verus! {

/// A protobuf message of any type.
pub struct Any {
    pub type_url: String,
    pub value: Vec<u8>,
}

/// The mathematical value of an [`Any`].
pub struct AnyView {
    pub type_url: Seq<char>,
    pub value: Seq<u8>,
}

impl View for Any {
    type V = AnyView;

    open spec fn view(&self) -> AnyView {
        AnyView { type_url: self.type_url@, value: self.value@ }
    }
}

/// An account as the chain keeps it.
pub struct BaseAccount {
    pub address: String,
    pub pub_key: Option<Any>,
    pub account_number: u64,
    pub sequence: u64,
}

/// The mathematical value of a [`BaseAccount`].
pub struct BaseAccountView {
    pub address: Seq<char>,
    pub pub_key: Option<AnyView>,
    pub account_number: u64,
    pub sequence: u64,
}

impl View for BaseAccount {
    type V = BaseAccountView;

    open spec fn view(&self) -> BaseAccountView {
        BaseAccountView {
            address: self.address@,
            pub_key: option_view(self.pub_key),
            account_number: self.account_number,
            sequence: self.sequence,
        }
    }
}

/// The mathematical value of a decoded account: the account, or the text of the
/// error.
pub open spec fn decoded_account(decoded: Result<BaseAccount, String>) -> Result<
    BaseAccountView,
    Seq<char>,
> {
    match decoded {
        Ok(account) => Ok(account@),
        Err(error) => Err(error@),
    }
}

/// What `prost` decodes from bytes as a `cosmos.auth.v1beta1.BaseAccount`: the
/// account, or the text of the error.
pub uninterp spec fn account_of(bytes: Seq<u8>) -> Result<BaseAccountView, Seq<char>>;

/// `Message::decode` of `prost` for `BaseAccount` of `ibc-proto`, the account
/// taken apart and the error shown by Display. Claimed: the outcome is
/// [`account_of`] of the bytes, so it depends on the bytes alone; no bytes are
/// the account with an empty address, no key and zero numbers.
#[verifier::external_body]
fn prost_account(bytes: &[u8]) -> (decoded: Result<BaseAccount, String>)
    ensures
        decoded_account(decoded) == account_of(bytes@),
        bytes@.len() == 0 ==> decoded is Ok && decoded->Ok_0@ == empty_account(),
{
    match <ibc_proto::cosmos::auth::v1beta1::BaseAccount as prost::Message>::decode(bytes) {
        Ok(account) => Ok(BaseAccount {
            address: account.address,
            pub_key: account.pub_key.map(|key| Any { type_url: key.type_url, value: key.value }),
            account_number: account.account_number,
            sequence: account.sequence,
        }),
        Err(error) => Err(error.to_string()),
    }
}

/// The account that holds nothing.
pub open spec fn empty_account() -> BaseAccountView {
    BaseAccountView { address: Seq::empty(), pub_key: None, account_number: 0, sequence: 0 }
}

/// A query for an account, to be sent to the gRPC interface of the chain.
pub struct AccountQuery {
    /// The URL to connect to.
    pub endpoint: String,
    /// The address of the account.
    pub address: String,
}

/// How a query for an account went.
pub enum AccountReply {
    /// The connection failed, with this Debug text.
    NotConnected(String),
    /// The request failed, with this Debug text.
    Failed(String),
    /// The chain answered with an account, or with none.
    Answered(Option<Any>),
}

/// The mathematical value of an [`AccountReply`].
pub enum AccountReplyView {
    NotConnected(Seq<char>),
    Failed(Seq<char>),
    Answered(Option<AnyView>),
}

impl View for AccountReply {
    type V = AccountReplyView;

    open spec fn view(&self) -> AccountReplyView {
        match self {
            AccountReply::NotConnected(detail) => AccountReplyView::NotConnected(detail@),
            AccountReply::Failed(detail) => AccountReplyView::Failed(detail@),
            AccountReply::Answered(account) => AccountReplyView::Answered(option_view(*account)),
        }
    }
}

/// The account from what was decoded.
pub open spec fn account_outcome(decoded: Result<BaseAccountView, Seq<char>>) -> Result<
    BaseAccountView,
    ErrorView,
> {
    match decoded {
        Ok(account) => Ok(account),
        Err(error) => Err(ErrorView::Custom("Failed to decode account "@ + error)),
    }
}

/// The account from how the query for it went.
pub open spec fn queried_account(reply: AccountReplyView) -> Result<BaseAccountView, ErrorView> {
    match reply {
        AccountReplyView::NotConnected(detail) => Err(
            ErrorView::Custom("GRPC client error: "@ + detail),
        ),
        AccountReplyView::Failed(detail) => Err(ErrorView::Custom(detail)),
        AccountReplyView::Answered(None) => Err(ErrorView::Custom("Account not found"@)),
        AccountReplyView::Answered(Some(account)) => account_outcome(account_of(account.value)),
    }
}

impl BaseAccount {
    /// The account from what was decoded, or from the text of why it was not.
    pub fn from_decoded(decoded: Result<BaseAccount, String>) -> (account: Result<
        BaseAccount,
        Error,
    >)
        ensures
            outcome(account, |a: BaseAccount| a@) == account_outcome(decoded_account(decoded)),
            decoded matches Ok(found) ==> account == Ok::<BaseAccount, Error>(found),
    {
        match decoded {
            Ok(account) => Ok(account),
            Err(error) => Err(Error::from(join2("Failed to decode account ", error.as_str()))),
        }
    }
}

impl<H, R, L> CosmosClient<H, R, L> {
    /// The query for the account of the client's key.
    pub fn account_query(&self) -> (query: AccountQuery)
        ensures
            query.endpoint@ == self@.grpc_url,
            query.address@ == self@.keybase.account,
    {
        AccountQuery {
            endpoint: self.grpc_url.clone(),
            address: self.keybase.account.clone(),
        }
    }

    /// The account of the client's key, with its number and sequence, from how
    /// the query for it went. Querying may fail, for example because the account
    /// does not exist.
    pub fn query_account(&self, reply: AccountReply) -> (account: Result<BaseAccount, Error>)
        ensures
            outcome(account, |a: BaseAccount| a@) == queried_account(reply@),
            reply matches AccountReply::Answered(Some(found)) && found.value@.len() == 0 ==> (
            account matches Ok(account) && account@ == empty_account()),
    {
        match reply {
            AccountReply::NotConnected(detail) => Err(
                Error::from(join2("GRPC client error: ", detail.as_str())),
            ),
            AccountReply::Failed(detail) => Err(Error::from(detail)),
            AccountReply::Answered(None) => Err(Error::from("Account not found".to_owned())),
            AccountReply::Answered(Some(account)) => BaseAccount::from_decoded(
                prost_account(account.value.as_slice()),
            ),
        }
    }
}

/// The type that an answer claims for an account does not matter: it is decoded
/// from its bytes.
pub proof fn account_type_is_ignored(first: AnyView, second: AnyView)
    requires
        first.value == second.value,
    ensures
        queried_account(AccountReplyView::Answered(Some(first))) == queried_account(
            AccountReplyView::Answered(Some(second)),
        ),
{
}

/// An account comes out exactly where the chain answered with one whose bytes
/// decode, and it is the one decoded, in every field.
pub proof fn account_is_the_one_decoded<H, R, L>(
    client: &CosmosClient<H, R, L>,
    reply: AccountReply,
    account: Result<BaseAccount, Error>,
)
    requires
        call_ensures(CosmosClient::<H, R, L>::query_account, (client, reply), account),
    ensures
        account is Ok <==> reply is Answered && reply->Answered_0 is Some && account_of(
            reply->Answered_0->0.value@,
        ) is Ok,
        account matches Ok(account) ==> {
            let decoded = account_of(reply->Answered_0->0.value@)->Ok_0;
            &&& account.address@ == decoded.address
            &&& account.account_number == decoded.account_number
            &&& account.sequence == decoded.sequence
            &&& account.pub_key is Some <==> decoded.pub_key is Some
            &&& account.pub_key matches Some(key) ==> key.type_url@ == decoded.pub_key->0.type_url
                && key.value@ == decoded.pub_key->0.value
        },
{
}

/// A query for an account that fails says why: the connection, the request, that
/// there is no account, or the decoding.
pub proof fn failed_account_query_says_why<H, R, L>(
    client: &CosmosClient<H, R, L>,
    reply: AccountReply,
    account: Result<BaseAccount, Error>,
)
    requires
        call_ensures(CosmosClient::<H, R, L>::query_account, (client, reply), account),
    ensures
        account matches Err(error) ==> (error matches Error::Custom(text) && match reply {
            AccountReply::NotConnected(detail) => text@ == "GRPC client error: "@ + detail@,
            AccountReply::Failed(detail) => text@ == detail@,
            AccountReply::Answered(None) => text@ == "Account not found"@,
            AccountReply::Answered(Some(found)) => account_of(found.value@) is Err && text@
                == "Failed to decode account "@ + account_of(found.value@)->Err_0,
        }),
{
}

/// What was decoded is handed on: the account itself, or why there is none.
pub proof fn decoded_account_is_handed_on(
    decoded: Result<BaseAccount, String>,
    account: Result<BaseAccount, Error>,
)
    requires
        call_ensures(BaseAccount::from_decoded, (decoded,), account),
    ensures
        decoded is Ok <==> account is Ok,
        decoded matches Ok(found) ==> account->Ok_0 == found,
        decoded matches Err(detail) ==> (account->Err_0 matches Error::Custom(text) && text@
            == "Failed to decode account "@ + detail@),
{
}

/// The account that is asked for is that of the client's key, at the client's
/// gRPC interface.
pub proof fn account_query_is_for_the_key<H, R, L>(
    client: &CosmosClient<H, R, L>,
    query: AccountQuery,
)
    requires
        call_ensures(CosmosClient::<H, R, L>::account_query, (client,), query),
    ensures
        query.endpoint@ == client.grpc_url@,
        query.address@ == client.keybase.account@,
{
}

/// The value of a decoded account has the fields of the account, and that of a
/// failure its words.
pub proof fn decoded_account_keeps_its_fields(decoded: Result<BaseAccount, String>)
    ensures
        match (decoded, decoded_account(decoded)) {
            (Ok(account), Ok(value)) => {
                &&& value.address == account.address@
                &&& value.account_number == account.account_number
                &&& value.sequence == account.sequence
                &&& value.pub_key is Some <==> account.pub_key is Some
                &&& account.pub_key matches Some(key) ==> value.pub_key->0.type_url == key.type_url@
                    && value.pub_key->0.value == key.value@
            },
            (Err(error), Err(text)) => text == error@,
            _ => false,
        },
{
}

/// An answer without bytes is the account that holds nothing.
pub proof fn empty_answer_is_the_empty_account<H, R, L>(
    client: &CosmosClient<H, R, L>,
    found: Any,
    account: Result<BaseAccount, Error>,
)
    requires
        call_ensures(
            CosmosClient::<H, R, L>::query_account,
            (client, AccountReply::Answered(Some(found))),
            account,
        ),
        found.value@.len() == 0,
    ensures
        account matches Ok(account) && {
            &&& account.address@.len() == 0
            &&& account.pub_key is None
            &&& account.account_number == 0
            &&& account.sequence == 0
        },
{
}

} // verus!

//! Queries of the chain's IBC store, with proofs of the answers.

use crate::client::CosmosClient;
use crate::error::{decimal, join2, join4, quote, quoted, Error, ErrorView};
use crate::height::{Height, TmHeight, MAX_BLOCK_HEIGHT};
use crate::views::{described, option_view, outcome};
use vstd::prelude::*;

verus! {

/// A query to be sent to the chain.
pub struct AbciRequest {
    /// Path of the store.
    pub path: String,
    /// The key that is asked for.
    pub data: Vec<u8>,
    /// The height to be asked at; the latest one where there is none.
    pub height: Option<TmHeight>,
    /// Whether the answer has to come with a proof.
    pub prove: bool,
}

/// The mathematical value of an [`AbciRequest`].
pub struct AbciRequestView {
    pub path: Seq<char>,
    pub data: Seq<u8>,
    pub height: Option<u64>,
    pub prove: bool,
}

impl View for AbciRequest {
    type V = AbciRequestView;

    open spec fn view(&self) -> AbciRequestView {
        AbciRequestView {
            path: self.path@,
            data: self.data@,
            height: option_view(self.height),
            prove: self.prove,
        }
    }
}

/// One step of a proof as the chain sends it.
pub struct ProofOp {
    pub field_type: String,
    pub key: Vec<u8>,
    pub data: Vec<u8>,
}

/// The answer of the chain to a query.
pub struct AbciQuery {
    /// Response code; 0 is success.
    pub code: u32,
    pub log: String,
    pub info: String,
    pub index: i64,
    pub key: Vec<u8>,
    pub value: Vec<u8>,
    /// The steps of the proof.
    pub proof: Option<Vec<ProofOp>>,
    pub height: TmHeight,
    pub codespace: String,
}

/// The data of each step of a proof.
pub open spec fn proof_data(ops: Seq<ProofOp>) -> Seq<Seq<u8>> {
    ops.map_values(|op: ProofOp| op.data@)
}

/// The protobuf encoding of the ICS 23 Merkle proof that `ibc` makes of the data
/// of the steps of a proof; nothing where a step does not decode.
pub uninterp spec fn merkle_proof_of(data: Seq<Seq<u8>>) -> Option<Seq<u8>>;

/// `convert_tm_to_ics_merkle_proof` of `ibc`, its Merkle proof in protobuf
/// encoding. Claimed: the outcome is [`merkle_proof_of`] of the data of the
/// steps, so their types and keys do not matter; no steps make a proof, and it
/// is encoded in no bytes; a proof with steps is encoded in some bytes.
#[verifier::external_body]
fn ibc_merkle_proof(ops: &Vec<ProofOp>) -> (encoding: Option<Vec<u8>>)
    ensures
        option_view(encoding) == merkle_proof_of(proof_data(ops@)),
        ops@.len() == 0 ==> encoding is Some,
        encoding matches Some(bytes) ==> (bytes@.len() == 0 <==> ops@.len() == 0),
{
    let ops = ops.iter().map(|op| tendermint::merkle::proof::ProofOp {
        field_type: op.field_type.clone(),
        key: op.key.clone(),
        data: op.data.clone(),
    }).collect();
    let steps = tendermint::merkle::proof::ProofOps { ops };
    match ibc::core::ics23_commitment::merkle::convert_tm_to_ics_merkle_proof(&steps) {
        Ok(merkle) => Some(prost::Message::encode_to_vec(
            &ibc_proto::ibc::core::commitment::v1::MerkleProof::from(merkle),
        )),
        Err(_) => None,
    }
}

/// `CommitmentProofBytes::try_from` of `ibc` for bytes, with its error shown by
/// Display. Claimed: it refuses no bytes but the empty sequence, keeps the
/// others as they are, and its error reads `empty merkle proof`.
#[verifier::external_body]
fn ibc_proof_bytes(bytes: Vec<u8>) -> (accepted: Result<Vec<u8>, String>)
    ensures
        match accepted {
            Ok(kept) => bytes@.len() > 0 && kept@ == bytes@,
            Err(error) => bytes@.len() == 0 && error@ == "empty merkle proof"@,
        },
{
    match ibc::core::ics23_commitment::commitment::CommitmentProofBytes::try_from(bytes) {
        Ok(kept) => Ok(kept.into()),
        Err(error) => Err(error.to_string()),
    }
}

/// The constant `IBC_QUERY_PATH` of `ibc`. Claimed: its value.
#[verifier::external_body]
fn ibc_query_path() -> (path: String)
    ensures
        path@ == "store/ibc/key"@,
{
    ibc::core::ics24_host::IBC_QUERY_PATH.to_owned()
}

/// How a response code is shown.
pub open spec fn code_text(code: u32) -> Seq<char> {
    if code == 0 {
        "Ok"@
    } else {
        "Err("@ + decimal(code as nat) + ")"@
    }
}

/// The Debug text of `Code` of `tendermint`. Claimed: `Ok` for 0, and the number
/// within `Err()` for any other code.
#[verifier::external_body]
fn tendermint_code(code: u32) -> (text: String)
    ensures
        text@ == code_text(code),
{
    format!("{:?}", tendermint::abci::Code::from(code))
}

/// The query of the IBC store for `data`, at a height where one other than 0 is
/// given.
pub open spec fn store_query(data: Seq<u8>, height: u64, prove: bool) -> AbciRequestView {
    AbciRequestView {
        path: "store/ibc/key"@,
        data,
        height: if height == 0 {
            None
        } else {
            Some(height)
        },
        prove,
    }
}

/// The failure to read a height as a block height.
pub open spec fn invalid_height(detail: Seq<char>) -> ErrorView {
    ErrorView::Custom("Invalid height "@ + detail)
}

/// What the request for `data` at a height of the light client can be: the query
/// of the store where the height is a block height, and else the failure that it
/// is none, in whatever words.
pub open spec fn is_store_request(
    data: Seq<u8>,
    height_query: Height,
    prove: bool,
    request: Result<AbciRequestView, ErrorView>,
) -> bool {
    match request {
        Ok(request) => height_query.revision_height <= MAX_BLOCK_HEIGHT && request == store_query(
            data,
            height_query.revision_height,
            prove,
        ),
        Err(error) => height_query.revision_height > MAX_BLOCK_HEIGHT && exists|detail: Seq<char>|
            error == #[trigger] invalid_height(detail),
    }
}

impl AbciRequest {
    /// The query of the IBC store at a height that was read as a block height.
    pub fn at(data: Vec<u8>, height: Result<TmHeight, String>, prove: bool) -> (request: Result<
        AbciRequest,
        Error,
    >)
        ensures
            outcome(request, |r: AbciRequest| r@) == match height {
                Ok(height) => Ok(store_query(data@, height@, prove)),
                Err(detail) => Err(invalid_height(detail@)),
            },
    {
        let height = match height {
            Ok(height) => height,
            Err(detail) => return Err(Error::from(join2("Invalid height ", detail.as_str()))),
        };
        let height = if height.value() == 0 {
            None
        } else {
            Some(height)
        };
        Ok(AbciRequest { path: ibc_query_path(), data, height, prove })
    }
}

/// The result of a query whose code is success and whose answer has a proof:
/// the answer with the bytes of the proof, where it could be made and is not
/// empty.
pub open spec fn proven(response: AbciQuery, encoding: Option<Seq<u8>>) -> Result<
    (AbciQuery, Seq<u8>),
    ErrorView,
> {
    match encoding {
        None => Err(ErrorView::Custom("bad client state proof"@)),
        Some(bytes) => if bytes.len() == 0 {
            Err(ErrorView::Custom("bad client state proof: "@ + "empty merkle proof"@))
        } else {
            Ok((response, bytes))
        },
    }
}

/// The result of a query: the failure to send it, else the failure that its code
/// tells, else the failure that it has no proof, else what the proof gives.
pub open spec fn answered(chain: Seq<char>, reply: Result<AbciQuery, Seq<char>>) -> Result<
    (AbciQuery, Seq<u8>),
    ErrorView,
> {
    match reply {
        Err(detail) => Err(
            ErrorView::Custom("Failed to query chain "@ + chain + " with error "@ + detail),
        ),
        Ok(response) => if response.code != 0 {
            Err(
                ErrorView::Custom(
                    "Query failed with code "@ + code_text(response.code) + " and log "@ + quoted(
                        response.log@,
                    ),
                ),
            )
        } else {
            match response.proof {
                None => Err(
                    ErrorView::Custom("Query failed due to empty proof for chain "@ + chain),
                ),
                Some(ops) => proven(response, merkle_proof_of(proof_data(ops@))),
            }
        },
    }
}

/// An answer with the bytes of its proof.
pub open spec fn answer_view(answer: (AbciQuery, Vec<u8>)) -> (AbciQuery, Seq<u8>) {
    (answer.0, answer.1@)
}

impl AbciQuery {
    /// The answer with the bytes of its proof, from the encoding of the proof
    /// where one could be made.
    pub fn with_proof(self, encoding: Option<Vec<u8>>) -> (answer: Result<(AbciQuery, Vec<u8>), Error>)
        ensures
            outcome(answer, |a: (AbciQuery, Vec<u8>)| answer_view(a)) == proven(
                self,
                option_view(encoding),
            ),
    {
        match encoding {
            None => Err(Error::Custom("bad client state proof".to_owned())),
            Some(bytes) => match ibc_proof_bytes(bytes) {
                Err(error) => Err(
                    Error::Custom(join2("bad client state proof: ", error.as_str())),
                ),
                Ok(accepted) => Ok((self, accepted)),
            },
        }
    }
}

impl<H, R, L> CosmosClient<H, R, L> {
    /// The query of the IBC store for `data` at a height of the light client. Where
    /// that is no block height, the error holds what [`TmHeight::new`] says of it.
    pub fn query_path_request(&self, data: Vec<u8>, height_query: Height, prove: bool) -> (request:
        Result<AbciRequest, Error>)
        ensures
            is_store_request(
                data@,
                height_query,
                prove,
                outcome(request, |r: AbciRequest| r@),
            ),
            request matches Err(error) ==> exists|detail: String| #[trigger]
                call_ensures(
                    TmHeight::new,
                    (height_query.revision_height,),
                    Err::<TmHeight, String>(detail),
                ) && error@ == invalid_height(detail@),
    {
        let height = TmHeight::new(height_query.revision_height);
        AbciRequest::at(data, height, prove)
    }

    /// The answer to a query with the bytes of its proof, from what the chain
    /// replied, or from the Debug text of why it could not be asked.
    ///
    /// A successful answer to a query that asked for no proof must hold one all
    /// the same.
    pub fn query_path(&self, prove: bool, reply: Result<AbciQuery, String>) -> (answer: Result<
        (AbciQuery, Vec<u8>),
        Error,
    >)
        requires
            reply matches Ok(response) ==> response.code == 0 && !prove ==> response.proof is Some,
        ensures
            outcome(answer, |a: (AbciQuery, Vec<u8>)| answer_view(a)) == answered(
                self@.name,
                described(reply),
            ),
            reply matches Ok(response) ==> response.code == 0 ==> (response.proof matches Some(ops)
                ==> ops@.len() == 0 ==> outcome(answer, |a: (AbciQuery, Vec<u8>)| answer_view(a))
                == proven(response, Some(Seq::empty()))),
    {
        let response = match reply {
            Ok(response) => response,
            Err(detail) => return Err(
                Error::from(
                    join4(
                        "Failed to query chain ",
                        self.name.as_str(),
                        " with error ",
                        detail.as_str(),
                    ),
                ),
            ),
        };
        if response.code != 0 {
            return Err(
                Error::from(
                    join4(
                        "Query failed with code ",
                        tendermint_code(response.code).as_str(),
                        " and log ",
                        quote(response.log.as_str()).as_str(),
                    ),
                ),
            );
        }
        let steps = response.proof.as_ref();
        let encoding = match steps {
            None => return Err(
                Error::from(
                    join2("Query failed due to empty proof for chain ", self.name.as_str()),
                ),
            ),
            Some(ops) => ibc_merkle_proof(ops),
        };
        assert(encoding matches Some(bytes) ==> bytes@.len() == 0 ==> bytes@ =~= Seq::empty());
        response.with_proof(encoding)
    }
}

/// A query succeeds only on a successful answer with a proof, which comes back
/// unchanged beside proof bytes that are not empty.
pub proof fn answers_are_proven(chain: Seq<char>, reply: Result<AbciQuery, Seq<char>>)
    ensures
        answered(chain, reply) matches Ok((response, bytes)) ==> {
            &&& reply == Ok::<AbciQuery, Seq<char>>(response)
            &&& response.code == 0
            &&& response.proof is Some
            &&& bytes.len() > 0
            &&& merkle_proof_of(proof_data(response.proof->0@)) == Some(bytes)
        },
{
}

/// The revision number of a queried height has no effect: heights that differ in
/// it alone can give the same requests and failures, and where they are block
/// heights they give the same request. What is made of the reply does not depend
/// on the height at all.
pub proof fn revision_number_is_ignored(
    data: Seq<u8>,
    first: Height,
    second: Height,
    prove: bool,
    request_for_first: Result<AbciRequestView, ErrorView>,
    request_for_second: Result<AbciRequestView, ErrorView>,
)
    requires
        first.revision_height == second.revision_height,
        is_store_request(data, first, prove, request_for_first),
        is_store_request(data, second, prove, request_for_second),
    ensures
        is_store_request(data, second, prove, request_for_first),
        is_store_request(data, first, prove, request_for_second),
        request_for_first is Ok <==> request_for_second is Ok,
        first.revision_height <= MAX_BLOCK_HEIGHT ==> request_for_first == request_for_second,
{
}

/// The proof bytes of an answer depend on nothing but the data of its steps.
pub proof fn proof_bytes_come_from_the_data(
    chain: Seq<char>,
    first: AbciQuery,
    second: AbciQuery,
)
    requires
        first.code == 0,
        second.code == 0,
        first.proof is Some,
        second.proof is Some,
        proof_data(first.proof->0@) == proof_data(second.proof->0@),
    ensures
        match (answered(chain, Ok(first)), answered(chain, Ok(second))) {
            (Ok((_, first_bytes)), Ok((_, second_bytes))) => first_bytes
                == second_bytes,
            (Err(error_for_first), Err(error_for_second)) => error_for_first == error_for_second,
            _ => false,
        },
{
}

/// A request asks the IBC store for the data and the proof that it was made for,
/// at the height that it was made for; only height 0 stands for the latest. A
/// height that could not be read makes no request, and the error holds why.
pub proof fn request_is_as_asked(
    data: Vec<u8>,
    height: Result<TmHeight, String>,
    prove: bool,
    request: Result<AbciRequest, Error>,
)
    requires
        call_ensures(AbciRequest::at, (data, height, prove), request),
    ensures
        height matches Ok(height) ==> (request matches Ok(request) && {
            &&& request.path@ == "store/ibc/key"@
            &&& request.data@ == data@
            &&& request.prove == prove
            &&& request.height is None <==> height@ == 0
            &&& request.height matches Some(asked) ==> asked@ == height@
        }),
        height matches Err(detail) ==> (request matches Err(Error::Custom(text)) && text@
            == "Invalid height "@ + detail@),
{
}

/// Every block height can be asked at: the request is for the data and at the
/// height that were handed in, and only height 0 stands for the latest. Any other
/// height makes no request.
pub proof fn every_block_height_can_be_asked<H, R, L>(
    client: &CosmosClient<H, R, L>,
    data: Vec<u8>,
    height_query: Height,
    prove: bool,
    request: Result<AbciRequest, Error>,
)
    requires
        call_ensures(
            CosmosClient::<H, R, L>::query_path_request,
            (client, data, height_query, prove),
            request,
        ),
    ensures
        height_query.revision_height <= MAX_BLOCK_HEIGHT ==> (request matches Ok(request) && {
            &&& request.path@ == "store/ibc/key"@
            &&& request.data@ == data@
            &&& request.prove == prove
            &&& request.height is None <==> height_query.revision_height == 0
            &&& request.height matches Some(asked) ==> asked@ == height_query.revision_height
        }),
        height_query.revision_height > MAX_BLOCK_HEIGHT ==> (request matches Err(
            Error::Custom(text),
        ) && exists|detail: String| #[trigger]
            call_ensures(
                TmHeight::new,
                (height_query.revision_height,),
                Err::<TmHeight, String>(detail),
            ) && text@ == "Invalid height "@ + detail@),
{
}

/// The data of the steps of a proof are taken in their order, and one of each.
pub proof fn proof_data_is_that_of_each_step(ops: Seq<ProofOp>)
    ensures
        proof_data(ops).len() == ops.len(),
        forall|i: int| 0 <= i < ops.len() ==> #[trigger] proof_data(ops)[i] == ops[i].data@,
{
}

/// An answer keeps all its fields, and its proof all its bytes, where there are
/// any; a proof that could not be made or is empty is refused.
pub proof fn proof_bytes_are_kept(
    response: AbciQuery,
    encoding: Option<Vec<u8>>,
    answer: Result<(AbciQuery, Vec<u8>), Error>,
)
    requires
        call_ensures(AbciQuery::with_proof, (response, encoding), answer),
    ensures
        encoding is None ==> (answer matches Err(Error::Custom(text)) && text@
            == "bad client state proof"@),
        encoding matches Some(bytes) ==> {
            &&& bytes@.len() == 0 ==> (answer matches Err(Error::Custom(text)) && text@
                == "bad client state proof: "@ + "empty merkle proof"@)
            &&& bytes@.len() > 0 ==> (answer matches Ok((kept, proof_bytes)) && kept == response
                && proof_bytes@ == bytes@)
        },
{
}

/// A query succeeds exactly where the chain answered with code 0 and with steps
/// whose data make a proof that is not empty. The answer comes back unchanged,
/// beside the bytes of that proof.
pub proof fn query_succeeds_exactly_when<H, R, L>(
    client: &CosmosClient<H, R, L>,
    prove: bool,
    reply: Result<AbciQuery, String>,
    answer: Result<(AbciQuery, Vec<u8>), Error>,
    data: Seq<Seq<u8>>,
)
    requires
        call_ensures(CosmosClient::<H, R, L>::query_path, (client, prove, reply), answer),
        reply matches Ok(response) ==> (response.proof matches Some(ops) ==> data.len()
            == ops@.len() && forall|i: int|
            0 <= i < ops@.len() ==> #[trigger] data[i] == ops@[i].data@),
    ensures
        answer is Ok <==> reply is Ok && reply->Ok_0.code == 0 && reply->Ok_0.proof is Some
            && merkle_proof_of(data) is Some && merkle_proof_of(data)->0.len() > 0,
        answer matches Ok((response, bytes)) ==> reply == Ok::<AbciQuery, String>(response) && Some(
            bytes@,
        ) == merkle_proof_of(data),
{
    if let Ok(response) = reply {
        if let Some(ops) = response.proof {
            assert(data =~= proof_data(ops@));
        }
    }
}

/// A query that fails says why: the request, the code, that there is no proof, or
/// what is wrong with the proof, the first of them that applies.
pub proof fn failed_query_says_why<H, R, L>(
    client: &CosmosClient<H, R, L>,
    prove: bool,
    reply: Result<AbciQuery, String>,
    answer: Result<(AbciQuery, Vec<u8>), Error>,
)
    requires
        call_ensures(CosmosClient::<H, R, L>::query_path, (client, prove, reply), answer),
    ensures
        answer matches Err(error) ==> (error matches Error::Custom(text) && match reply {
            Err(detail) => text@ == "Failed to query chain "@ + client.name@ + " with error "@
                + detail@,
            Ok(response) => if response.code != 0 {
                text@ == "Query failed with code "@ + ("Err("@ + decimal(response.code as nat)
                    + ")"@) + " and log "@ + quoted(response.log@)
            } else if response.proof is None {
                text@ == "Query failed due to empty proof for chain "@ + client.name@
            } else if merkle_proof_of(proof_data(response.proof->0@)) is None {
                text@ == "bad client state proof"@
            } else {
                text@ == "bad client state proof: "@ + "empty merkle proof"@
            },
        }),
{
}

/// An answer whose proof has no steps is refused for its empty proof.
pub proof fn proof_without_steps_is_refused<H, R, L>(
    client: &CosmosClient<H, R, L>,
    prove: bool,
    response: AbciQuery,
    ops: Vec<ProofOp>,
    answer: Result<(AbciQuery, Vec<u8>), Error>,
)
    requires
        call_ensures(
            CosmosClient::<H, R, L>::query_path,
            (client, prove, Ok::<AbciQuery, String>(response)),
            answer,
        ),
        response.code == 0,
        response.proof == Some(ops),
        ops@.len() == 0,
    ensures
        answer matches Err(Error::Custom(text)) && text@ == "bad client state proof: "@
            + "empty merkle proof"@,
{
}

/// Every reply can be handed in, but for a successful answer without a proof where
/// none was asked for.
pub proof fn every_reply_can_be_handed_in<H, R, L>(
    client: &CosmosClient<H, R, L>,
    prove: bool,
    reply: Result<AbciQuery, String>,
)
    requires
        reply is Err || reply->Ok_0.code != 0 || prove || reply->Ok_0.proof is Some,
    ensures
        call_requires(CosmosClient::<H, R, L>::query_path, (client, prove, reply)),
{
}

} // verus!

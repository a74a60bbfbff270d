//! The headers that bring the counterparty's light client up to date.
//!
//! Every header needs two light blocks: the one at its own height, and the one
//! behind the height that the counterparty trusts. Fetching them is left to the
//! caller: the client says which block it wants next, and the caller hands it
//! back, until the headers are complete or a block could not be had.

use crate::client::CosmosClient;
use crate::error::{chain_failure, fail_for_chain, quoted, Error, ErrorView};
use crate::height::{Height, TmHeight, MAX_BLOCK_HEIGHT};
use crate::views::{described, outcome};
use vstd::prelude::*;

verus! {

/// A block as a light client sees it: its signed header `B`, and the validator
/// sets `V` of this block and of the next.
pub struct LightBlock<B, V> {
    pub signed_header: B,
    pub validators: V,
    pub next_validators: V,
}

/// A header that updates a light client.
pub struct Header<B, V> {
    pub signed_header: B,
    pub validator_set: V,
    /// The height that the counterparty trusts.
    pub trusted_height: Height,
    /// The validators of the block behind the trusted height.
    pub trusted_validator_set: V,
}

/// Whether an update can be left out.
#[derive(Debug, Clone, Copy, PartialEq, Eq, Structural)]
pub enum UpdateType {
    Mandatory,
    Optional,
}

/// An update under way: which heights are left, and what has been gathered.
pub struct HeaderSync<B, V> {
    /// Name of the chain.
    pub chain: String,
    /// Height of the header in work.
    pub next: TmHeight,
    /// Height of the last header.
    pub last: TmHeight,
    /// The height that the counterparty trusts.
    pub trusted_height: Height,
    /// The block at `next`, once it has been fetched.
    pub latest: Option<LightBlock<B, V>>,
    /// The headers below `next`.
    pub headers: Vec<(Header<B, V>, UpdateType)>,
}

/// The mathematical value of a [`HeaderSync`].
pub struct HeaderSyncView<B, V> {
    pub chain: Seq<char>,
    pub next: u64,
    pub last: u64,
    pub trusted_height: Height,
    pub latest: Option<LightBlock<B, V>>,
    pub headers: Seq<(Header<B, V>, UpdateType)>,
}

impl<B, V> View for HeaderSync<B, V> {
    type V = HeaderSyncView<B, V>;

    open spec fn view(&self) -> HeaderSyncView<B, V> {
        HeaderSyncView {
            chain: self.chain@,
            next: self.next@,
            last: self.last@,
            trusted_height: self.trusted_height,
            latest: self.latest,
            headers: self.headers@,
        }
    }
}

/// What an update needs next, or how it ended.
pub enum HeaderStep<B, V> {
    /// The light block at `height`; the answer goes to [`HeaderSync::step`].
    Fetch { height: TmHeight, sync: HeaderSync<B, V> },
    /// Nothing more: all headers, or what went wrong.
    Done(Result<Vec<(Header<B, V>, UpdateType)>, Error>),
}

/// The mathematical value of a [`HeaderStep`].
pub enum HeaderStepView<B, V> {
    Fetch { height: u64, sync: HeaderSyncView<B, V> },
    Done(Result<Seq<(Header<B, V>, UpdateType)>, ErrorView>),
}

impl<B, V> View for HeaderStep<B, V> {
    type V = HeaderStepView<B, V>;

    open spec fn view(&self) -> HeaderStepView<B, V> {
        match self {
            HeaderStep::Fetch { height, sync } => HeaderStepView::Fetch {
                height: height@,
                sync: sync@,
            },
            HeaderStep::Done(result) => HeaderStepView::Done(
                outcome(*result, |headers: Vec<(Header<B, V>, UpdateType)>| headers@),
            ),
        }
    }
}

/// An update that can be continued: its heights are not exhausted, and the
/// block in work was only fetched where the trusted height has a successor.
pub open spec fn can_continue<B, V>(sync: HeaderSyncView<B, V>) -> bool {
    &&& sync.next <= sync.last <= MAX_BLOCK_HEIGHT
    &&& sync.latest is Some ==> sync.trusted_height.revision_height < MAX_BLOCK_HEIGHT
}

/// The beginning of an update: done at once where no height is asked for, else
/// in need of the block at the first height.
pub open spec fn sync_start<B, V>(chain: Seq<char>, from: u64, to: u64, trusted_height: Height) -> HeaderStepView<
    B,
    V,
> {
    if from > to {
        HeaderStepView::Done(Ok(Seq::empty()))
    } else {
        HeaderStepView::Fetch {
            height: from,
            sync: HeaderSyncView {
                chain,
                next: from,
                last: to,
                trusted_height,
                latest: None,
                headers: Seq::empty(),
            },
        }
    }
}

/// The header made of the block at its own height and of the block behind the
/// trusted height.
pub open spec fn header_of<B, V>(
    latest: LightBlock<B, V>,
    trusted_height: Height,
    trusted: LightBlock<B, V>,
) -> Header<B, V> {
    Header {
        signed_header: latest.signed_header,
        validator_set: latest.validators,
        trusted_height,
        trusted_validator_set: trusted.validators,
    }
}

/// The failure to fetch a block.
pub open spec fn fetch_failure(chain: Seq<char>, detail: Seq<char>) -> ErrorView {
    chain_failure("Failed to fetch light block for chain "@, chain, detail)
}

/// The failure to read the trusted height as a block height.
pub open spec fn height_failure(chain: Seq<char>, detail: Seq<char>) -> ErrorView {
    chain_failure("Failed to convert height for chain "@, chain, detail)
}

/// What follows once the block at the height in work is there and the trusted
/// height was read as a block height.
pub open spec fn after_latest<B, V>(
    sync: HeaderSyncView<B, V>,
    latest: LightBlock<B, V>,
    trusted: Result<u64, Seq<char>>,
) -> HeaderStepView<B, V> {
    match trusted {
        Err(detail) => HeaderStepView::Done(Err(height_failure(sync.chain, detail))),
        Ok(height) => HeaderStepView::Fetch {
            height: (height + 1) as u64,
            sync: HeaderSyncView { latest: Some(latest), ..sync },
        },
    }
}

/// What follows once both blocks of a header are there: the next height, or
/// the end with all headers. An update is mandatory whether or not the
/// validators of the next block are those of this one.
pub open spec fn after_trusted<B, V>(
    sync: HeaderSyncView<B, V>,
    latest: LightBlock<B, V>,
    trusted: LightBlock<B, V>,
) -> HeaderStepView<B, V> {
    let headers = sync.headers.push(
        (header_of(latest, sync.trusted_height, trusted), UpdateType::Mandatory),
    );
    if sync.next == sync.last {
        HeaderStepView::Done(Ok(headers))
    } else {
        HeaderStepView::Fetch {
            height: (sync.next + 1) as u64,
            sync: HeaderSyncView {
                next: (sync.next + 1) as u64,
                latest: None,
                headers,
                ..sync
            },
        }
    }
}

/// What follows an answer, where the trusted height is a block height.
pub open spec fn sync_step<B, V>(
    sync: HeaderSyncView<B, V>,
    reply: Result<LightBlock<B, V>, Seq<char>>,
) -> HeaderStepView<B, V> {
    match reply {
        Err(detail) => HeaderStepView::Done(Err(fetch_failure(sync.chain, detail))),
        Ok(block) => match sync.latest {
            None => after_latest(sync, block, Ok(sync.trusted_height.revision_height)),
            Some(latest) => after_trusted(sync, latest, block),
        },
    }
}

impl<B, V> HeaderSync<B, V> {
    /// Continues with the light block that was asked for, or with the Debug
    /// text of why it could not be fetched.
    ///
    /// The block behind the trusted height is needed after the first block of
    /// a header, so the trusted height must have a successor by then. Where it is
    /// no block height, the error holds what [`TmHeight::new`] says of it.
    pub fn step(self, reply: Result<LightBlock<B, V>, String>) -> (step: HeaderStep<B, V>)
        requires
            can_continue(self@),
            reply is Ok && self.latest is None ==> self.trusted_height.revision_height
                != MAX_BLOCK_HEIGHT,
        ensures
            reply is Err || self.trusted_height.revision_height <= MAX_BLOCK_HEIGHT ==> step@
                == sync_step(self@, described(reply)),
            reply is Ok && self.trusted_height.revision_height > MAX_BLOCK_HEIGHT ==> exists|
                detail: String,
            | #[trigger]
                call_ensures(
                    TmHeight::new,
                    (self.trusted_height.revision_height,),
                    Err::<TmHeight, String>(detail),
                ) && step@ == (HeaderStepView::<B, V>::Done(
                    Err(height_failure(self.chain@, detail@)),
                )),
            step@ matches HeaderStepView::Fetch { height, sync } ==> can_continue(sync) && height
                <= MAX_BLOCK_HEIGHT,
    {
        let block = match reply {
            Ok(block) => block,
            Err(detail) => return HeaderStep::Done(
                Err(
                    fail_for_chain(
                        "Failed to fetch light block for chain ",
                        self.chain.as_str(),
                        detail.as_str(),
                    ),
                ),
            ),
        };
        match self.latest {
            None => {
                let trusted = TmHeight::new(self.trusted_height.revision_height);
                self.with_latest(block, trusted)
            },
            Some(latest) => {
                let mut headers = self.headers;
                headers.push(
                    (
                        Header {
                            signed_header: latest.signed_header,
                            validator_set: latest.validators,
                            trusted_height: self.trusted_height,
                            trusted_validator_set: block.validators,
                        },
                        UpdateType::Mandatory,
                    ),
                );
                if self.next.value() == self.last.value() {
                    HeaderStep::Done(Ok(headers))
                } else {
                    let next = self.next.increment();
                    HeaderStep::Fetch {
                        height: next,
                        sync: HeaderSync {
                            chain: self.chain,
                            next,
                            last: self.last,
                            trusted_height: self.trusted_height,
                            latest: None,
                            headers,
                        },
                    }
                }
            },
        }
    }

    /// Keeps the block at the height in work, and asks for the block behind the
    /// trusted height.
    pub fn with_latest(self, latest: LightBlock<B, V>, trusted: Result<TmHeight, String>) -> (step:
        HeaderStep<B, V>)
        requires
            trusted matches Ok(height) ==> height@ < MAX_BLOCK_HEIGHT,
        ensures
            step@ == after_latest(
                self@,
                latest,
                match trusted {
                    Ok(height) => Ok(height@),
                    Err(detail) => Err(detail@),
                },
            ),
    {
        match trusted {
            Err(detail) => HeaderStep::Done(
                Err(
                    fail_for_chain(
                        "Failed to convert height for chain ",
                        self.chain.as_str(),
                        detail.as_str(),
                    ),
                ),
            ),
            Ok(height) => HeaderStep::Fetch {
                height: height.increment(),
                sync: HeaderSync {
                    chain: self.chain,
                    next: self.next,
                    last: self.last,
                    trusted_height: self.trusted_height,
                    latest: Some(latest),
                    headers: self.headers,
                },
            },
        }
    }
}

impl<H, R, L> CosmosClient<H, R, L> {
    /// Begins an update of the counterparty's light client with the headers of
    /// the blocks `from` to `to`, on top of `trusted_height`.
    pub fn msg_update_client_header<B, V>(
        &self,
        from: TmHeight,
        to: TmHeight,
        trusted_height: Height,
    ) -> (step: HeaderStep<B, V>)
        ensures
            step@ == sync_start::<B, V>(self@.name, from@, to@, trusted_height),
            step@ matches HeaderStepView::Fetch { height, sync } ==> can_continue(sync) && height
                <= MAX_BLOCK_HEIGHT,
    {
        let first = from.value();
        let last = to.value();
        if first > last {
            HeaderStep::Done(Ok(Vec::new()))
        } else {
            HeaderStep::Fetch {
                height: from,
                sync: HeaderSync {
                    chain: self.name.clone(),
                    next: from,
                    last: to,
                    trusted_height,
                    latest: None,
                    headers: Vec::new(),
                },
            }
        }
    }
}

/// Where an update stands after a number of blocks were fetched one by one.
pub open spec fn sync_run<B, V>(start: HeaderStepView<B, V>, blocks: Seq<LightBlock<B, V>>) -> HeaderStepView<
    B,
    V,
>
    decreases blocks.len(),
{
    if blocks.len() == 0 {
        start
    } else {
        match sync_run(start, blocks.drop_last()) {
            HeaderStepView::Done(result) => HeaderStepView::Done(result),
            HeaderStepView::Fetch { sync, .. } => sync_step(sync, Ok(blocks.last())),
        }
    }
}

/// The first `count` headers of an update, made of the blocks in pairs.
pub open spec fn paired_headers<B, V>(
    blocks: Seq<LightBlock<B, V>>,
    trusted_height: Height,
    count: nat,
) -> Seq<(Header<B, V>, UpdateType)> {
    Seq::new(
        count,
        |i: int|
            (
                header_of(blocks[2 * i], trusted_height, blocks[2 * i + 1]),
                UpdateType::Mandatory,
            ),
    )
}

/// An update fetches the heights from the first to the last in turn, each
/// followed by the block behind the trusted height; as long as blocks are
/// missing it has a header for each pair of blocks that it got.
pub proof fn update_asks_for_each_height<B, V>(
    chain: Seq<char>,
    from: u64,
    to: u64,
    trusted_height: Height,
    blocks: Seq<LightBlock<B, V>>,
)
    requires
        from <= to,
        trusted_height.revision_height < MAX_BLOCK_HEIGHT,
        blocks.len() < 2 * (to - from + 1),
    ensures
        sync_run(sync_start::<B, V>(chain, from, to, trusted_height), blocks)
            == (HeaderStepView::Fetch {
            height: if blocks.len() % 2 == 0 {
                (from + blocks.len() / 2) as u64
            } else {
                (trusted_height.revision_height + 1) as u64
            },
            sync: HeaderSyncView {
                chain,
                next: (from + blocks.len() / 2) as u64,
                last: to,
                trusted_height,
                latest: if blocks.len() % 2 == 0 {
                    None
                } else {
                    Some(blocks.last())
                },
                headers: paired_headers(blocks, trusted_height, blocks.len() / 2),
            },
        }),
    decreases blocks.len(),
{
    if blocks.len() == 0 {
        assert(paired_headers(blocks, trusted_height, 0) =~= Seq::empty());
    } else {
        let before = blocks.drop_last();
        update_asks_for_each_height(chain, from, to, trusted_height, before);
        if blocks.len() % 2 == 0 {
            let count = blocks.len() / 2;
            assert(before.len() / 2 == count - 1);
            assert(paired_headers(blocks, trusted_height, count) =~= paired_headers(
                before,
                trusted_height,
                (count - 1) as nat,
            ).push(
                (
                    header_of(before.last(), trusted_height, blocks.last()),
                    UpdateType::Mandatory,
                ),
            ));
        } else {
            assert(paired_headers(blocks, trusted_height, blocks.len() / 2) =~= paired_headers(
                before,
                trusted_height,
                before.len() / 2,
            ));
        }
    }
}

/// An update that gets all its blocks ends with one mandatory header for each
/// height, in order of height.
pub proof fn update_yields_each_header<B, V>(
    chain: Seq<char>,
    from: u64,
    to: u64,
    trusted_height: Height,
    blocks: Seq<LightBlock<B, V>>,
)
    requires
        from <= to,
        trusted_height.revision_height < MAX_BLOCK_HEIGHT,
        blocks.len() == 2 * (to - from + 1),
    ensures
        sync_run(sync_start::<B, V>(chain, from, to, trusted_height), blocks)
            == HeaderStepView::<B, V>::Done(
            Ok(paired_headers(blocks, trusted_height, (to - from + 1) as nat)),
        ),
{
    let before = blocks.drop_last();
    update_asks_for_each_height(chain, from, to, trusted_height, before);
    let count = (to - from + 1) as nat;
    assert(before.len() / 2 == count - 1);
    assert(paired_headers(blocks, trusted_height, count) =~= paired_headers(
        before,
        trusted_height,
        (count - 1) as nat,
    ).push((header_of(before.last(), trusted_height, blocks.last()), UpdateType::Mandatory)));
}

/// A range of heights can be updated in two parts: the headers of the parts, one
/// after the other, are the headers of the whole.
pub proof fn update_can_be_split<B, V>(
    chain: Seq<char>,
    from: u64,
    middle: u64,
    to: u64,
    trusted_height: Height,
    lower: Seq<LightBlock<B, V>>,
    upper: Seq<LightBlock<B, V>>,
)
    requires
        from <= middle < to,
        trusted_height.revision_height < MAX_BLOCK_HEIGHT,
        lower.len() == 2 * (middle - from + 1),
        upper.len() == 2 * (to - middle),
    ensures
        match (
            sync_run(sync_start::<B, V>(chain, from, middle, trusted_height), lower),
            sync_run(sync_start::<B, V>(chain, (middle + 1) as u64, to, trusted_height), upper),
            sync_run(sync_start::<B, V>(chain, from, to, trusted_height), lower + upper),
        ) {
            (
                HeaderStepView::Done(Ok(lower_headers)),
                HeaderStepView::Done(Ok(upper_headers)),
                HeaderStepView::Done(Ok(headers)),
            ) => headers == lower_headers + upper_headers,
            _ => false,
        },
{
    update_yields_each_header(chain, from, middle, trusted_height, lower);
    update_yields_each_header(chain, (middle + 1) as u64, to, trusted_height, upper);
    update_yields_each_header(chain, from, to, trusted_height, lower + upper);
    let count = (middle - from + 1) as nat;
    let rest = (to - middle) as nat;
    assert(paired_headers(lower + upper, trusted_height, (to - from + 1) as nat)
        =~= paired_headers(lower, trusted_height, count) + paired_headers(
        upper,
        trusted_height,
        rest,
    ));
}

/// The revision number of the trusted height is copied into every header and has
/// no other effect: with another number the same blocks are asked for, and the
/// headers differ in the trusted height alone.
pub proof fn trusted_revision_is_copied<B, V>(
    chain: Seq<char>,
    from: u64,
    to: u64,
    trusted_height: Height,
    revision_number: u64,
    blocks: Seq<LightBlock<B, V>>,
)
    requires
        from <= to,
        trusted_height.revision_height < MAX_BLOCK_HEIGHT,
        blocks.len() <= 2 * (to - from + 1),
    ensures
        ({
            let other = Height { revision_number, ..trusted_height };
            match (
                sync_run(sync_start::<B, V>(chain, from, to, trusted_height), blocks),
                sync_run(sync_start::<B, V>(chain, from, to, other), blocks),
            ) {
                (
                    HeaderStepView::Fetch { height: first, .. },
                    HeaderStepView::Fetch { height: second, .. },
                ) => first == second,
                (HeaderStepView::Done(Ok(headers)), HeaderStepView::Done(Ok(others))) => {
                    &&& headers.len() == others.len()
                    &&& forall|i: int|
                        0 <= i < headers.len() ==> {
                            &&& (#[trigger] headers[i]).0.trusted_height == trusted_height
                            &&& others[i] == (
                                Header { trusted_height: other, ..headers[i].0 },
                                headers[i].1,
                            )
                        }
                },
                _ => false,
            }
        }),
{
    let other = Height { revision_number, ..trusted_height };
    if blocks.len() < 2 * (to - from + 1) {
        update_asks_for_each_height(chain, from, to, trusted_height, blocks);
        update_asks_for_each_height(chain, from, to, other, blocks);
    } else {
        update_yields_each_header(chain, from, to, trusted_height, blocks);
        update_yields_each_header(chain, from, to, other, blocks);
    }
}

/// An update that cannot get its next block ends with an error, whatever it had
/// gathered by then.
pub proof fn update_stops_at_a_missing_block<B, V>(
    chain: Seq<char>,
    from: u64,
    to: u64,
    trusted_height: Height,
    blocks: Seq<LightBlock<B, V>>,
    detail: Seq<char>,
)
    requires
        from <= to,
        trusted_height.revision_height < MAX_BLOCK_HEIGHT,
        blocks.len() < 2 * (to - from + 1),
    ensures
        sync_run(sync_start::<B, V>(chain, from, to, trusted_height), blocks) matches HeaderStepView::Fetch {
            sync,
            ..
        } && sync_step(sync, Err(detail)) == HeaderStepView::<B, V>::Done(
            Err(fetch_failure(chain, detail)),
        ),
{
    update_asks_for_each_height(chain, from, to, trusted_height, blocks);
}

/// The headers of a completed update hold the blocks that were fetched, whatever
/// the trusted height: each has the signed header and the validators of the first
/// block of its pair, and the validators of the second as the trusted ones.
pub proof fn headers_hold_the_fetched_blocks<B, V>(
    chain: Seq<char>,
    from: u64,
    to: u64,
    trusted_height: Height,
    blocks: Seq<LightBlock<B, V>>,
)
    requires
        from <= to,
        trusted_height.revision_height < MAX_BLOCK_HEIGHT,
        blocks.len() == 2 * (to - from + 1),
    ensures
        sync_run(sync_start::<B, V>(chain, from, to, trusted_height), blocks) matches HeaderStepView::Done(
            Ok(headers),
        ) && {
            &&& headers.len() == to - from + 1
            &&& forall|i: int|
                0 <= i < headers.len() ==> {
                    &&& (#[trigger] headers[i]).0.signed_header == blocks[2 * i].signed_header
                    &&& headers[i].0.validator_set == blocks[2 * i].validators
                    &&& headers[i].0.trusted_height == trusted_height
                    &&& headers[i].0.trusted_validator_set == blocks[2 * i + 1].validators
                    &&& headers[i].1 == UpdateType::Mandatory
                }
        },
{
    update_yields_each_header(chain, from, to, trusted_height, blocks);
}

/// An update begins with the block at the first height and nothing gathered, and
/// with no height to update it is complete and empty.
pub proof fn update_begins_at_the_first_height<H, R, L, B, V>(
    client: &CosmosClient<H, R, L>,
    from: TmHeight,
    to: TmHeight,
    trusted_height: Height,
    step: HeaderStep<B, V>,
)
    requires
        call_ensures(
            CosmosClient::<H, R, L>::msg_update_client_header::<B, V>,
            (client, from, to, trusted_height),
            step,
        ),
    ensures
        from@ > to@ ==> (step matches HeaderStep::Done(Ok(headers)) && headers@.len() == 0),
        from@ <= to@ ==> (step matches HeaderStep::Fetch { height, sync } && {
            &&& height@ == from@
            &&& sync.chain@ == client.name@
            &&& sync.next@ == from@
            &&& sync.last@ == to@
            &&& sync.trusted_height == trusted_height
            &&& sync.latest is None
            &&& sync.headers@.len() == 0
        }),
{
}

/// The first block of a header is kept as it is, nothing else of the update
/// changes, and the block behind the trusted height is asked for.
pub proof fn first_block_is_kept<B, V>(
    sync: HeaderSync<B, V>,
    block: LightBlock<B, V>,
    step: HeaderStep<B, V>,
)
    requires
        call_ensures(
            HeaderSync::<B, V>::step,
            (sync, Ok::<LightBlock<B, V>, String>(block)),
            step,
        ),
        sync.latest is None,
        sync.trusted_height.revision_height < MAX_BLOCK_HEIGHT,
    ensures
        step matches HeaderStep::Fetch { height, sync: after } && {
            &&& height@ == sync.trusted_height.revision_height + 1
            &&& after.chain@ == sync.chain@
            &&& after.next@ == sync.next@
            &&& after.last@ == sync.last@
            &&& after.trusted_height == sync.trusted_height
            &&& after.latest == Some(block)
            &&& after.headers@ == sync.headers@
        },
{
}

/// The second block of a header completes it: one mandatory header is added,
/// made of the two blocks, and the update goes on to the next height, or ends
/// behind the last one.
pub proof fn second_block_completes_the_header<B, V>(
    sync: HeaderSync<B, V>,
    latest: LightBlock<B, V>,
    block: LightBlock<B, V>,
    step: HeaderStep<B, V>,
)
    requires
        call_ensures(
            HeaderSync::<B, V>::step,
            (sync, Ok::<LightBlock<B, V>, String>(block)),
            step,
        ),
        sync.latest == Some(latest),
        sync.next@ <= sync.last@,
        sync.trusted_height.revision_height < MAX_BLOCK_HEIGHT,
    ensures
        ({
            let headers = sync.headers@.push(
                (
                    Header {
                        signed_header: latest.signed_header,
                        validator_set: latest.validators,
                        trusted_height: sync.trusted_height,
                        trusted_validator_set: block.validators,
                    },
                    UpdateType::Mandatory,
                ),
            );
            &&& sync.next@ == sync.last@ ==> (step matches HeaderStep::Done(Ok(all)) && all@
                == headers)
            &&& sync.next@ < sync.last@ ==> (step matches HeaderStep::Fetch {
                height,
                sync: after,
            } && {
                &&& height@ == sync.next@ + 1
                &&& after.chain@ == sync.chain@
                &&& after.next@ == sync.next@ + 1
                &&& after.last@ == sync.last@
                &&& after.trusted_height == sync.trusted_height
                &&& after.latest is None
                &&& after.headers@ == headers
            })
        }),
{
}

/// A block that could not be fetched ends the update, whatever was gathered, and
/// so does a trusted height that is no block height; the error names the chain
/// and holds what went wrong.
pub proof fn failed_update_says_why<B, V>(
    sync: HeaderSync<B, V>,
    reply: Result<LightBlock<B, V>, String>,
    step: HeaderStep<B, V>,
)
    requires
        call_ensures(HeaderSync::<B, V>::step, (sync, reply), step),
    ensures
        reply matches Err(detail) ==> (step matches HeaderStep::Done(Err(Error::Custom(text)))
            && text@ == "Failed to fetch light block for chain "@ + quoted(sync.chain@)
            + " with error "@ + detail@),
        reply is Ok && sync.trusted_height.revision_height > MAX_BLOCK_HEIGHT ==> (
        step matches HeaderStep::Done(Err(Error::Custom(text))) && exists|detail: String| #[trigger]
            call_ensures(
                TmHeight::new,
                (sync.trusted_height.revision_height,),
                Err::<TmHeight, String>(detail),
            ) && text@ == "Failed to convert height for chain "@ + quoted(sync.chain@)
                + " with error "@ + detail@),
{
}

/// With the first block of a header and the trusted height as a block height, the
/// block above that height is asked for; where it is none, the update ends with
/// an error that holds why.
pub proof fn kept_block_waits_for_the_trusted_one<B, V>(
    sync: HeaderSync<B, V>,
    latest: LightBlock<B, V>,
    trusted: Result<TmHeight, String>,
    step: HeaderStep<B, V>,
)
    requires
        call_ensures(HeaderSync::<B, V>::with_latest, (sync, latest, trusted), step),
    ensures
        trusted matches Ok(trusted) ==> trusted@ < MAX_BLOCK_HEIGHT ==> (
        step matches HeaderStep::Fetch { height, sync: after } && {
            &&& height@ == trusted@ + 1
            &&& after.chain@ == sync.chain@
            &&& after.next@ == sync.next@
            &&& after.last@ == sync.last@
            &&& after.trusted_height == sync.trusted_height
            &&& after.latest == Some(latest)
            &&& after.headers@ == sync.headers@
        }),
        trusted matches Err(detail) ==> (step matches HeaderStep::Done(Err(Error::Custom(text)))
            && text@ == "Failed to convert height for chain "@ + quoted(sync.chain@)
            + " with error "@ + detail@),
{
}

/// The steps that the operations take from the beginning of an update, where
/// every block that is asked for comes: each goes from what the one before asks.
pub open spec fn steps_taken<H, R, L, B, V>(
    client: &CosmosClient<H, R, L>,
    from: TmHeight,
    to: TmHeight,
    trusted_height: Height,
    blocks: Seq<LightBlock<B, V>>,
    steps: Seq<HeaderStep<B, V>>,
) -> bool {
    &&& steps.len() == blocks.len() + 1
    &&& call_ensures(
        CosmosClient::<H, R, L>::msg_update_client_header::<B, V>,
        (client, from, to, trusted_height),
        steps[0],
    )
    &&& forall|k: int|
        #![trigger blocks[k]]
        0 <= k < blocks.len() ==> (steps[k] matches HeaderStep::Fetch { sync, .. } && call_ensures(
            HeaderSync::<B, V>::step,
            (sync, Ok::<LightBlock<B, V>, String>(blocks[k])),
            steps[k + 1],
        ))
}

/// While an update takes its steps, the heights from the first to the last are
/// asked for in turn, each followed by the one above the trusted height, and the
/// headers so far hold the blocks that came.
pub proof fn steps_ask_for_each_height<H, R, L, B, V>(
    client: &CosmosClient<H, R, L>,
    from: TmHeight,
    to: TmHeight,
    trusted_height: Height,
    blocks: Seq<LightBlock<B, V>>,
    steps: Seq<HeaderStep<B, V>>,
    k: int,
)
    requires
        from@ <= to@,
        trusted_height.revision_height < MAX_BLOCK_HEIGHT,
        steps_taken(client, from, to, trusted_height, blocks, steps),
        0 <= k <= blocks.len(),
        k < 2 * (to@ - from@ + 1),
    ensures
        steps[k] matches HeaderStep::Fetch { height, sync } && {
            &&& k % 2 == 0 ==> height@ == from@ + k / 2 && sync.latest is None
            &&& k % 2 == 1 ==> height@ == trusted_height.revision_height + 1 && sync.latest == Some(
                blocks[k - 1],
            )
            &&& sync.next@ == from@ + k / 2
            &&& sync.last@ == to@
            &&& sync.chain@ == client.name@
            &&& sync.trusted_height == trusted_height
            &&& sync.headers@.len() == k / 2
            &&& forall|i: int|
                0 <= i < k / 2 ==> {
                    &&& (#[trigger] sync.headers@[i]).0.signed_header == blocks[2
                        * i].signed_header
                    &&& sync.headers@[i].0.validator_set == blocks[2 * i].validators
                    &&& sync.headers@[i].0.trusted_height == trusted_height
                    &&& sync.headers@[i].0.trusted_validator_set == blocks[2 * i + 1].validators
                    &&& sync.headers@[i].1 == UpdateType::Mandatory
                }
        },
    decreases k,
{
    if k == 0 {
        update_begins_at_the_first_height(client, from, to, trusted_height, steps[0]);
    } else {
        steps_ask_for_each_height(client, from, to, trusted_height, blocks, steps, k - 1);
        let block = blocks[k - 1];
        if let HeaderStep::Fetch { sync, .. } = steps[k - 1] {
            if k % 2 == 1 {
                first_block_is_kept(sync, block, steps[k]);
            } else {
                second_block_completes_the_header(sync, blocks[k - 2], block, steps[k]);
            }
        }
    }
}

/// An update that got two blocks for each height has come to its end, with one
/// mandatory header for each height that holds its two blocks.
pub proof fn steps_end_with_each_header<H, R, L, B, V>(
    client: &CosmosClient<H, R, L>,
    from: TmHeight,
    to: TmHeight,
    trusted_height: Height,
    blocks: Seq<LightBlock<B, V>>,
    steps: Seq<HeaderStep<B, V>>,
)
    requires
        from@ <= to@,
        trusted_height.revision_height < MAX_BLOCK_HEIGHT,
        steps_taken(client, from, to, trusted_height, blocks, steps),
        blocks.len() == 2 * (to@ - from@ + 1),
    ensures
        steps.last() matches HeaderStep::Done(Ok(headers)) && {
            &&& headers@.len() == to@ - from@ + 1
            &&& forall|i: int|
                0 <= i < headers@.len() ==> {
                    &&& (#[trigger] headers@[i]).0.signed_header == blocks[2 * i].signed_header
                    &&& headers@[i].0.validator_set == blocks[2 * i].validators
                    &&& headers@[i].0.trusted_height == trusted_height
                    &&& headers@[i].0.trusted_validator_set == blocks[2 * i + 1].validators
                    &&& headers@[i].1 == UpdateType::Mandatory
                }
        },
{
    let k: int = blocks.len() - 1;
    steps_ask_for_each_height(client, from, to, trusted_height, blocks, steps, k);
    let block = blocks[k];
    if let HeaderStep::Fetch { sync, .. } = steps[k] {
        second_block_completes_the_header(sync, blocks[k - 1], block, steps[k + 1]);
    }
}

/// An update that asks for a block goes on with any reply, as long as the trusted
/// height has a successor.
pub proof fn update_can_go_on<B, V>(
    sync: HeaderSync<B, V>,
    block: Result<LightBlock<B, V>, String>,
    step: HeaderStep<B, V>,
    reply: Result<LightBlock<B, V>, String>,
)
    requires
        sync.next@ <= sync.last@ <= MAX_BLOCK_HEIGHT,
        sync.trusted_height.revision_height < MAX_BLOCK_HEIGHT,
        call_ensures(HeaderSync::<B, V>::step, (sync, block), step),
    ensures
        call_requires(HeaderSync::<B, V>::step, (sync, reply)),
        step matches HeaderStep::Fetch { sync: after, .. } ==> call_requires(
            HeaderSync::<B, V>::step,
            (after, reply),
        ),
{
}

/// A reply can be handed in as long as the heights are not exhausted, also where
/// the trusted height is no block height.
pub proof fn every_block_can_be_handed_in<B, V>(
    sync: HeaderSync<B, V>,
    reply: Result<LightBlock<B, V>, String>,
)
    requires
        sync.next@ <= sync.last@ <= MAX_BLOCK_HEIGHT,
        sync.latest is None,
        reply is Err || sync.trusted_height.revision_height != MAX_BLOCK_HEIGHT,
    ensures
        call_requires(HeaderSync::<B, V>::step, (sync, reply)),
{
}

} // verus!

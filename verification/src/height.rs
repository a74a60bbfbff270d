//! Heights: of the counterparty's light client, and of blocks of the chain.

use vstd::prelude::*;

verus! {

/// The height that an IBC light client speaks of.
#[derive(Debug, Clone, Copy, PartialEq, Eq, Structural)]
pub struct Height {
    /// The revision of the chain.
    pub revision_number: u64,
    /// The height of the block within the revision.
    pub revision_height: u64,
}

/// The largest block height: heights travel as signed 64-bit numbers.
pub const MAX_BLOCK_HEIGHT: u64 = 0x7fff_ffff_ffff_ffff;

/// The height of a block of the chain, at most [`MAX_BLOCK_HEIGHT`].
#[derive(Debug, Clone, Copy)]
pub struct TmHeight {
    value: u64,
}

impl View for TmHeight {
    type V = u64;

    closed spec fn view(&self) -> u64 {
        self.value
    }
}

/// `block::Height::try_from` of `tendermint` for a `u64`, the height taken as a
/// number and the error shown as text. Claimed: it accepts exactly the numbers
/// up to the largest `i64`, unchanged. Nothing is said of the error's text: its
/// trace may hold a backtrace, which the environment of the process decides.
#[verifier::external_body]
fn tendermint_height(value: u64) -> (height: Result<u64, String>)
    ensures
        match height {
            Ok(accepted) => value <= MAX_BLOCK_HEIGHT && accepted == value,
            Err(_) => value > MAX_BLOCK_HEIGHT,
        },
{
    match tendermint::block::Height::try_from(value) {
        Ok(accepted) => Ok(accepted.value()),
        Err(error) => Err(error.to_string()),
    }
}

impl TmHeight {
    #[verifier::type_invariant]
    spec fn in_range(self) -> bool {
        self.value <= MAX_BLOCK_HEIGHT
    }

    /// The block height `value`, where it is one; else what is wrong with it.
    pub fn new(value: u64) -> (height: Result<TmHeight, String>)
        ensures
            match height {
                Ok(accepted) => value <= MAX_BLOCK_HEIGHT && accepted@ == value,
                Err(_) => value > MAX_BLOCK_HEIGHT,
            },
    {
        match tendermint_height(value) {
            Ok(accepted) => Ok(TmHeight { value: accepted }),
            Err(error) => Err(error),
        }
    }

    /// The height as a number.
    pub fn value(&self) -> (value: u64)
        ensures
            value == self@,
            value <= MAX_BLOCK_HEIGHT,
    {
        proof {
            use_type_invariant(self);
        }
        self.value
    }

    /// The height of the next block.
    pub fn increment(self) -> (next: TmHeight)
        requires
            self@ < MAX_BLOCK_HEIGHT,
        ensures
            next@ == self@ + 1,
    {
        TmHeight { value: self.value + 1 }
    }
}

/// A number that is accepted as a height is the value of the height, and the next
/// height is one above it.
pub proof fn height_has_the_value_given(
    given: u64,
    height: TmHeight,
    value: u64,
    next: TmHeight,
    next_value: u64,
)
    requires
        call_ensures(TmHeight::new, (given,), Ok::<TmHeight, String>(height)),
        call_ensures(TmHeight::value, (&height,), value),
        call_ensures(TmHeight::increment, (height,), next),
        call_ensures(TmHeight::value, (&next,), next_value),
    ensures
        value == given,
        next_value == given + 1,
{
}

/// Exactly the numbers up to the largest signed one are heights.
pub proof fn heights_are_signed_numbers(given: u64, height: Result<TmHeight, String>)
    requires
        call_ensures(TmHeight::new, (given,), height),
    ensures
        height is Ok <==> given <= i64::MAX,
{
}

} // verus!

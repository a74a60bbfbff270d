//! Errors of the client and the text they carry.

use vstd::prelude::*;

verus! {

/// What can go wrong while the client works.
#[derive(Debug)]
pub enum Error {
    /// The RPC interface could not be set up; holds its own description.
    RpcError(String),
    /// Anything else, described in words.
    Custom(String),
}

/// The mathematical value of an [`Error`].
pub enum ErrorView {
    RpcError(Seq<char>),
    Custom(Seq<char>),
}

impl View for Error {
    type V = ErrorView;

    open spec fn view(&self) -> ErrorView {
        match self {
            Error::RpcError(text) => ErrorView::RpcError(text@),
            Error::Custom(text) => ErrorView::Custom(text@),
        }
    }
}

impl From<String> for Error {
    fn from(text: String) -> (error: Self) {
        Error::Custom(text)
    }
}

impl vstd::std_specs::convert::FromSpecImpl<String> for Error {
    open spec fn obeys_from_spec() -> bool {
        true
    }

    open spec fn from_spec(text: String) -> Self {
        Error::Custom(text)
    }
}

/// What `std`'s `Debug` for `str` writes for a text that holds characters which
/// may have to be escaped.
pub uninterp spec fn escaped(text: Seq<char>) -> Seq<char>;

/// A text of printable ASCII characters other than quotes and the backslash.
pub open spec fn plain_text(text: Seq<char>) -> bool {
    forall|i: int|
        0 <= i < text.len() ==> ' ' <= #[trigger] text[i] <= '~' && text[i] != '"' && text[i]
            != '\'' && text[i] != '\\'
}

/// A text as `Debug` shows it: in double quotes, with the characters that need
/// it escaped. A plain text needs no escapes.
pub open spec fn quoted(text: Seq<char>) -> Seq<char> {
    if plain_text(text) {
        seq!['"'] + text + seq!['"']
    } else {
        escaped(text)
    }
}

/// `format!("{:?}", text)` of `std`. Claimed: a plain text comes out between two
/// double quotes, and any other as [`escaped`] of the text, so that the outcome
/// depends on the text alone.
#[verifier::external_body]
pub(crate) fn quote(text: &str) -> (shown: String)
    ensures
        plain_text(text@) ==> shown@ == seq!['"'] + text@ + seq!['"'],
        !plain_text(text@) ==> shown@ == escaped(text@),
{
    format!("{:?}", text)
}

/// The decimal digits of a number.
pub open spec fn decimal(n: nat) -> Seq<char>
    decreases n,
{
    let digit = ('0' as u32 + n % 10) as char;
    if n < 10 {
        seq![digit]
    } else {
        decimal(n / 10).push(digit)
    }
}

/// The two texts, one after the other.
pub(crate) fn join2(first: &str, second: &str) -> (text: String)
    ensures
        text@ == first@ + second@,
{
    let mut text = first.to_owned();
    text.append(second);
    text
}

/// The four texts, one after the other.
pub(crate) fn join4(first: &str, second: &str, third: &str, fourth: &str) -> (text: String)
    ensures
        text@ == first@ + second@ + third@ + fourth@,
{
    let mut text = first.to_owned();
    text.append(second);
    text.append(third);
    text.append(fourth);
    text
}

/// A failure that concerns a chain: what failed, the quoted name of the chain,
/// and the detail.
pub open spec fn chain_failure(what: Seq<char>, chain: Seq<char>, detail: Seq<char>) -> ErrorView {
    ErrorView::Custom(what + quoted(chain) + " with error "@ + detail)
}

/// The error that [`chain_failure`] describes.
pub(crate) fn fail_for_chain(what: &str, chain: &str, detail: &str) -> (error: Error)
    ensures
        error@ == chain_failure(what@, chain@, detail@),
{
    Error::from(join4(what, quote(chain).as_str(), " with error ", detail))
}

/// A text becomes an error that holds the text.
pub proof fn text_becomes_an_error(text: String, error: Error)
    requires
        call_ensures(<Error as From<String>>::from, (text,), error),
    ensures
        error == Error::Custom(text),
{
}

/// A text of printable ASCII characters other than quotes and the backslash is
/// shown between double quotes as it is, so that two such texts that differ are
/// shown differently.
pub proof fn plain_text_is_quoted_as_it_is(first: Seq<char>, second: Seq<char>)
    requires
        forall|i: int|
            0 <= i < first.len() ==> ' ' <= #[trigger] first[i] <= '~' && first[i] != '"'
                && first[i] != '\'' && first[i] != '\\',
        forall|i: int|
            0 <= i < second.len() ==> ' ' <= #[trigger] second[i] <= '~' && second[i] != '"'
                && second[i] != '\'' && second[i] != '\\',
    ensures
        quoted(first) == seq!['"'] + first + seq!['"'],
        quoted(first) == quoted(second) ==> first == second,
{
    assert(quoted(first).subrange(1, quoted(first).len() - 1) =~= first);
    assert(quoted(second).subrange(1, quoted(second).len() - 1) =~= second);
}

} // verus!

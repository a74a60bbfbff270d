//! Identifiers of the chain, of IBC clients, connections, channels and ports,
//! and the prefix of the store that holds commitments.

use crate::error::{decimal, quoted};
use std::str::FromStr;
use vstd::prelude::*;

verus! {

/// The answer of `char::is_alphanumeric` for a character outside ASCII, which
/// the Unicode tables of `std` decide.
pub uninterp spec fn unicode_alphanumeric(c: char) -> bool;

/// A decimal digit.
pub open spec fn is_digit(c: char) -> bool {
    '0' <= c <= '9'
}

/// A character that an identifier may hold, where `alphanumeric` tells this of
/// one outside ASCII.
pub open spec fn allowed_char(c: char, alphanumeric: bool) -> bool {
    if c as u32 <= 127 {
        ||| is_digit(c)
        ||| 'a' <= c <= 'z'
        ||| 'A' <= c <= 'Z'
        ||| c == '.' || c == '_' || c == '+' || c == '-' || c == '#'
        ||| c == '[' || c == ']' || c == '<' || c == '>'
    } else {
        alphanumeric
    }
}

/// An identifier of `min` to `max` bytes, made of the characters that are
/// allowed.
pub open spec fn valid_identifier(id: Seq<char>, min: nat, max: nat) -> bool {
    &&& min <= vstd::utf8::encode_utf8(id).len() <= max
    &&& forall|i: int|
        0 <= i < id.len() ==> allowed_char(#[trigger] id[i], unicode_alphanumeric(id[i]))
}

/// What is wrong with an identifier that is not valid, as Debug shows it: that it
/// is empty, else that it holds the path separator, else its length, else that
/// one of its characters is not allowed.
pub open spec fn identifier_error(id: Seq<char>, min: nat, max: nat) -> Seq<char> {
    let length = vstd::utf8::encode_utf8(id).len();
    if id.len() == 0 {
        "Empty"@
    } else if id.contains('/') {
        "ContainSeparator { id: "@ + quoted(id) + " }"@
    } else if length < min || length > max {
        "InvalidLength { id: "@ + quoted(id) + ", length: "@ + decimal(length) + ", min: "@
            + decimal(min) + ", max: "@ + decimal(max) + " }"@
    } else {
        "InvalidCharacter { id: "@ + quoted(id) + " }"@
    }
}

/// A client identifier: 9 to 64 bytes.
pub open spec fn valid_client_id(id: Seq<char>) -> bool {
    valid_identifier(id, 9, 64)
}

/// A connection identifier: 10 to 64 bytes.
pub open spec fn valid_connection_id(id: Seq<char>) -> bool {
    valid_identifier(id, 10, 64)
}

/// What is wrong with a client identifier that is not valid.
pub open spec fn client_id_error(id: Seq<char>) -> Seq<char> {
    identifier_error(id, 9, 64)
}

/// What is wrong with a connection identifier that is not valid.
pub open spec fn connection_id_error(id: Seq<char>) -> Seq<char> {
    identifier_error(id, 10, 64)
}

/// The number that a sequence of decimal digits writes.
pub open spec fn decimal_value(digits: Seq<char>) -> nat
    decreases digits.len(),
{
    if digits.len() == 0 {
        0
    } else {
        decimal_value(digits.drop_last()) * 10 + (digits.last() as u32 - '0' as u32) as nat
    }
}

/// `id` ends with a dash at `dash` and a revision number behind it: a number
/// without a leading zero, where something other than a dash stands before
/// the dash.
pub open spec fn revision_dash(id: Seq<char>, dash: int) -> bool {
    &&& 0 < dash < id.len() - 1
    &&& id[dash] == '-'
    &&& id[dash - 1] != '-'
    &&& id[dash + 1] != '0'
    &&& forall|j: int| dash < j < id.len() ==> is_digit(#[trigger] id[j])
}

/// The revision number of a chain identifier: the number behind its revision
/// dash, and 0 where there is no such dash or the number exceeds 64 bits.
pub open spec fn chain_version(id: Seq<char>) -> nat {
    if exists|dash: int| revision_dash(id, dash) {
        let dash = choose|dash: int| revision_dash(id, dash);
        let number = decimal_value(id.skip(dash + 1));
        if number <= u64::MAX {
            number
        } else {
            0
        }
    } else {
        0
    }
}

/// The identifier of a chain with its revision number.
#[derive(Debug)]
pub struct ChainId {
    id: String,
    version: u64,
}

/// The mathematical value of a [`ChainId`].
pub struct ChainIdView {
    pub id: Seq<char>,
    pub version: nat,
}

impl View for ChainId {
    type V = ChainIdView;

    closed spec fn view(&self) -> ChainIdView {
        ChainIdView { id: self.id@, version: self.version as nat }
    }
}

/// The chain identifier that a text stands for.
pub open spec fn chain_id_of(id: Seq<char>) -> ChainIdView {
    ChainIdView { id, version: chain_version(id) }
}

/// `ChainId::from` of `ibc`, its text and its version. Claimed: the text is the
/// one that was given, and the version is the number behind the last dash where
/// the whole text matches `.*[^-]-[1-9][0-9]*` and the number fits 64 bits, and
/// 0 otherwise.
#[verifier::external_body]
fn ibc_chain_id(id: &str) -> (chain: (String, u64))
    ensures
        chain.0@ == id@,
        chain.1 == chain_version(id@),
{
    let chain = ibc::core::ics24_host::identifier::ChainId::from(id.to_owned());
    (chain.as_str().to_owned(), chain.version())
}

/// `ClientId::from_str` of `ibc`, with its error shown by Debug. Claimed: it
/// accepts exactly the texts of 9 to 64 bytes that consist of alphanumeric
/// characters and of `.`, `_`, `+`, `-`, `#`, `[`, `]`, `<`, `>`, hands the text
/// back, and its error is the first that applies of: no character, a separator,
/// a wrong length, a wrong character.
#[verifier::external_body]
fn ibc_client_id(id: &str) -> (parsed: Result<String, String>)
    ensures
        parsed is Ok <==> (9 <= vstd::utf8::encode_utf8(id@).len() <= 64 && forall|i: int|
            0 <= i < id@.len() ==> allowed_char(#[trigger] id@[i], unicode_alphanumeric(id@[i]))),
        parsed matches Ok(text) ==> text@ == id@,
        parsed matches Err(error) ==> error@ == identifier_error(id@, 9, 64),
{
    match ibc::core::ics24_host::identifier::ClientId::from_str(id) {
        Ok(client) => Ok(client.as_str().to_owned()),
        Err(error) => Err(format!("{:?}", error)),
    }
}

/// `ConnectionId::from_str` of `ibc`, with its error shown by Debug. Claimed:
/// as for client identifiers, with 10 to 64 bytes.
#[verifier::external_body]
fn ibc_connection_id(id: &str) -> (parsed: Result<String, String>)
    ensures
        parsed is Ok <==> (10 <= vstd::utf8::encode_utf8(id@).len() <= 64 && forall|i: int|
            0 <= i < id@.len() ==> allowed_char(#[trigger] id@[i], unicode_alphanumeric(id@[i]))),
        parsed matches Ok(text) ==> text@ == id@,
        parsed matches Err(error) ==> error@ == identifier_error(id@, 10, 64),
{
    match ibc::core::ics24_host::identifier::ConnectionId::from_str(id) {
        Ok(connection) => Ok(connection.as_str().to_owned()),
        Err(error) => Err(format!("{:?}", error)),
    }
}

/// `CommitmentPrefix::try_from` of `ibc` for bytes, with its error shown by
/// Debug. Claimed: it refuses no bytes but the empty sequence, keeps the others
/// as they are, and its error is the variant `EmptyCommitmentPrefix`.
#[verifier::external_body]
fn ibc_commitment_prefix(bytes: Vec<u8>) -> (parsed: Result<Vec<u8>, String>)
    ensures
        match parsed {
            Ok(kept) => bytes@.len() > 0 && kept@ == bytes@,
            Err(error) => bytes@.len() == 0 && error@ == "EmptyCommitmentPrefix"@,
        },
{
    match ibc::core::ics23_commitment::commitment::CommitmentPrefix::try_from(bytes) {
        Ok(prefix) => Ok(prefix.into_vec()),
        Err(error) => Err(format!("{:?}", error)),
    }
}

impl ChainId {
    #[verifier::type_invariant]
    spec fn versioned(self) -> bool {
        self.version == chain_version(self.id@)
    }

    /// The chain identifier that `id` stands for.
    pub fn parse(id: &str) -> (chain: ChainId)
        ensures
            chain@ == chain_id_of(id@),
    {
        let (id, version) = ibc_chain_id(id);
        ChainId { id, version }
    }

    /// The identifier as it was given.
    pub fn as_str(&self) -> (id: &str)
        ensures
            self@ == chain_id_of(id@),
    {
        proof {
            use_type_invariant(self);
        }
        self.id.as_str()
    }

    /// The revision number of the chain.
    pub fn version(&self) -> (version: u64)
        ensures
            version == self@.version,
            self@ == chain_id_of(self@.id),
    {
        proof {
            use_type_invariant(self);
        }
        self.version
    }
}

impl Clone for ChainId {
    fn clone(&self) -> (copy: Self)
        ensures
            copy == *self,
    {
        proof {
            use_type_invariant(self);
        }
        ChainId { id: self.id.clone(), version: self.version }
    }
}

/// The identifier of a light client.
#[derive(Debug)]
pub struct ClientId {
    id: String,
}

impl View for ClientId {
    type V = Seq<char>;

    closed spec fn view(&self) -> Seq<char> {
        self.id@
    }
}

impl ClientId {
    #[verifier::type_invariant]
    spec fn valid(self) -> bool {
        valid_client_id(self.id@)
    }

    /// The identifier as text.
    pub fn as_str(&self) -> (id: &str)
        ensures
            id@ == self@,
            valid_client_id(id@),
    {
        proof {
            use_type_invariant(self);
        }
        self.id.as_str()
    }

    /// The client identifier that `id` writes; the Debug text of what is wrong
    /// with it where it writes none.
    pub fn parse(id: &str) -> (parsed: Result<ClientId, String>)
        ensures
            match parsed {
                Ok(client) => valid_client_id(id@) && client@ == id@,
                Err(error) => !valid_client_id(id@) && error@ == client_id_error(id@),
            },
    {
        match ibc_client_id(id) {
            Ok(text) => Ok(ClientId { id: text }),
            Err(error) => Err(error),
        }
    }
}

impl Clone for ClientId {
    fn clone(&self) -> (copy: Self)
        ensures
            copy == *self,
    {
        proof {
            use_type_invariant(self);
        }
        ClientId { id: self.id.clone() }
    }
}

/// The identifier of a connection.
#[derive(Debug)]
pub struct ConnectionId {
    id: String,
}

impl View for ConnectionId {
    type V = Seq<char>;

    closed spec fn view(&self) -> Seq<char> {
        self.id@
    }
}

impl ConnectionId {
    #[verifier::type_invariant]
    spec fn valid(self) -> bool {
        valid_connection_id(self.id@)
    }

    /// The identifier as text.
    pub fn as_str(&self) -> (id: &str)
        ensures
            id@ == self@,
            valid_connection_id(id@),
    {
        proof {
            use_type_invariant(self);
        }
        self.id.as_str()
    }

    /// The connection identifier that `id` writes; the Debug text of what is
    /// wrong with it where it writes none.
    pub fn parse(id: &str) -> (parsed: Result<ConnectionId, String>)
        ensures
            match parsed {
                Ok(connection) => valid_connection_id(id@) && connection@ == id@,
                Err(error) => !valid_connection_id(id@) && error@ == connection_id_error(id@),
            },
    {
        match ibc_connection_id(id) {
            Ok(text) => Ok(ConnectionId { id: text }),
            Err(error) => Err(error),
        }
    }
}

impl Clone for ConnectionId {
    fn clone(&self) -> (copy: Self)
        ensures
            copy == *self,
    {
        proof {
            use_type_invariant(self);
        }
        ConnectionId { id: self.id.clone() }
    }
}

/// The identifier of a channel.
#[derive(Debug)]
pub struct ChannelId {
    pub id: String,
}

impl View for ChannelId {
    type V = Seq<char>;

    open spec fn view(&self) -> Seq<char> {
        self.id@
    }
}

impl Clone for ChannelId {
    fn clone(&self) -> (copy: Self)
        ensures
            copy == *self,
    {
        ChannelId { id: self.id.clone() }
    }
}

/// The identifier of a port.
#[derive(Debug)]
pub struct PortId {
    pub id: String,
}

impl View for PortId {
    type V = Seq<char>;

    open spec fn view(&self) -> Seq<char> {
        self.id@
    }
}

impl Clone for PortId {
    fn clone(&self) -> (copy: Self)
        ensures
            copy == *self,
    {
        PortId { id: self.id.clone() }
    }
}

/// The prefix of the store paths under which commitments are kept.
#[derive(Debug)]
pub struct CommitmentPrefix {
    bytes: Vec<u8>,
}

impl Clone for CommitmentPrefix {
    fn clone(&self) -> (copy: Self)
        ensures
            copy@ == self@,
    {
        proof {
            use_type_invariant(self);
        }
        let bytes = self.bytes.clone();
        assert(bytes@ =~= self.bytes@);
        CommitmentPrefix { bytes }
    }
}

impl View for CommitmentPrefix {
    type V = Seq<u8>;

    closed spec fn view(&self) -> Seq<u8> {
        self.bytes@
    }
}

impl CommitmentPrefix {
    #[verifier::type_invariant]
    spec fn not_empty(self) -> bool {
        self.bytes@.len() > 0
    }

    /// The bytes of the prefix, of which there is at least one.
    pub fn as_bytes(&self) -> (bytes: &[u8])
        ensures
            bytes@ == self@,
            bytes@.len() > 0,
    {
        proof {
            use_type_invariant(self);
        }
        self.bytes.as_slice()
    }

    /// The prefix made of the UTF-8 bytes of `prefix`; the Debug text of the
    /// refusal where that is empty.
    pub fn parse(prefix: &str) -> (parsed: Result<CommitmentPrefix, String>)
        ensures
            match parsed {
                Ok(kept) => prefix@.len() > 0 && kept@ == vstd::utf8::encode_utf8(prefix@),
                Err(error) => prefix@.len() == 0 && error@ == "EmptyCommitmentPrefix"@,
            },
    {
        let bytes: Vec<u8> = vstd::slice::slice_to_vec(prefix.as_bytes());
        proof {
            lemma_encoding_empty(prefix@);
        }
        match ibc_commitment_prefix(bytes) {
            Ok(kept) => Ok(CommitmentPrefix { bytes: kept }),
            Err(error) => Err(error),
        }
    }
}

/// Only the empty text is encoded in no bytes.
proof fn lemma_encoding_empty(text: Seq<char>)
    ensures
        (vstd::utf8::encode_utf8(text).len() == 0) == (text.len() == 0),
{
    if text.len() > 0 {
        assert(vstd::utf8::encode_scalar(text[0] as u32).len() > 0);
    }
}

/// The revision dash of a chain identifier stands in one place only, and the
/// number behind it is the version.
pub proof fn chain_version_is_behind_the_dash(id: Seq<char>, dash: int)
    requires
        revision_dash(id, dash),
    ensures
        decimal_value(id.skip(dash + 1)) <= u64::MAX ==> chain_version(id) == decimal_value(
            id.skip(dash + 1),
        ),
        decimal_value(id.skip(dash + 1)) > u64::MAX ==> chain_version(id) == 0,
        forall|other: int| revision_dash(id, other) ==> other == dash,
{
    assert forall|other: int| revision_dash(id, other) implies other == dash by {
        if other < dash {
            assert(is_digit(id[dash]));
        } else if dash < other {
            assert(is_digit(id[other]));
        }
    }
}

/// An identifier without a digit at its end has version 0.
pub proof fn chain_version_needs_a_number(id: Seq<char>)
    requires
        id.len() == 0 || !is_digit(id.last()),
    ensures
        chain_version(id) == 0,
{
    assert forall|dash: int| !revision_dash(id, dash) by {
        if revision_dash(id, dash) {
            assert(is_digit(id[id.len() - 1]));
        }
    }
}

/// A connection identifier would do as a client identifier.
pub proof fn connection_id_is_client_id(id: Seq<char>)
    requires
        valid_connection_id(id),
    ensures
        valid_client_id(id),
{
}

/// A client identifier is read exactly from a text of 9 to 64 bytes made of allowed
/// characters, and is that text; else the error is the first that applies.
pub proof fn client_id_is_read_exactly_when(id: &str, parsed: Result<ClientId, String>)
    requires
        call_ensures(ClientId::parse, (id,), parsed),
    ensures
        parsed is Ok <==> (9 <= vstd::utf8::encode_utf8(id@).len() <= 64 && forall|i: int|
            0 <= i < id@.len() ==> ({
            let c = #[trigger] id@[i];
            if c as u32 <= 127 {
                ||| '0' <= c <= '9'
                ||| 'a' <= c <= 'z'
                ||| 'A' <= c <= 'Z'
                ||| c == '.' || c == '_' || c == '+' || c == '-' || c == '#'
                ||| c == '[' || c == ']' || c == '<' || c == '>'
            } else {
                unicode_alphanumeric(c)
            }
        })),
        parsed matches Ok(kept) ==> kept@ == id@,
        parsed matches Err(error) ==> ({
            let length = vstd::utf8::encode_utf8(id@).len();
            if id@.len() == 0 {
                error@ == "Empty"@
            } else if id@.contains('/') {
                error@ == "ContainSeparator { id: "@ + quoted(id@) + " }"@
            } else if length < 9 || length > 64 {
                error@ == "InvalidLength { id: "@ + quoted(id@) + ", length: "@ + decimal(length)
                    + ", min: "@ + decimal(9) + ", max: "@ + decimal(64) + " }"@
            } else {
                error@ == "InvalidCharacter { id: "@ + quoted(id@) + " }"@
            }
        }),
{
}

/// A connection identifier is read exactly from a text of 10 to 64 bytes made of
/// allowed characters, and is that text; else the error is the first that applies.
pub proof fn connection_id_is_read_exactly_when(id: &str, parsed: Result<ConnectionId, String>)
    requires
        call_ensures(ConnectionId::parse, (id,), parsed),
    ensures
        parsed is Ok <==> (10 <= vstd::utf8::encode_utf8(id@).len() <= 64 && forall|i: int|
            0 <= i < id@.len() ==> ({
            let c = #[trigger] id@[i];
            if c as u32 <= 127 {
                ||| '0' <= c <= '9'
                ||| 'a' <= c <= 'z'
                ||| 'A' <= c <= 'Z'
                ||| c == '.' || c == '_' || c == '+' || c == '-' || c == '#'
                ||| c == '[' || c == ']' || c == '<' || c == '>'
            } else {
                unicode_alphanumeric(c)
            }
        })),
        parsed matches Ok(kept) ==> kept@ == id@,
        parsed matches Err(error) ==> ({
            let length = vstd::utf8::encode_utf8(id@).len();
            if id@.len() == 0 {
                error@ == "Empty"@
            } else if id@.contains('/') {
                error@ == "ContainSeparator { id: "@ + quoted(id@) + " }"@
            } else if length < 10 || length > 64 {
                error@ == "InvalidLength { id: "@ + quoted(id@) + ", length: "@ + decimal(length)
                    + ", min: "@ + decimal(10) + ", max: "@ + decimal(64) + " }"@
            } else {
                error@ == "InvalidCharacter { id: "@ + quoted(id@) + " }"@
            }
        }),
{
}

/// A client identifier that was read shows the text that it was read from.
pub proof fn client_id_shows_its_text(
    id: &str,
    parsed: ClientId,
    shown: &str,
)
    requires
        call_ensures(ClientId::parse, (id,), Ok::<ClientId, String>(parsed)),
        call_ensures(ClientId::as_str, (&parsed,), shown),
    ensures
        shown@ == id@,
        9 <= vstd::utf8::encode_utf8(shown@).len() <= 64,
{
}

/// A connection identifier that was read shows the text that it was read from.
pub proof fn connection_id_shows_its_text(
    id: &str,
    parsed: ConnectionId,
    shown: &str,
)
    requires
        call_ensures(ConnectionId::parse, (id,), Ok::<ConnectionId, String>(parsed)),
        call_ensures(ConnectionId::as_str, (&parsed,), shown),
    ensures
        shown@ == id@,
        10 <= vstd::utf8::encode_utf8(shown@).len() <= 64,
{
}

/// A chain identifier shows the text that it was read from, and its version is
/// the revision number of that text.
pub proof fn chain_id_shows_its_text(id: &str, chain: ChainId, shown: &str, version: u64)
    requires
        call_ensures(ChainId::parse, (id,), chain),
        call_ensures(ChainId::as_str, (&chain,), shown),
        call_ensures(ChainId::version, (&chain,), version),
    ensures
        shown@ == id@,
        version == chain_version(id@),
        chain@.id == id@,
        chain@.version == chain_version(id@),
{
}

/// A commitment prefix is read from every text but the empty one, and has the
/// UTF-8 bytes of the text.
pub proof fn commitment_prefix_has_the_bytes_of_its_text(
    prefix: &str,
    parsed: Result<CommitmentPrefix, String>,
    bytes: &[u8],
)
    requires
        call_ensures(CommitmentPrefix::parse, (prefix,), parsed),
        parsed matches Ok(kept) ==> call_ensures(CommitmentPrefix::as_bytes, (&kept,), bytes),
    ensures
        parsed is Ok <==> prefix@.len() > 0,
        parsed matches Ok(kept) ==> bytes@ == vstd::utf8::encode_utf8(prefix@) && kept@ == bytes@,
        parsed matches Err(error) ==> error@ == "EmptyCommitmentPrefix"@,
{
}

/// A chain identifier has a version other than 0 only where it ends with a dash
/// and a number behind it; the number has no leading zero, and the dash is neither
/// the first character nor behind another dash.
pub proof fn chain_version_tells_of_a_dash(id: Seq<char>)
    requires
        chain_version(id) != 0,
    ensures
        exists|dash: int|
            {
                &&& 0 < dash < id.len() - 1
                &&& #[trigger] id[dash] == '-'
                &&& id[dash - 1] != '-'
                &&& '1' <= id[dash + 1] <= '9'
                &&& forall|j: int| dash < j < id.len() ==> '0' <= #[trigger] id[j] <= '9'
                &&& chain_version(id) == decimal_value(id.skip(dash + 1))
            },
{
    let dash = choose|dash: int| revision_dash(id, dash);
    assert(is_digit(id[dash + 1]));
    assert(id[dash] == '-');
}

/// A number behind a dash at the end of a chain identifier is its version, where
/// the number has no leading zero and fits 64 bits, and the dash is neither the
/// first character nor behind another dash.
pub proof fn chain_version_is_the_number_at_the_end(id: Seq<char>, dash: int)
    requires
        0 < dash < id.len() - 1,
        id[dash] == '-',
        id[dash - 1] != '-',
        id[dash + 1] != '0',
        forall|j: int| dash < j < id.len() ==> '0' <= #[trigger] id[j] <= '9',
    ensures
        chain_version(id) == (if decimal_value(id.skip(dash + 1)) <= u64::MAX {
            decimal_value(id.skip(dash + 1))
        } else {
            0
        }),
{
    assert(revision_dash(id, dash));
    chain_version_is_behind_the_dash(id, dash);
}

/// A digit behind a number makes ten times the number, plus the digit.
pub proof fn digits_are_decimal(digits: Seq<char>, digit: char)
    requires
        '0' <= digit <= '9',
    ensures
        decimal_value(Seq::empty()) == 0,
        decimal_value(digits.push(digit)) == 10 * decimal_value(digits) + (digit as u32
            - '0' as u32),
{
    assert(digits.push(digit).drop_last() =~= digits);
}

/// The digits of a number write that number, without a leading zero.
pub proof fn digits_write_the_number(n: nat)
    ensures
        decimal_value(decimal(n)) == n,
        decimal(n).len() > 0,
        forall|i: int| 0 <= i < decimal(n).len() ==> '0' <= #[trigger] decimal(n)[i] <= '9',
        n > 0 ==> decimal(n)[0] != '0',
    decreases n,
{
    let digit = ('0' as u32 + n % 10) as char;
    assert('0' <= digit <= '9' && digit as u32 - '0' as u32 == n % 10);
    if n < 10 {
        digits_are_decimal(Seq::empty(), digit);
        assert(decimal(n) =~= Seq::empty().push(digit));
    } else {
        digits_write_the_number(n / 10);
        digits_are_decimal(decimal(n / 10), digit);
    }
}

/// A copy of a commitment prefix has the same bytes.
pub proof fn copied_prefix_has_the_same_bytes(
    prefix: &CommitmentPrefix,
    copy: CommitmentPrefix,
    bytes: &[u8],
    copied: &[u8],
)
    requires
        call_ensures(<CommitmentPrefix as Clone>::clone, (prefix,), copy),
        call_ensures(CommitmentPrefix::as_bytes, (prefix,), bytes),
        call_ensures(CommitmentPrefix::as_bytes, (&copy,), copied),
    ensures
        copied@ == bytes@,
{
}

} // verus!

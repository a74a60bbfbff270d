//! The key that signs transactions, as the configuration writes it and as the
//! client uses it.

use std::str::FromStr;
use vstd::prelude::*;

verus! {

/// A key as the configuration holds it.
#[derive(Debug)]
pub struct ConfigKeyEntry {
    /// The extended public key in Base58.
    pub public_key: String,
    /// The extended private key in Base58.
    pub private_key: String,
    /// The account that the key signs for.
    pub account: String,
    /// The address of the account in bytes.
    pub address: Vec<u8>,
}

/// The mathematical value of a [`ConfigKeyEntry`].
pub struct ConfigKeyEntryView {
    pub public_key: Seq<char>,
    pub private_key: Seq<char>,
    pub account: Seq<char>,
    pub address: Seq<u8>,
}

impl View for ConfigKeyEntry {
    type V = ConfigKeyEntryView;

    open spec fn view(&self) -> ConfigKeyEntryView {
        ConfigKeyEntryView {
            public_key: self.public_key@,
            private_key: self.private_key@,
            account: self.account@,
            address: self.address@,
        }
    }
}

impl Clone for ConfigKeyEntry {
    fn clone(&self) -> (copy: Self)
        ensures
            copy@ == self@,
    {
        ConfigKeyEntry {
            public_key: self.public_key.clone(),
            private_key: self.private_key.clone(),
            account: self.account.clone(),
            address: self.address.clone(),
        }
    }
}

/// An extended key: the key itself with its place in the derivation tree.
pub struct ExtendedKey {
    /// Steps from the root of the tree.
    pub depth: u8,
    /// The fingerprint of the parent key.
    pub parent_fingerprint: Vec<u8>,
    /// The number of this child; the highest bit marks a hardened one.
    pub child_number: u32,
    /// The chain code.
    pub chain_code: Vec<u8>,
    /// The key: 33 bytes for a public one, 32 for a private one.
    pub key: Vec<u8>,
}

/// The mathematical value of an [`ExtendedKey`].
pub struct ExtendedKeyView {
    pub depth: u8,
    pub parent_fingerprint: Seq<u8>,
    pub child_number: u32,
    pub chain_code: Seq<u8>,
    pub key: Seq<u8>,
}

impl View for ExtendedKey {
    type V = ExtendedKeyView;

    open spec fn view(&self) -> ExtendedKeyView {
        ExtendedKeyView {
            depth: self.depth,
            parent_fingerprint: self.parent_fingerprint@,
            child_number: self.child_number,
            chain_code: self.chain_code@,
            key: self.key@,
        }
    }
}

impl Clone for ExtendedKey {
    fn clone(&self) -> (copy: Self)
        ensures
            copy@ == self@,
    {
        ExtendedKey {
            depth: self.depth,
            parent_fingerprint: self.parent_fingerprint.clone(),
            child_number: self.child_number,
            chain_code: self.chain_code.clone(),
            key: self.key.clone(),
        }
    }
}

/// Why a text is no extended key.
#[derive(Debug)]
pub struct KeyError {
    pub message: String,
}

impl View for KeyError {
    type V = Seq<char>;

    open spec fn view(&self) -> Seq<char> {
        self.message@
    }
}

/// The mathematical value of a parsed key: the key, or the text of the error.
pub open spec fn parsed_key(parsed: Result<ExtendedKey, KeyError>) -> Result<ExtendedKeyView, Seq<char>> {
    match parsed {
        Ok(key) => Ok(key@),
        Err(error) => Err(error@),
    }
}

/// What `bip32` reads from a text as an extended secp256k1 public key: the key,
/// or the text of the error.
pub uninterp spec fn public_key_of(text: Seq<char>) -> Result<ExtendedKeyView, Seq<char>>;

/// What `bip32` reads from a text as an extended secp256k1 private key: the
/// key, or the text of the error.
pub uninterp spec fn private_key_of(text: Seq<char>) -> Result<ExtendedKeyView, Seq<char>>;

/// `XPub::from_str` of `bip32`, the key taken apart and the error shown as
/// text. Claimed: the outcome is [`public_key_of`] of the text, so it depends on
/// the text alone; a key has 33 bytes, its chain code 32 and the fingerprint of
/// its parent 4.
#[verifier::external_body]
fn bip32_public_key(text: &str) -> (parsed: Result<ExtendedKey, KeyError>)
    ensures
        parsed_key(parsed) == public_key_of(text@),
        parsed matches Ok(key) ==> key.key@.len() == 33 && key.chain_code@.len() == 32
            && key.parent_fingerprint@.len() == 4,
{
    match bip32::XPub::from_str(text) {
        Ok(key) => Ok(ExtendedKey {
            depth: key.attrs().depth,
            parent_fingerprint: key.attrs().parent_fingerprint.to_vec(),
            child_number: key.attrs().child_number.0,
            chain_code: key.attrs().chain_code.to_vec(),
            key: key.to_bytes().to_vec(),
        }),
        Err(error) => Err(KeyError { message: error.to_string() }),
    }
}

/// `XPrv::from_str` of `bip32`, the key taken apart and the error shown as
/// text. Claimed: the outcome is [`private_key_of`] of the text, so it depends
/// on the text alone; a key has 32 bytes, its chain code 32 and the fingerprint
/// of its parent 4.
#[verifier::external_body]
fn bip32_private_key(text: &str) -> (parsed: Result<ExtendedKey, KeyError>)
    ensures
        parsed_key(parsed) == private_key_of(text@),
        parsed matches Ok(key) ==> key.key@.len() == 32 && key.chain_code@.len() == 32
            && key.parent_fingerprint@.len() == 4,
{
    match bip32::XPrv::from_str(text) {
        Ok(key) => Ok(ExtendedKey {
            depth: key.attrs().depth,
            parent_fingerprint: key.attrs().parent_fingerprint.to_vec(),
            child_number: key.attrs().child_number.0,
            chain_code: key.attrs().chain_code.to_vec(),
            key: key.to_bytes().to_vec(),
        }),
        Err(error) => Err(KeyError { message: error.to_string() }),
    }
}

/// The key that signs transactions, with its account.
pub struct KeyEntry {
    pub public_key: ExtendedKey,
    pub private_key: ExtendedKey,
    pub account: String,
    pub address: Vec<u8>,
}

/// The mathematical value of a [`KeyEntry`].
pub struct KeyEntryView {
    pub public_key: ExtendedKeyView,
    pub private_key: ExtendedKeyView,
    pub account: Seq<char>,
    pub address: Seq<u8>,
}

impl View for KeyEntry {
    type V = KeyEntryView;

    open spec fn view(&self) -> KeyEntryView {
        KeyEntryView {
            public_key: self.public_key@,
            private_key: self.private_key@,
            account: self.account@,
            address: self.address@,
        }
    }
}

impl Clone for KeyEntry {
    fn clone(&self) -> (copy: Self)
        ensures
            copy@ == self@,
    {
        KeyEntry {
            public_key: self.public_key.clone(),
            private_key: self.private_key.clone(),
            account: self.account.clone(),
            address: self.address.clone(),
        }
    }
}

/// The mathematical value of a key entry that may have been refused.
pub open spec fn key_outcome(entry: Result<KeyEntry, KeyError>) -> Result<KeyEntryView, Seq<char>> {
    match entry {
        Ok(entry) => Ok(entry@),
        Err(error) => Err(error@),
    }
}

/// The entry made of two parsed keys, an account and an address: refused with
/// the error of the public key, else with that of the private key.
pub open spec fn key_entry_from(
    public_key: Result<ExtendedKeyView, Seq<char>>,
    private_key: Result<ExtendedKeyView, Seq<char>>,
    account: Seq<char>,
    address: Seq<u8>,
) -> Result<KeyEntryView, Seq<char>> {
    match (public_key, private_key) {
        (Err(error), _) => Err(error),
        (Ok(_), Err(error)) => Err(error),
        (Ok(public_key), Ok(private_key)) => Ok(
            KeyEntryView { public_key, private_key, account, address },
        ),
    }
}

/// The entry that a configured key stands for.
pub open spec fn key_entry_of(config: ConfigKeyEntryView) -> Result<KeyEntryView, Seq<char>> {
    key_entry_from(
        public_key_of(config.public_key),
        private_key_of(config.private_key),
        config.account,
        config.address,
    )
}

/// The sizes of the keys that can be read: 33 bytes for the public key and 32
/// for the private key, and for both 32 bytes of chain code and 4 of the parent's
/// fingerprint.
pub open spec fn sized_keys(entry: KeyEntryView) -> bool {
    &&& entry.public_key.key.len() == 33
    &&& entry.public_key.chain_code.len() == 32
    &&& entry.public_key.parent_fingerprint.len() == 4
    &&& entry.private_key.key.len() == 32
    &&& entry.private_key.chain_code.len() == 32
    &&& entry.private_key.parent_fingerprint.len() == 4
}

impl KeyEntry {
    /// Puts two parsed keys together with their account and address.
    pub fn from_parsed(
        public_key: Result<ExtendedKey, KeyError>,
        private_key: Result<ExtendedKey, KeyError>,
        account: String,
        address: Vec<u8>,
    ) -> (entry: Result<KeyEntry, KeyError>)
        ensures
            key_outcome(entry) == key_entry_from(
                parsed_key(public_key),
                parsed_key(private_key),
                account@,
                address@,
            ),
    {
        match public_key {
            Err(error) => Err(error),
            Ok(public_key) => match private_key {
                Err(error) => Err(error),
                Ok(private_key) => Ok(KeyEntry { public_key, private_key, account, address }),
            },
        }
    }
}

impl TryFrom<ConfigKeyEntry> for KeyEntry {
    type Error = KeyError;

    /// Reads both keys of a configured key. The error is that of the public
    /// key where it is no key, else that of the private key.
    fn try_from(value: ConfigKeyEntry) -> (entry: Result<Self, Self::Error>)
        ensures
            key_outcome(entry) == key_entry_of(value@),
            entry matches Ok(entry) ==> sized_keys(entry@),
    {
        let public_key = bip32_public_key(value.public_key.as_str());
        let private_key = bip32_private_key(value.private_key.as_str());
        KeyEntry::from_parsed(public_key, private_key, value.account, value.address)
    }
}

/// What `try_from` gives is stated over views, in its own contract.
impl vstd::std_specs::convert::TryFromSpecImpl<ConfigKeyEntry> for KeyEntry {
    open spec fn obeys_try_from_spec() -> bool {
        false
    }

    open spec fn try_from_spec(value: ConfigKeyEntry) -> Result<Self, Self::Error> {
        arbitrary()
    }
}

/// A configured key is read exactly where both of its texts are keys, and keeps
/// its account and its address.
pub proof fn key_is_read_exactly_when(config: ConfigKeyEntryView)
    ensures
        key_entry_of(config) is Ok <==> public_key_of(config.public_key) is Ok && private_key_of(
            config.private_key,
        ) is Ok,
        key_entry_of(config) matches Ok(entry) ==> entry.account == config.account && entry.address
            == config.address,
{
}

/// A configured key is read exactly where both of its texts are keys; the keys of
/// the entry are then the keys read, in every field, beside the configured account
/// and address. Else the error is that of the public key, or where that one is
/// read, that of the private key.
pub proof fn entry_holds_the_keys_read(
    config: ConfigKeyEntry,
    entry: Result<KeyEntry, KeyError>,
)
    requires
        call_ensures(<KeyEntry as TryFrom<ConfigKeyEntry>>::try_from, (config,), entry),
    ensures
        entry is Ok <==> public_key_of(config.public_key@) is Ok && private_key_of(
            config.private_key@,
        ) is Ok,
        entry matches Ok(entry) ==> {
            let public_key = public_key_of(config.public_key@)->Ok_0;
            let private_key = private_key_of(config.private_key@)->Ok_0;
            &&& entry.public_key.depth == public_key.depth
            &&& entry.public_key.parent_fingerprint@ == public_key.parent_fingerprint
            &&& entry.public_key.child_number == public_key.child_number
            &&& entry.public_key.chain_code@ == public_key.chain_code
            &&& entry.public_key.key@ == public_key.key
            &&& entry.private_key.depth == private_key.depth
            &&& entry.private_key.parent_fingerprint@ == private_key.parent_fingerprint
            &&& entry.private_key.child_number == private_key.child_number
            &&& entry.private_key.chain_code@ == private_key.chain_code
            &&& entry.private_key.key@ == private_key.key
            &&& entry.account@ == config.account@
            &&& entry.address@ == config.address@
        },
        entry matches Err(error) ==> error.message@ == (if public_key_of(config.public_key@) is Err {
            public_key_of(config.public_key@)->Err_0
        } else {
            private_key_of(config.private_key@)->Err_0
        }),
{
}

/// Two keys that were read are put together as they are; a key that was not read
/// leaves no entry, and its error is handed on.
pub proof fn parsed_keys_are_kept(
    public_key: Result<ExtendedKey, KeyError>,
    private_key: Result<ExtendedKey, KeyError>,
    account: String,
    address: Vec<u8>,
    entry: Result<KeyEntry, KeyError>,
)
    requires
        call_ensures(KeyEntry::from_parsed, (public_key, private_key, account, address), entry),
    ensures
        entry is Ok <==> public_key is Ok && private_key is Ok,
        entry matches Ok(entry) ==> {
            &&& entry.public_key.depth == public_key->Ok_0.depth
            &&& entry.public_key.parent_fingerprint@ == public_key->Ok_0.parent_fingerprint@
            &&& entry.public_key.child_number == public_key->Ok_0.child_number
            &&& entry.public_key.chain_code@ == public_key->Ok_0.chain_code@
            &&& entry.public_key.key@ == public_key->Ok_0.key@
            &&& entry.private_key.depth == private_key->Ok_0.depth
            &&& entry.private_key.parent_fingerprint@ == private_key->Ok_0.parent_fingerprint@
            &&& entry.private_key.child_number == private_key->Ok_0.child_number
            &&& entry.private_key.chain_code@ == private_key->Ok_0.chain_code@
            &&& entry.private_key.key@ == private_key->Ok_0.key@
            &&& entry.account@ == account@
            &&& entry.address@ == address@
        },
        public_key matches Err(error) ==> entry->Err_0.message@ == error.message@,
        public_key is Ok && private_key is Err ==> entry->Err_0.message@
            == private_key->Err_0.message@,
{
}

/// The keys of an entry are the keys that the configured texts write.
pub proof fn entry_keys_are_those_configured(config: ConfigKeyEntryView, entry: KeyEntryView)
    ensures
        key_entry_of(config) == Ok::<KeyEntryView, Seq<char>>(entry) <==> {
            &&& public_key_of(config.public_key) == Ok::<ExtendedKeyView, Seq<char>>(
                entry.public_key,
            )
            &&& private_key_of(config.private_key) == Ok::<ExtendedKeyView, Seq<char>>(
                entry.private_key,
            )
            &&& entry.account == config.account
            &&& entry.address == config.address
        },
{
}

/// The value of a parsed key has the fields of the key, and that of a failure its
/// words.
pub proof fn parsed_key_keeps_its_fields(parsed: Result<ExtendedKey, KeyError>)
    ensures
        match (parsed, parsed_key(parsed)) {
            (Ok(key), Ok(value)) => {
                &&& value.depth == key.depth
                &&& value.parent_fingerprint == key.parent_fingerprint@
                &&& value.child_number == key.child_number
                &&& value.chain_code == key.chain_code@
                &&& value.key == key.key@
            },
            (Err(error), Err(text)) => text == error.message@,
            _ => false,
        },
{
}

/// A copy of an entry has the same keys, account and address.
pub proof fn copied_entry_is_the_same(entry: &KeyEntry, copy: KeyEntry)
    requires
        call_ensures(<KeyEntry as Clone>::clone, (entry,), copy),
    ensures
        copy.public_key.depth == entry.public_key.depth,
        copy.public_key.parent_fingerprint@ == entry.public_key.parent_fingerprint@,
        copy.public_key.child_number == entry.public_key.child_number,
        copy.public_key.chain_code@ == entry.public_key.chain_code@,
        copy.public_key.key@ == entry.public_key.key@,
        copy.private_key.depth == entry.private_key.depth,
        copy.private_key.parent_fingerprint@ == entry.private_key.parent_fingerprint@,
        copy.private_key.child_number == entry.private_key.child_number,
        copy.private_key.chain_code@ == entry.private_key.chain_code@,
        copy.private_key.key@ == entry.private_key.key@,
        copy.account@ == entry.account@,
        copy.address@ == entry.address@,
{
}

/// A copy of an extended key has the same fields.
pub proof fn copied_key_is_the_same(key: &ExtendedKey, copy: ExtendedKey)
    requires
        call_ensures(<ExtendedKey as Clone>::clone, (key,), copy),
    ensures
        copy.depth == key.depth,
        copy.parent_fingerprint@ == key.parent_fingerprint@,
        copy.child_number == key.child_number,
        copy.chain_code@ == key.chain_code@,
        copy.key@ == key.key@,
{
}

/// A copy of a configured key has the same texts and address.
pub proof fn copied_config_key_is_the_same(config: &ConfigKeyEntry, copy: ConfigKeyEntry)
    requires
        call_ensures(<ConfigKeyEntry as Clone>::clone, (config,), copy),
    ensures
        copy.public_key@ == config.public_key@,
        copy.private_key@ == config.private_key@,
        copy.account@ == config.account@,
        copy.address@ == config.address@,
{
}

/// Keys that were read have their sizes: 33 bytes for the public key and 32 for
/// the private key, and for both 32 bytes of chain code and 4 of the parent's
/// fingerprint.
pub proof fn keys_read_have_their_sizes(config: ConfigKeyEntry, entry: KeyEntry)
    requires
        call_ensures(
            <KeyEntry as TryFrom<ConfigKeyEntry>>::try_from,
            (config,),
            Ok::<KeyEntry, KeyError>(entry),
        ),
    ensures
        entry.public_key.key@.len() == 33,
        entry.public_key.chain_code@.len() == 32,
        entry.public_key.parent_fingerprint@.len() == 4,
        entry.private_key.key@.len() == 32,
        entry.private_key.chain_code@.len() == 32,
        entry.private_key.parent_fingerprint@.len() == 4,
{
}

} // verus!

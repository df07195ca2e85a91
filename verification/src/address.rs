//! Wallet addresses and the scripts that pay to them.
//!
//! The text form of an address is decoded by `kaspa_addresses`; the script
//! that locks an output to an address is built by `kaspa_txscript`. Both are
//! reached through the two private functions at the end of this file, whose
//! contracts are taken on trust.

use vstd::prelude::*;
use vstd::string::*;
use vstd::utf8::is_ascii_chars;
use crate::utxo::{Script, ScriptView};

verus! {

/// The network an address belongs to.
#[derive(Clone, Copy, Debug, PartialEq, Eq, Structural)]
pub enum Network {
    Mainnet,
    Testnet,
    Simnet,
    Devnet,
}

/// What the payload of an address is.
#[derive(Clone, Copy, Debug, PartialEq, Eq, Structural)]
pub enum AddressKind {
    /// A 32-byte Schnorr public key.
    PubKey,
    /// A 33-byte ECDSA public key.
    PubKeyEcdsa,
    /// The 32-byte hash of a script.
    ScriptHash,
}

/// The number of payload bytes an address of the given kind carries.
pub open spec fn payload_len(kind: AddressKind) -> nat {
    match kind {
        AddressKind::PubKey => 32,
        AddressKind::PubKeyEcdsa => 33,
        AddressKind::ScriptHash => 32,
    }
}

/// An address, as a mathematical value.
pub struct AddressView {
    pub network: Network,
    pub kind: AddressKind,
    pub payload: Seq<u8>,
}

/// A wallet address whose payload has the length its kind asks for.
#[derive(Debug, PartialEq, Eq)]
pub struct Address {
    network: Network,
    kind: AddressKind,
    payload: Vec<u8>,
}

impl View for Address {
    type V = AddressView;

    closed spec fn view(&self) -> AddressView {
        AddressView { network: self.network, kind: self.kind, payload: self.payload@ }
    }
}

impl Address {
    #[verifier::type_invariant]
    spec fn well_formed(&self) -> bool {
        self.payload@.len() == payload_len(self.kind)
    }

    /// Makes an address from its parts, if the payload has the length that
    /// `kind` asks for.
    pub fn new(network: Network, kind: AddressKind, payload: Vec<u8>) -> (r: Option<Address>)
        ensures
            r is Some <==> payload@.len() == payload_len(kind),
            r matches Some(a) ==> a@ == (AddressView { network, kind, payload: payload@ }),
    {
        let wanted: usize = match kind {
            AddressKind::PubKey => 32,
            AddressKind::PubKeyEcdsa => 33,
            AddressKind::ScriptHash => 32,
        };
        if payload.len() == wanted {
            Some(Address { network, kind, payload })
        } else {
            None
        }
    }

    /// The network the address belongs to.
    pub fn network(&self) -> (r: Network)
        ensures
            r == self@.network,
    {
        self.network
    }

    /// What the payload is.
    pub fn kind(&self) -> (r: AddressKind)
        ensures
            r == self@.kind,
    {
        self.kind
    }

    /// The payload: a public key or the hash of a script.
    pub fn payload(&self) -> (r: &Vec<u8>)
        ensures
            r@ == self@.payload,
            r@.len() == payload_len(self@.kind),
    {
        proof {
            use_type_invariant(self);
        }
        &self.payload
    }

    /// The script that locks an output to this address.
    pub fn locking_script(&self) -> (r: Script)
        ensures
            r@ == locking_script_of(self@),
    {
        proof {
            use_type_invariant(self);
        }
        pay_to_address(self)
    }

    /// The text form of this address, `prefix:payload`.
    pub fn to_text(&self) -> (r: String)
        ensures
            r@ == address_text_of(self@),
    {
        proof {
            use_type_invariant(self);
        }
        encode_address(self)
    }
}

/// The script that pays to an address: the payload pushed as data, then the
/// check that the kind of the address asks for.
pub open spec fn locking_script_of(address: AddressView) -> ScriptView {
    ScriptView {
        version: 0,
        bytes: match address.kind {
            AddressKind::PubKey => seq![0x20u8] + address.payload + seq![0xacu8],
            AddressKind::PubKeyEcdsa => seq![0x21u8] + address.payload + seq![0xabu8],
            AddressKind::ScriptHash => seq![0xaau8, 0x20u8] + address.payload + seq![0x87u8],
        },
    }
}

/// Whether `p` is the position of the first colon in `text`.
pub open spec fn splits_at(text: Seq<char>, p: int) -> bool {
    &&& 0 <= p < text.len()
    &&& text[p] == ':'
    &&& forall|j: int| 0 <= j < p ==> text[j] != ':'
}

/// Whether `body`, the part of an address text after the colon, has the
/// length and the leading characters of an encoded payload with checksum:
/// 61 or 62 characters for the two kinds with 32 bytes, 63 for the kind with
/// 33, and two leading characters that spell the kind.
pub open spec fn has_payload_shape(body: Seq<char>) -> bool {
    ||| {
        &&& body.len() == 61 || body.len() == 62
        &&& body[0] == 'q' || body[0] == 'p'
        &&& body[1] == 'q' || body[1] == 'p' || body[1] == 'z' || body[1] == 'r'
    }
    ||| {
        &&& body.len() == 63
        &&& body[0] == 'q'
        &&& body[1] == 'y' || body[1] == '9' || body[1] == 'x' || body[1] == '8'
    }
}

/// Whether `text` is plain ASCII of the form `prefix:body` with a body of
/// the shape of an encoded payload. No text without this shape is an
/// address.
pub open spec fn has_address_shape(text: Seq<char>) -> bool {
    &&& is_ascii_chars(text)
    &&& exists|p: int| splits_at(text, p) && has_payload_shape(#[trigger] text.skip(p + 1))
}

/// Decides whether `text` has the shape of an address.
pub fn check_address_shape(text: &str) -> (r: bool)
    ensures
        r == has_address_shape(text@),
{
    if !text.is_ascii() {
        return false;
    }
    let n: usize = text.unicode_len();
    let mut p: usize = 0;
    while p < n && text.get_ascii(p) != 58u8
        invariant
            p <= n,
            n == text@.len(),
            text.is_ascii(),
            forall|j: int| 0 <= j < p ==> text@[j] != ':',
        decreases n - p,
    {
        p = p + 1;
    }
    if p >= n {
        assert(!has_address_shape(text@));
        return false;
    }
    assert(splits_at(text@, p as int));
    let ghost body = text@.skip(p + 1);
    assert(forall|q: int| splits_at(text@, q) ==> q == p);
    let m: usize = n - p - 1;
    assert(m == body.len());
    if m < 61 || m > 63 {
        return false;
    }
    let first: u8 = text.get_ascii(p + 1);
    let second: u8 = text.get_ascii(p + 2);
    assert(body[0] == text@[p + 1] && body[1] == text@[p + 2]);
    // 'q' 113, 'p' 112, 'z' 122, 'r' 114, 'y' 121, '9' 57, 'x' 120, '8' 56
    if m == 63 {
        first == 113u8 && (second == 121u8 || second == 57u8 || second == 120u8 || second == 56u8)
    } else {
        (first == 113u8 || first == 112u8) && (second == 113u8 || second == 112u8 || second
            == 122u8 || second == 114u8)
    }
}

/// Reads an address from its text form, `prefix:payload`.
///
/// Returns `None` for a text that is no address: one without the shape of an
/// address, or one that the decoder rejects (unknown prefix, bad character,
/// wrong checksum, unknown kind).
pub fn parse_address(text: &str) -> (r: Option<Address>)
    ensures
        r is Some <==> has_address_shape(text@) && decoded_address(text@) is Some,
        r matches Some(a) ==> decoded_address(text@) == Some(a@),
{
    if !check_address_shape(text) {
        return None;
    }
    match decode_address(text) {
        Ok(address) => Some(address),
        Err(_) => None,
    }
}

/// What `kaspa_addresses` decodes an address text to, or `None` where it
/// rejects the text.
pub uninterp spec fn decoded_address(text: Seq<char>) -> Option<AddressView>;

/// `kaspa_addresses::AddressError`, the decoder's reason for a rejection.
/// Nothing is known of what it holds.
#[verifier::external_type_specification]
#[verifier::external_body]
pub struct ExAddressError(kaspa_addresses::AddressError);

/// Calls `kaspa_addresses::Address::try_from` on a text.
///
/// Trusted: the result is the same for the same text, and an address that
/// comes back has a payload of the length of its kind. The decoder indexes
/// into the decoded payload and asserts its length, so texts whose body
/// cannot hold a payload of the right length are kept out.
#[verifier::external_body]
fn decode_address(text: &str) -> (r: Result<Address, kaspa_addresses::AddressError>)
    requires
        has_address_shape(text@),
    ensures
        match r {
            Ok(a) => decoded_address(text@) == Some(a@) && a.well_formed(),
            Err(_) => decoded_address(text@) is None,
        },
{
    let a = kaspa_addresses::Address::try_from(text)?;
    let network = match a.prefix {
        kaspa_addresses::Prefix::Mainnet => Network::Mainnet,
        kaspa_addresses::Prefix::Testnet => Network::Testnet,
        kaspa_addresses::Prefix::Simnet => Network::Simnet,
        kaspa_addresses::Prefix::Devnet => Network::Devnet,
    };
    let kind = match a.version {
        kaspa_addresses::Version::PubKey => AddressKind::PubKey,
        kaspa_addresses::Version::PubKeyECDSA => AddressKind::PubKeyEcdsa,
        kaspa_addresses::Version::ScriptHash => AddressKind::ScriptHash,
    };
    Ok(Address { network, kind, payload: a.payload.to_vec() })
}

/// Calls `kaspa_txscript::standard::pay_to_address_script`.
///
/// Trusted: the script has version 0 and holds the payload between the
/// opcodes of the address kind, as `locking_script_of` spells out. The
/// address is first made anew with `kaspa_addresses::Address::new`, which
/// asserts the length of the payload: addresses that would fail it are kept
/// out.
#[verifier::external_body]
fn pay_to_address(address: &Address) -> (r: Script)
    requires
        address.well_formed(),
    ensures
        r@ == locking_script_of(address@),
{
    let prefix = match address.network {
        Network::Mainnet => kaspa_addresses::Prefix::Mainnet,
        Network::Testnet => kaspa_addresses::Prefix::Testnet,
        Network::Simnet => kaspa_addresses::Prefix::Simnet,
        Network::Devnet => kaspa_addresses::Prefix::Devnet,
    };
    let version = match address.kind {
        AddressKind::PubKey => kaspa_addresses::Version::PubKey,
        AddressKind::PubKeyEcdsa => kaspa_addresses::Version::PubKeyECDSA,
        AddressKind::ScriptHash => kaspa_addresses::Version::ScriptHash,
    };
    let outside = kaspa_addresses::Address::new(prefix, version, &address.payload);
    let script = kaspa_txscript::standard::pay_to_address_script(&outside);
    Script { version: script.version(), bytes: script.script().to_vec() }
}

/// The text that `kaspa_addresses` writes an address as.
pub uninterp spec fn address_text_of(address: AddressView) -> Seq<char>;

/// Calls `String::from` on a `kaspa_addresses` address.
///
/// Trusted: the result is the same for the same address. The address is
/// first made anew as above, under the same condition.
#[verifier::external_body]
fn encode_address(address: &Address) -> (r: String)
    requires
        address.well_formed(),
    ensures
        r@ == address_text_of(address@),
{
    let prefix = match address.network {
        Network::Mainnet => kaspa_addresses::Prefix::Mainnet,
        Network::Testnet => kaspa_addresses::Prefix::Testnet,
        Network::Simnet => kaspa_addresses::Prefix::Simnet,
        Network::Devnet => kaspa_addresses::Prefix::Devnet,
    };
    let version = match address.kind {
        AddressKind::PubKey => kaspa_addresses::Version::PubKey,
        AddressKind::PubKeyEcdsa => kaspa_addresses::Version::PubKeyECDSA,
        AddressKind::ScriptHash => kaspa_addresses::Version::ScriptHash,
    };
    let outside = kaspa_addresses::Address::new(prefix, version, &address.payload);
    String::from(&outside)
}

} // verus!

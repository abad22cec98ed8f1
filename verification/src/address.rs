//! Account addresses and transaction hashes, and their texts.

use crate::hex::{
    fixed_hex, hex_digit, is_blank, lemma_hex_bytes_of_cased_text, lower_case, lower_hex_text,
    nibble_at, push_lower_hex,
};
use vstd::prelude::*;
use vstd::std_specs::iter::IteratorSpec;

verus! {

broadcast use vstd::string::group_string_axioms;

/// The address of an account: twenty bytes.
#[derive(Debug, Clone, Copy, PartialEq, Eq)]
pub struct Address {
    pub bytes: [u8; 20],
}

impl View for Address {
    type V = Seq<u8>;

    open spec fn view(&self) -> Seq<u8> {
        self.bytes@
    }
}

/// The hash of a transaction: thirty-two bytes.
#[derive(Debug, Clone, Copy, PartialEq, Eq)]
pub struct TxHash {
    pub bytes: [u8; 32],
}

impl View for TxHash {
    type V = Seq<u8>;

    open spec fn view(&self) -> Seq<u8> {
        self.bytes@
    }
}

/// The lower-case text of an address or a hash: "0x" and two digits for each
/// byte.
pub open spec fn prefixed_hex_text(bytes: Seq<u8>) -> Seq<char> {
    seq!['0', 'x'] + lower_hex_text(bytes)
}

/// The Keccak-256 digest of `data`, as `ethers::utils::keccak256` computes it.
pub uninterp spec fn keccak256(data: Seq<u8>) -> Seq<u8>;

/// The bytes of an ASCII text.
pub open spec fn ascii_bytes(text: Seq<char>) -> Seq<u8> {
    Seq::new(text.len(), |i: int| text[i] as u8)
}

/// The upper-case hexadecimal digit of a value below sixteen.
pub open spec fn upper_hex_digit(n: u8) -> char {
    if n < 10 {
        (n + 48) as u8 as char
    } else {
        (n + 55) as u8 as char
    }
}

/// One digit of a checksummed address: a capital where the half byte of the
/// digest at the same place is eight or more.
pub open spec fn checksum_digit(n: u8, digest_nibble: u8) -> char {
    if digest_nibble >= 8 {
        upper_hex_digit(n)
    } else {
        hex_digit(n)
    }
}

/// The checksummed text of twenty bytes under a given digest: "0x" and forty
/// digits, each cased by the digest.
pub open spec fn cased_text(address: Seq<u8>, digest: Seq<u8>) -> Seq<char> {
    seq!['0', 'x'] + Seq::new(
        40,
        |i: int| checksum_digit(nibble_at(address, i), nibble_at(digest, i)),
    )
}

/// The checksummed text of an address: its digits are cased by the digest of
/// its own forty lower-case digits.
pub open spec fn checksum_text(address: Seq<u8>) -> Seq<char> {
    cased_text(address, keccak256(ascii_bytes(lower_hex_text(address))))
}

/// The checksummed text of the address that `text` stands for, if it stands
/// for one.
pub open spec fn checksum_of(text: Seq<char>) -> Option<Seq<char>> {
    match fixed_hex(text, 20) {
        Some(address) => Some(checksum_text(address)),
        None => None,
    }
}

/// Whether `text` is `checksum` letter for letter, with nothing but blanks
/// behind it.
pub open spec fn matches_checksum(text: Seq<char>, checksum: Seq<char>) -> bool {
    &&& text.len() >= checksum.len()
    &&& text.take(checksum.len() as int) == checksum
    &&& forall|i: int| checksum.len() <= i < text.len() ==> is_blank(#[trigger] text[i])
}

/// `str::parse` for `ethers::types::H160`: an optional "0x", then forty
/// hexadecimal digits of either case; the decoder passes over space, carriage
/// return, line feed and tab.
#[verifier::external_body]
fn parse_h160(text: &str) -> (bytes: Option<[u8; 20]>)
    ensures
        bytes matches Some(b) ==> fixed_hex(text@, 20) == Some(b@),
        bytes is None ==> fixed_hex(text@, 20) is None,
{
    match text.parse::<ethers::types::H160>() {
        Ok(hash) => Some(hash.0),
        Err(_) => None,
    }
}

/// `str::parse` for `ethers::types::H256`: as for an address, with
/// sixty-four digits.
#[verifier::external_body]
fn parse_h256(text: &str) -> (bytes: Option<[u8; 32]>)
    ensures
        bytes matches Some(b) ==> fixed_hex(text@, 32) == Some(b@),
        bytes is None ==> fixed_hex(text@, 32) is None,
{
    match text.parse::<ethers::types::H256>() {
        Ok(hash) => Some(hash.0),
        Err(_) => None,
    }
}

/// `ethers::utils::to_checksum` without a chain id: it hashes the forty
/// lower-case digits of the address and writes "0x" and the digits, each in
/// upper case where the digit of the hash at the same place is 8 or more.
#[verifier::external_body]
fn checksum_string(address: &[u8; 20]) -> (text: String)
    ensures
        text@ == cased_text(address@, keccak256(ascii_bytes(lower_hex_text(address@)))),
{
    ethers::utils::to_checksum(&ethers::types::H160(*address), None)
}

impl Address {
    /// Reads an address from its text.
    pub fn parse(text: &str) -> (address: Option<Address>)
        ensures
            address matches Some(a) ==> fixed_hex(text@, 20) == Some(a@),
            address is None ==> fixed_hex(text@, 20) is None,
    {
        match parse_h160(text) {
            Some(bytes) => Some(Address { bytes }),
            None => None,
        }
    }

    /// The lower-case text of the address.
    pub fn to_lower_hex(&self) -> (text: String)
        ensures
            text@ == prefixed_hex_text(self@),
    {
        let mut text = "0x".to_owned();
        proof {
            reveal_strlit("0x");
            assert(text@ =~= seq!['0', 'x']);
        }
        push_lower_hex(&mut text, self.bytes.as_slice());
        text
    }

    /// The checksummed text of the address.
    pub fn to_checksum(&self) -> (text: String)
        ensures
            text@ == checksum_text(self@),
    {
        checksum_string(&self.bytes)
    }
}

impl TxHash {
    /// Reads a transaction hash from its text.
    pub fn parse(text: &str) -> (hash: Option<TxHash>)
        ensures
            hash matches Some(h) ==> fixed_hex(text@, 32) == Some(h@),
            hash is None ==> fixed_hex(text@, 32) is None,
    {
        match parse_h256(text) {
            Some(bytes) => Some(TxHash { bytes }),
            None => None,
        }
    }

    /// The lower-case text of the hash.
    pub fn to_lower_hex(&self) -> (text: String)
        ensures
            text@ == prefixed_hex_text(self@),
    {
        let mut text = "0x".to_owned();
        proof {
            reveal_strlit("0x");
            assert(text@ =~= seq!['0', 'x']);
        }
        push_lower_hex(&mut text, self.bytes.as_slice());
        text
    }
}

/// The checksummed text of the address that `text` stands for, if it stands
/// for one.
pub fn checksum_address(text: &str) -> (checksum: Option<String>)
    ensures
        checksum matches Some(c) ==> checksum_of(text@) == Some(c@),
        checksum is None ==> checksum_of(text@) is None,
{
    match Address::parse(text) {
        Some(address) => Some(address.to_checksum()),
        None => None,
    }
}

/// Whether `text` is `wanted` letter for letter, with nothing but blanks
/// behind it.
pub fn is_text_then_blanks(text: &str, wanted: &str) -> (ok: bool)
    ensures
        ok == matches_checksum(text@, wanted@),
{
    let mut given = text.chars();
    let mut expected = wanted.chars();
    let ghost mut i: int = 0;
    assert(text@.skip(0) =~= text@ && wanted@.skip(0) =~= wanted@);
    loop
        invariant
            0 <= i <= wanted@.len(),
            i <= text@.len(),
            given.remaining() == text@.skip(i),
            expected.remaining() == wanted@.skip(i),
            forall|j: int| 0 <= j < i ==> text@[j] == wanted@[j],
        ensures
            i == wanted@.len(),
        decreases wanted@.len() - i,
    {
        match expected.next() {
            None => {
                assert(wanted@.skip(i).len() == 0);
                break ;
            },
            Some(w) => {
                assert(w == wanted@.skip(i)[0]);
                match given.next() {
                    None => {
                        return false;
                    },
                    Some(g) => {
                        assert(g == text@.skip(i)[0]);
                        if g != w {
                            proof {
                                if matches_checksum(text@, wanted@) {
                                    assert(text@.take(wanted@.len() as int)[i] == wanted@[i]);
                                }
                            }
                            return false;
                        }
                    },
                }
            },
        }
        proof {
            assert(text@.skip(i).drop_first() =~= text@.skip(i + 1));
            assert(wanted@.skip(i).drop_first() =~= wanted@.skip(i + 1));
            i = i + 1;
        }
    }
    assert(i == wanted@.len());
    assert(text@.take(wanted@.len() as int) =~= wanted@);
    loop
        invariant
            wanted@.len() <= i <= text@.len(),
            given.remaining() == text@.skip(i),
            text@.take(wanted@.len() as int) == wanted@,
            forall|j: int| wanted@.len() <= j < i ==> is_blank(#[trigger] text@[j]),
        decreases text@.len() - i,
    {
        match given.next() {
            None => {
                return true;
            },
            Some(c) => {
                assert(c == text@.skip(i)[0]);
                if !(c == ' ' || c == '\r' || c == '\n' || c == '\t') {
                    assert(!is_blank(text@[i]));
                    return false;
                }
            },
        }
        proof {
            assert(text@.skip(i).drop_first() =~= text@.skip(i + 1));
            i = i + 1;
        }
    }
}

/// A checksummed text is ASCII, forty-two characters long, and in lower case
/// it is the lower-case text of the address.
pub proof fn lemma_checksum_text_shape(address: Seq<u8>)
    requires
        address.len() == 20,
    ensures
        checksum_text(address).len() == 42,
        vstd::utf8::is_ascii_chars(checksum_text(address)),
        lower_case(checksum_text(address)) == prefixed_hex_text(address),
{
    let text = checksum_text(address);
    let lower = prefixed_hex_text(address);
    assert(lower.len() == 42);
    assert forall|i: int| 0 <= i < 42 implies crate::hex::to_lower(#[trigger] text[i])
        == lower[i] && '\0' <= text[i] <= '\u{7f}' by {
        if i >= 2 {
            assert(nibble_at(address, i - 2) < 16);
            assert(lower[i] == lower_hex_text(address)[i - 2]);
        }
    }
    assert(lower_case(text) =~= lower);
}

/// To checksum is idempotent: the checksummed text of an address stands for
/// that address, so its own checksummed text is itself.
pub proof fn lemma_checksum_idempotent(text: Seq<char>)
    ensures
        checksum_of(text) matches Some(checksum) ==> checksum_of(checksum) == Some(checksum),
{
    if let Some(address) = fixed_hex(text, 20) {
        let checksum = checksum_text(address);
        assert(address.len() == 20);
        lemma_checksum_text_shape(address);
        let digits = checksum.skip(2);
        assert(checksum =~= seq!['0', 'x'] + digits);
        assert(lower_case(digits) =~= lower_hex_text(address)) by {
            assert forall|i: int| 0 <= i < 40 implies lower_case(digits)[i] == lower_hex_text(
                address,
            )[i] by {
                assert(lower_case(checksum)[i + 2] == prefixed_hex_text(address)[i + 2]);
            }
        }
        lemma_hex_bytes_of_cased_text(digits, address);
    }
}

} // verus!

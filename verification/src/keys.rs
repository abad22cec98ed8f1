//! Key material: entropy, mnemonic phrases, key pairs, and the signing of a
//! transfer. The cryptography itself is that of `bip39` and `ethers`.

use crate::address::Address;
use crate::uint256::Uint256;
use ethers::signers::coins_bip39::English;
use ethers::signers::{LocalWallet, MnemonicBuilder, Signer};
use ethers::types::{PathOrString, TransactionRequest, H160, U256};
use rand::RngCore;
use vstd::prelude::*;

verus! {

/// A private key and the address of its account.
#[derive(Debug, Clone, Copy, PartialEq, Eq)]
pub struct Keypair {
    pub secret: [u8; 32],
    pub address: Address,
}

/// A key pair as two byte strings.
pub struct KeypairView {
    pub secret: Seq<u8>,
    pub address: Seq<u8>,
}

impl View for Keypair {
    type V = KeypairView;

    open spec fn view(&self) -> KeypairView {
        KeypairView { secret: self.secret@, address: self.address@ }
    }
}

/// A transfer of native currency before it is signed: a legacy transaction
/// with a fixed gas price and no data.
#[derive(Debug, Clone, Copy, PartialEq, Eq)]
pub struct UnsignedTransaction {
    pub to: Address,
    pub value: Uint256,
    pub gas_limit: u64,
    pub gas_price: Uint256,
    pub nonce: Uint256,
}

/// An unsigned transfer as numbers.
pub struct UnsignedTransactionView {
    pub to: Seq<u8>,
    pub value: nat,
    pub gas_limit: nat,
    pub gas_price: nat,
    pub nonce: nat,
}

impl View for UnsignedTransaction {
    type V = UnsignedTransactionView;

    open spec fn view(&self) -> UnsignedTransactionView {
        UnsignedTransactionView {
            to: self.to@,
            value: self.value@,
            gas_limit: self.gas_limit as nat,
            gas_price: self.gas_price@,
            nonce: self.nonce@,
        }
    }
}

/// An ECDSA signature over a transaction; `v` carries the chain id.
#[derive(Debug, Clone, Copy, PartialEq, Eq)]
pub struct Signature {
    pub r: Uint256,
    pub s: Uint256,
    pub v: u64,
}

/// A signature as numbers.
pub struct SignatureView {
    pub r: nat,
    pub s: nat,
    pub v: nat,
}

impl View for Signature {
    type V = SignatureView;

    open spec fn view(&self) -> SignatureView {
        SignatureView { r: self.r@, s: self.s@, v: self.v as nat }
    }
}

/// The gas that a transfer of native currency to an account costs.
pub const TRANSFER_GAS: u64 = 21000;

/// The English twelve-word phrase that `bip39::Mnemonic` gives sixteen bytes
/// of entropy.
pub uninterp spec fn mnemonic_phrase(entropy: Seq<u8>) -> Seq<char>;

/// How many spaces stand in `text`.
pub open spec fn spaces_in(text: Seq<char>) -> nat
    decreases text.len(),
{
    if text.len() == 0 {
        0
    } else {
        spaces_in(text.drop_last()) + if text.last() == ' ' {
            1nat
        } else {
            0nat
        }
    }
}

/// Whether `v` is the `v` of a signature for the chain: the chain id
/// doubled, plus 35, plus the recovery id, which is at most 3.
pub open spec fn bound_to_chain(v: nat, chain_id: u64) -> bool {
    2 * chain_id + 35 <= v <= 2 * chain_id + 38
}

/// The key pair that `ethers::signers::MnemonicBuilder` derives from an
/// English phrase at the path m/44'/60'/0'/0/0 without a password; nothing
/// where it rejects the phrase or the derivation fails.
pub uninterp spec fn derived_keypair(phrase: Seq<char>) -> Option<KeypairView>;

/// The key pair that `ethers::signers::LocalWallet` reads from the
/// hexadecimal text of a private key; nothing where it rejects the text.
pub uninterp spec fn parsed_keypair(text: Seq<char>) -> Option<KeypairView>;

/// The signature that `ethers::signers::LocalWallet` puts under a transfer
/// for a chain; nothing where signing fails.
pub uninterp spec fn transfer_signature(
    secret: Seq<u8>,
    tx: UnsignedTransactionView,
    chain_id: u64,
) -> Option<SignatureView>;

/// The RLP encoding of a transfer with its signature, as
/// `ethers::types::TransactionRequest::rlp_signed` writes it.
pub uninterp spec fn signed_transfer(tx: UnsignedTransactionView, signature: SignatureView) -> Seq<
    u8,
>;

/// The chain ids for which the `v` of a signature fits in 64 bits.
pub open spec fn chain_id_in_range(chain_id: u64) -> bool {
    2 * chain_id + 38 <= u64::MAX
}

/// Sixteen bytes from `rand::thread_rng`. Nothing is known of them.
#[verifier::external_body]
pub(crate) fn fresh_entropy() -> (entropy: [u8; 16]) {
    let mut entropy = [0u8; 16];
    rand::thread_rng().fill_bytes(&mut entropy);
    entropy
}

/// `bip39::Mnemonic::from_entropy_in` for English, and the phrase that its
/// `Display` writes: the words with one space between them. Sixteen bytes
/// are an entropy length that it takes, so it gives a phrase, and the
/// phrase has twelve words, none of which holds a space: eleven spaces.
#[verifier::external_body]
pub(crate) fn english_phrase(entropy: &[u8; 16]) -> (phrase: Option<String>)
    ensures
        phrase is Some,
        phrase.unwrap()@ == mnemonic_phrase(entropy@),
        spaces_in(phrase.unwrap()@) == 11,
{
    match bip39::Mnemonic::from_entropy_in(bip39::Language::English, entropy) {
        Ok(mnemonic) => Some(mnemonic.to_string()),
        Err(_) => None,
    }
}

/// `MnemonicBuilder::<English>::default().phrase(..).build()`, with the
/// phrase handed over as text, never as the path of a file.
#[verifier::external_body]
pub(crate) fn derive_keypair(phrase: &str) -> (pair: Option<Keypair>)
    ensures
        pair matches Some(p) ==> derived_keypair(phrase@) == Some(p@),
        pair is None ==> derived_keypair(phrase@) is None,
{
    let text = PathOrString::String(phrase.to_owned());
    match MnemonicBuilder::<English>::default().phrase(text).build() {
        Ok(wallet) => Some(
            Keypair {
                secret: wallet.signer().to_bytes().into(),
                address: Address { bytes: wallet.address().0 },
            },
        ),
        Err(_) => None,
    }
}

/// `str::parse` for `ethers::signers::LocalWallet`.
#[verifier::external_body]
pub(crate) fn parse_keypair(text: &str) -> (pair: Option<Keypair>)
    ensures
        pair matches Some(p) ==> parsed_keypair(text@) == Some(p@),
        pair is None ==> parsed_keypair(text@) is None,
{
    match text.parse::<LocalWallet>() {
        Ok(wallet) => Some(
            Keypair {
                secret: wallet.signer().to_bytes().into(),
                address: Address { bytes: wallet.address().0 },
            },
        ),
        Err(_) => None,
    }
}

/// `LocalWallet::sign_transaction_sync` on a legacy transaction without
/// data, by a wallet made from the key with `from_bytes` and bound to the
/// chain with `with_chain_id`. The chain ids left out are those on which the
/// sum for `v` overflows. The `v` of the signature is the chain id doubled,
/// plus 35, plus the recovery id. On failure the text is that of the outside
/// error.
#[verifier::external_body]
pub(crate) fn sign_transfer(secret: &[u8; 32], tx: &UnsignedTransaction, chain_id: u64) -> (signature:
    Result<Signature, String>)
    requires
        chain_id_in_range(chain_id),
    ensures
        signature matches Ok(s) ==> transfer_signature(secret@, tx@, chain_id) == Some(s@),
        signature matches Ok(s) ==> bound_to_chain(s.v as nat, chain_id),
        signature is Err ==> transfer_signature(secret@, tx@, chain_id) is None,
{
    let request = TransactionRequest::new()
        .to(H160(tx.to.bytes))
        .value(U256(tx.value.limbs))
        .gas_price(U256(tx.gas_price.limbs))
        .gas(tx.gas_limit)
        .nonce(U256(tx.nonce.limbs));
    let wallet = LocalWallet::from_bytes(secret).map_err(|e| e.to_string())?;
    match wallet.with_chain_id(chain_id).sign_transaction_sync(&request.into()) {
        Ok(s) => Ok(Signature { r: Uint256 { limbs: s.r.0 }, s: Uint256 { limbs: s.s.0 }, v: s.v }),
        Err(e) => Err(e.to_string()),
    }
}

/// `TransactionRequest::rlp_signed` on a legacy transaction without data.
#[verifier::external_body]
pub(crate) fn signed_bytes(tx: &UnsignedTransaction, signature: &Signature) -> (raw: Vec<u8>)
    ensures
        raw@ == signed_transfer(tx@, signature@),
{
    let request = TransactionRequest::new()
        .to(H160(tx.to.bytes))
        .value(U256(tx.value.limbs))
        .gas_price(U256(tx.gas_price.limbs))
        .gas(tx.gas_limit)
        .nonce(U256(tx.nonce.limbs));
    let r = U256(signature.r.limbs);
    let s = U256(signature.s.limbs);
    request.rlp_signed(&ethers::types::Signature { r, s, v: signature.v }).to_vec()
}

} // verus!

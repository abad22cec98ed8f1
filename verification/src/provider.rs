//! The gateway to the chain, seen from the library: the calls that an
//! operation asks for, and the replies that it is resumed with.
//!
//! The library holds no connection. Whoever runs an operation makes each call
//! on the JSON-RPC provider and hands the reply back.

use crate::address::{Address, TxHash};
use crate::errors::WalletError;
use crate::uint256::Uint256;
use vstd::prelude::*;

verus! {

/// One call on the provider.
#[derive(Debug, PartialEq, Eq)]
pub enum ProviderCall {
    /// The balance of an account, in the smallest unit.
    Balance(Address),
    /// How many transactions an account has sent: its next nonce.
    TransactionCount(Address),
    /// The code deployed at an address.
    Code(Address),
    /// The current gas price.
    GasPrice,
    /// The identifier of the chain.
    ChainId,
    /// Broadcast of a signed transaction in its wire form.
    SendRawTransaction(Vec<u8>),
    /// The receipt of a transaction.
    TransactionReceipt(TxHash),
    /// The number of the block at the head of the chain.
    BlockNumber,
}

/// What the receipt of a mined transaction says.
#[derive(Debug, Clone, Copy, PartialEq, Eq)]
pub struct Receipt {
    pub status: Option<u64>,
    pub block_number: Option<u64>,
    pub gas_used: Option<Uint256>,
}

/// The provider's reply to one call.
#[derive(Debug, PartialEq, Eq)]
pub enum ProviderReply {
    /// The call failed; the text is the provider's.
    Failed(String),
    /// A balance, a nonce, a gas price or a chain id.
    Quantity(Uint256),
    /// A block number.
    Number(u64),
    /// Deployed code.
    Code(Vec<u8>),
    /// The hash of a transaction that was broadcast.
    Hash(TxHash),
    /// A receipt, or none for a transaction that is not mined.
    Receipt(Option<Receipt>),
}

/// The next step of an operation: a call to make on the provider, with the
/// state to resume afterwards, or the end.
#[derive(Debug, PartialEq, Eq)]
pub enum Step<F, T> {
    Ask(ProviderCall, F),
    Done(Result<T, WalletError>),
}

} // verus!

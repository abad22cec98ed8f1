//! What can go wrong, by kind, and how each kind is told to a client.

use crate::amount::{ether_text, format_ether};
use crate::uint256::Uint256;
use vstd::prelude::*;
use vstd::string::StringExecFns;

verus! {

/// What was asked of the provider, or done with its answers, when a failure
/// came back.
#[derive(Debug, Clone, Copy, PartialEq, Eq)]
pub enum ProviderVerb {
    FetchBalance,
    FetchNonce,
    FetchGasPrice,
    FetchChainId,
    Sign,
    Broadcast,
    FetchReceipt,
    FetchBlockNumber,
}

/// The errors of the wallet operations.
///
/// The first six are the client's: they are found before the provider is
/// asked for anything that depends on them. A provider error carries the
/// verb that failed and the provider's own text.
#[derive(Debug, PartialEq, Eq)]
pub enum WalletError {
    InvalidAddress,
    InvalidPrivateKey,
    InvalidDestinationAddress,
    InvalidAmount,
    InvalidTransactionHash,
    InsufficientBalance { current: Uint256, requested: Uint256, amount: String },
    ProviderError { verb: ProviderVerb, detail: String },
}

/// How a verb reads at the head of a message.
pub open spec fn verb_text(verb: ProviderVerb) -> Seq<char> {
    match verb {
        ProviderVerb::FetchBalance => "Failed to fetch balance"@,
        ProviderVerb::FetchNonce => "Failed to fetch nonce"@,
        ProviderVerb::FetchGasPrice => "Failed to fetch gas price"@,
        ProviderVerb::FetchChainId => "Failed to fetch chain id"@,
        ProviderVerb::Sign => "Failed to sign transaction"@,
        ProviderVerb::Broadcast => "Failed to send transaction"@,
        ProviderVerb::FetchReceipt => "Failed to fetch transaction status"@,
        ProviderVerb::FetchBlockNumber => "Failed to fetch block number"@,
    }
}

/// The message of an error.
pub open spec fn message_text(error: WalletError) -> Seq<char> {
    match error {
        WalletError::InvalidAddress => "Invalid address"@,
        WalletError::InvalidPrivateKey => "Invalid private key"@,
        WalletError::InvalidDestinationAddress => "Invalid destination address"@,
        WalletError::InvalidAmount => "Invalid amount"@,
        WalletError::InvalidTransactionHash => "Invalid transaction hash"@,
        WalletError::InsufficientBalance { current, requested, amount } => {
            "Insufficient balance. Current: "@ + ether_text(current@) + " ETH, Requested: "@
                + amount@ + " ETH"@
        },
        WalletError::ProviderError { verb, detail } => verb_text(verb) + ": "@ + detail@,
    }
}

/// The HTTP status under which an error is reported: 400 for what the client
/// got wrong, 500 for a failure of the provider.
pub open spec fn status_of(error: WalletError) -> u16 {
    if error is ProviderError {
        500
    } else {
        400
    }
}

impl ProviderVerb {
    /// How the verb reads at the head of a message.
    pub fn text(&self) -> (text: &'static str)
        ensures
            text@ == verb_text(*self),
    {
        match self {
            ProviderVerb::FetchBalance => "Failed to fetch balance",
            ProviderVerb::FetchNonce => "Failed to fetch nonce",
            ProviderVerb::FetchGasPrice => "Failed to fetch gas price",
            ProviderVerb::FetchChainId => "Failed to fetch chain id",
            ProviderVerb::Sign => "Failed to sign transaction",
            ProviderVerb::Broadcast => "Failed to send transaction",
            ProviderVerb::FetchReceipt => "Failed to fetch transaction status",
            ProviderVerb::FetchBlockNumber => "Failed to fetch block number",
        }
    }
}

impl WalletError {
    /// The message of the error, as a client reads it.
    pub fn message(&self) -> (text: String)
        ensures
            text@ == message_text(*self),
    {
        match self {
            WalletError::InvalidAddress => "Invalid address".to_owned(),
            WalletError::InvalidPrivateKey => "Invalid private key".to_owned(),
            WalletError::InvalidDestinationAddress => "Invalid destination address".to_owned(),
            WalletError::InvalidAmount => "Invalid amount".to_owned(),
            WalletError::InvalidTransactionHash => "Invalid transaction hash".to_owned(),
            WalletError::InsufficientBalance { current, requested: _, amount } => {
                let mut text = "Insufficient balance. Current: ".to_owned();
                let balance = format_ether(current);
                text.append(balance.as_str());
                text.append(" ETH, Requested: ");
                text.append(amount.as_str());
                text.append(" ETH");
                text
            },
            WalletError::ProviderError { verb, detail } => {
                let mut text = verb.text().to_owned();
                text.append(": ");
                text.append(detail.as_str());
                text
            },
        }
    }

    /// The HTTP status under which the error is reported.
    pub fn status_code(&self) -> (code: u16)
        ensures
            code == status_of(*self),
            code == 400 || code == 500,
    {
        match self {
            WalletError::ProviderError { .. } => 500,
            _ => 400,
        }
    }
}

} // verus!

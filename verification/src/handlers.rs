//! What each request is answered with: the HTTP status and the payload, from
//! the outcome of the operation behind it.

use crate::amount::amount_units;
use crate::errors::{message_text, status_of, WalletError};
use crate::hex::fixed_hex;
use crate::keys::parsed_keypair;
use crate::provider::{ProviderCall, Step};
use crate::wallet::{
    send_tokens, SendFlow, SendStep, SendTokenResponse, Transaction, TransactionStatus,
    WalletDetails, WalletInfo,
};
use vstd::prelude::*;

verus! {

/// The body of a transfer request. The amount is in the display unit.
#[derive(Debug, PartialEq, Eq)]
pub struct SendTokenRequest {
    pub from_private_key: String,
    pub to_address: String,
    pub amount: String,
}

/// What an answer carries. An error carries its message.
#[derive(Debug, PartialEq, Eq)]
pub enum Payload {
    Wallet(WalletInfo),
    Balance(String),
    Details(WalletDetails),
    Sent(SendTokenResponse),
    Status(TransactionStatus),
    Transactions(Vec<Transaction>),
    Error(String),
}

/// An answer: the HTTP status, and what it carries.
#[derive(Debug, PartialEq, Eq)]
pub struct HttpReply {
    pub status: u16,
    pub payload: Payload,
}

impl SendTokenRequest {
    /// Starts the transfer that the request asks for.
    pub fn start(&self) -> (step: SendStep)
        ensures
            parsed_keypair(self.from_private_key@) is None ==> step == SendStep::Done(
                Err(WalletError::InvalidPrivateKey),
            ),
            parsed_keypair(self.from_private_key@) is Some && fixed_hex(self.to_address@, 20)
                is None ==> step == SendStep::Done(Err(WalletError::InvalidDestinationAddress)),
            parsed_keypair(self.from_private_key@) is Some && fixed_hex(self.to_address@, 20)
                is Some && amount_units(self.amount@) is None ==> step == SendStep::Done(
                Err(WalletError::InvalidAmount),
            ),
            (parsed_keypair(self.from_private_key@) is Some && fixed_hex(self.to_address@, 20)
                is Some && amount_units(self.amount@) is Some) ==> (step matches Step::Ask(
                ProviderCall::Balance(asked),
                SendFlow::AwaitBalance(transfer),
            ) && asked == transfer.sender.address && transfer.sender@ == parsed_keypair(
                self.from_private_key@,
            ).unwrap() && transfer.to@ == fixed_hex(self.to_address@, 20).unwrap()
                && transfer.value@ == amount_units(self.amount@).unwrap() && transfer.amount@
                == self.amount@),
    {
        send_tokens(self.from_private_key.as_str(), self.to_address.as_str(), self.amount.as_str())
    }
}

/// Whether `reply` reports `error`: under the status of its kind, with its
/// message.
pub open spec fn reports(reply: HttpReply, error: WalletError) -> bool {
    &&& reply.status == status_of(error)
    &&& reply.payload matches Payload::Error(message) && message@ == message_text(error)
}

/// The answer to a failed request: the status of the error's kind, and its
/// message.
pub fn error_reply(error: &WalletError) -> (reply: HttpReply)
    ensures
        reports(reply, *error),
{
    HttpReply { status: error.status_code(), payload: Payload::Error(error.message()) }
}

/// The answer to the making of a wallet: always a success.
pub fn generate_wallet_handler(wallet: WalletInfo) -> (reply: HttpReply)
    ensures
        reply == (HttpReply { status: 200, payload: Payload::Wallet(wallet) }),
{
    HttpReply { status: 200, payload: Payload::Wallet(wallet) }
}

/// The answer to a balance query.
pub fn get_balance_handler(outcome: Result<String, WalletError>) -> (reply: HttpReply)
    ensures
        outcome matches Ok(balance) ==> reply == (HttpReply {
            status: 200,
            payload: Payload::Balance(balance),
        }),
        outcome matches Err(error) ==> reports(reply, error),
{
    match outcome {
        Ok(balance) => HttpReply { status: 200, payload: Payload::Balance(balance) },
        Err(error) => error_reply(&error),
    }
}

/// The answer to an account query.
pub fn get_wallet_info_handler(outcome: Result<WalletDetails, WalletError>) -> (reply: HttpReply)
    ensures
        outcome matches Ok(details) ==> reply == (HttpReply {
            status: 200,
            payload: Payload::Details(details),
        }),
        outcome matches Err(error) ==> reports(reply, error),
{
    match outcome {
        Ok(details) => HttpReply { status: 200, payload: Payload::Details(details) },
        Err(error) => error_reply(&error),
    }
}

/// The answer to a transfer: 400 for what the client got wrong, an
/// insufficient balance among it, and 500 for a failure of the provider.
pub fn send_tokens_handler(outcome: Result<SendTokenResponse, WalletError>) -> (reply: HttpReply)
    ensures
        outcome matches Ok(sent) ==> reply == (HttpReply {
            status: 200,
            payload: Payload::Sent(sent),
        }),
        outcome matches Err(error) ==> reports(reply, error),
{
    match outcome {
        Ok(sent) => HttpReply { status: 200, payload: Payload::Sent(sent) },
        Err(error) => error_reply(&error),
    }
}

/// The answer to a status query. A pending transaction is a success.
pub fn get_transaction_status_handler(outcome: Result<TransactionStatus, WalletError>) -> (reply:
    HttpReply)
    ensures
        outcome matches Ok(status) ==> reply == (HttpReply {
            status: 200,
            payload: Payload::Status(status),
        }),
        outcome matches Err(error) ==> reports(reply, error),
{
    match outcome {
        Ok(status) => HttpReply { status: 200, payload: Payload::Status(status) },
        Err(error) => error_reply(&error),
    }
}

/// The answer to a listing of transactions: every failure is the
/// explorer's, and reported as 500 with its message.
pub fn get_transactions_handler(outcome: Result<Vec<Transaction>, String>) -> (reply: HttpReply)
    ensures
        outcome matches Ok(transactions) ==> reply == (HttpReply {
            status: 200,
            payload: Payload::Transactions(transactions),
        }),
        outcome matches Err(message) ==> reply == (HttpReply {
            status: 500,
            payload: Payload::Error(message),
        }),
{
    match outcome {
        Ok(transactions) => HttpReply { status: 200, payload: Payload::Transactions(transactions) },
        Err(message) => HttpReply { status: 500, payload: Payload::Error(message) },
    }
}

} // verus!

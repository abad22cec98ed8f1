//! The wallet operations: generation of a wallet, and the operations on the
//! chain as state machines over the provider's replies.

use crate::address::{
    checksum_text, is_text_then_blanks, matches_checksum, prefixed_hex_text, Address, TxHash,
};
use crate::amount::{amount_units, ether_text, format_ether, parse_amount};
use crate::errors::{ProviderVerb, WalletError};
use crate::hex::{fixed_hex, lower_hex_text, push_lower_hex};
use crate::keys::{
    chain_id_in_range, derive_keypair, derived_keypair, english_phrase, fresh_entropy,
    bound_to_chain, mnemonic_phrase, parse_keypair, parsed_keypair, sign_transfer, signed_bytes,
    signed_transfer, spaces_in, transfer_signature, Keypair, KeypairView, UnsignedTransaction,
    TRANSFER_GAS,
};
use crate::provider::{ProviderCall, ProviderReply, Receipt, Step};
use crate::uint256::{decimal_string, decimal_text, Uint256};
use vstd::prelude::*;
use vstd::string::StringExecFns;

verus! {

/// A freshly made wallet. It is handed out once and kept nowhere.
#[derive(Debug, PartialEq, Eq)]
pub struct WalletInfo {
    pub address: String,
    pub private_key: String,
    pub mnemonic: String,
}

/// A wallet as three texts.
pub struct WalletInfoView {
    pub address: Seq<char>,
    pub private_key: Seq<char>,
    pub mnemonic: Seq<char>,
}

impl View for WalletInfo {
    type V = WalletInfoView;

    open spec fn view(&self) -> WalletInfoView {
        WalletInfoView {
            address: self.address@,
            private_key: self.private_key@,
            mnemonic: self.mnemonic@,
        }
    }
}

/// The wallet of a key pair and the phrase it was derived from: the address
/// in its checksummed text, the private key as sixty-four digits.
pub open spec fn wallet_of_keypair(pair: KeypairView, phrase: Seq<char>) -> WalletInfoView {
    WalletInfoView {
        address: checksum_text(pair.address),
        private_key: lower_hex_text(pair.secret),
        mnemonic: phrase,
    }
}

/// The wallet that a phrase derives, if it derives one.
pub open spec fn wallet_of_phrase(phrase: Seq<char>) -> Option<WalletInfoView> {
    match derived_keypair(phrase) {
        Some(pair) => Some(wallet_of_keypair(pair, phrase)),
        None => None,
    }
}

/// The wallet of sixteen bytes of entropy: that of their phrase.
pub open spec fn wallet_of_entropy(entropy: Seq<u8>) -> Option<WalletInfoView> {
    wallet_of_phrase(mnemonic_phrase(entropy))
}

/// Writes out the wallet of a key pair and its phrase.
pub fn wallet_info(pair: &Keypair, phrase: String) -> (wallet: WalletInfo)
    ensures
        wallet@ == wallet_of_keypair(pair@, phrase@),
        wallet.address@.len() == 42,
        wallet.private_key@.len() == 64,
{
    let mut private_key = String::new();
    push_lower_hex(&mut private_key, pair.secret.as_slice());
    assert(private_key@ =~= lower_hex_text(pair.secret@));
    WalletInfo { address: pair.address.to_checksum(), private_key, mnemonic: phrase }
}

/// Derives the wallet of a mnemonic phrase, at the standard path.
pub fn wallet_from_mnemonic(phrase: &str) -> (wallet: Option<WalletInfo>)
    ensures
        wallet matches Some(w) ==> wallet_of_phrase(phrase@) == Some(w@),
        wallet matches Some(w) ==> w.address@.len() == 42 && w.private_key@.len() == 64,
        wallet is None ==> wallet_of_phrase(phrase@) is None,
{
    match derive_keypair(phrase) {
        Some(pair) => Some(wallet_info(&pair, phrase.to_owned())),
        None => None,
    }
}

/// Derives the wallet of sixteen bytes of entropy: the same entropy gives the
/// same phrase, address and private key, whenever and wherever it is asked.
pub fn wallet_from_entropy(entropy: &[u8; 16]) -> (wallet: Option<WalletInfo>)
    ensures
        wallet matches Some(w) ==> wallet_of_entropy(entropy@) == Some(w@),
        wallet matches Some(w) ==> w.address@.len() == 42 && w.private_key@.len() == 64
            && spaces_in(w.mnemonic@) == 11,
        wallet is None ==> wallet_of_entropy(entropy@) is None,
{
    let phrase = english_phrase(entropy).unwrap();
    wallet_from_mnemonic(phrase.as_str())
}

/// Makes a new wallet from sixteen bytes of fresh entropy. Whatever the
/// entropy was, the wallet is the one that it determines. Nothing comes back
/// only where the entropy drawn is one whose phrase derives no key.
pub fn generate_wallet() -> (wallet: Option<WalletInfo>)
    ensures
        wallet matches Some(w) ==> exists|entropy: Seq<u8>|
            entropy.len() == 16 && #[trigger] wallet_of_entropy(entropy) == Some(w@),
        wallet matches Some(w) ==> w.address@.len() == 42 && w.private_key@.len() == 64
            && spaces_in(w.mnemonic@) == 11,
        wallet is None ==> exists|entropy: Seq<u8>|
            entropy.len() == 16 && #[trigger] wallet_of_entropy(entropy) is None,
{
    let entropy = fresh_entropy();
    wallet_from_entropy(&entropy)
}

/// Generation is deterministic: two wallets of the same entropy have the
/// same phrase, the same address and the same private key.
pub proof fn lemma_generation_is_deterministic(
    entropy: Seq<u8>,
    first: WalletInfoView,
    second: WalletInfoView,
)
    requires
        wallet_of_entropy(entropy) == Some(first),
        wallet_of_entropy(entropy) == Some(second),
    ensures
        first.mnemonic == second.mnemonic,
        first.address == second.address,
        first.private_key == second.private_key,
        first.mnemonic == mnemonic_phrase(entropy),
{
}

/// A generated phrase leads back to its wallet: deriving from the phrase of
/// a wallet gives the same address and key as were handed out with it.
pub proof fn lemma_mnemonic_round_trip(entropy: Seq<u8>)
    ensures
        wallet_of_entropy(entropy) matches Some(w) ==> wallet_of_phrase(w.mnemonic) == Some(w),
{
}

/// The state of a balance query: what is awaited is the balance of the
/// address.
#[derive(Debug, Clone, Copy, PartialEq, Eq)]
pub struct BalanceFlow {
    pub address: Address,
}

/// A step of a balance query.
pub type BalanceStep = Step<BalanceFlow, String>;

impl BalanceFlow {
    /// The replies that the query can be resumed with: a balance, or a
    /// failure.
    pub open spec fn accepts(self, reply: ProviderReply) -> bool {
        reply is Failed || reply is Quantity
    }

    /// Whether the query can be resumed with `reply`.
    pub fn can_resume(&self, reply: &ProviderReply) -> (fits: bool)
        ensures
            fits == self.accepts(*reply),
    {
        match reply {
            ProviderReply::Failed(_) => true,
            ProviderReply::Quantity(_) => true,
            _ => false,
        }
    }

    /// Ends the query: the balance in the display unit, or the provider's
    /// failure.
    pub fn resume(self, reply: ProviderReply) -> (step: BalanceStep)
        requires
            self.accepts(reply),
        ensures
            reply matches ProviderReply::Quantity(balance) ==> (step matches Step::Done(Ok(text))
                && text@ == ether_text(balance@)),
            reply matches ProviderReply::Failed(detail) ==> step == BalanceStep::Done(
                Err(WalletError::ProviderError { verb: ProviderVerb::FetchBalance, detail }),
            ),
    {
        match reply {
            ProviderReply::Quantity(balance) => Step::Done(Ok(format_ether(&balance))),
            ProviderReply::Failed(detail) => Step::Done(
                Err(WalletError::ProviderError { verb: ProviderVerb::FetchBalance, detail }),
            ),
            _ => vstd::pervasive::unreached(),
        }
    }
}

/// Starts a balance query. A text that is no address ends it at once, and
/// the provider is never asked; else the balance of the address is asked
/// for.
pub fn get_balance(address: &str) -> (step: BalanceStep)
    ensures
        fixed_hex(address@, 20) is None ==> step == BalanceStep::Done(
            Err(WalletError::InvalidAddress),
        ),
        fixed_hex(address@, 20) matches Some(a) ==> (step matches Step::Ask(
            ProviderCall::Balance(asked),
            flow,
        ) && asked@ == a && flow.address == asked),
{
    match Address::parse(address) {
        Some(parsed) => Step::Ask(ProviderCall::Balance(parsed), BalanceFlow { address: parsed }),
        None => Step::Done(Err(WalletError::InvalidAddress)),
    }
}

/// What is known of a transaction once its receipt was asked for.
#[derive(Debug, PartialEq, Eq)]
pub struct TransactionStatus {
    pub transaction_hash: String,
    pub status: String,
    pub block_number: Option<u64>,
    pub gas_used: Option<String>,
    pub confirmations: u64,
}

/// How a receipt reads: "success" for a status code other than zero,
/// "failed" for zero and for a receipt without a code.
pub open spec fn outcome_text(receipt: Receipt) -> Seq<char> {
    if receipt.status matches Some(code) && code != 0 {
        "success"@
    } else {
        "failed"@
    }
}

/// The blocks from the one that holds the transaction to the head of the
/// chain: the difference of their numbers, and zero where the head seems to
/// lie before the block.
pub open spec fn confirmations_of(receipt: Receipt, head: u64) -> u64 {
    let included: u64 = match receipt.block_number {
        Some(number) => number,
        None => 0,
    };
    if head >= included {
        (head - included) as u64
    } else {
        0
    }
}

/// Whether `status` is what a receipt and the head of the chain say of a
/// mined transaction.
pub open spec fn describes_mined(
    status: TransactionStatus,
    hash: TxHash,
    receipt: Receipt,
    head: u64,
) -> bool {
    &&& status.transaction_hash@ == prefixed_hex_text(hash@)
    &&& status.status@ == outcome_text(receipt)
    &&& status.block_number == receipt.block_number
    &&& match receipt.gas_used {
        Some(gas) => status.gas_used matches Some(text) && text@ == decimal_text(gas@),
        None => status.gas_used is None,
    }
    &&& status.confirmations == confirmations_of(receipt, head)
}

/// Whether `status` is that of a transaction without a receipt: pending,
/// and nothing else known.
pub open spec fn describes_pending(status: TransactionStatus, hash: TxHash) -> bool {
    &&& status.transaction_hash@ == prefixed_hex_text(hash@)
    &&& status.status@ == "pending"@
    &&& status.block_number is None
    &&& status.gas_used is None
    &&& status.confirmations == 0
}

/// The status of a mined transaction, from its receipt and the number of the
/// block at the head of the chain.
pub fn mined_status(hash: &TxHash, receipt: &Receipt, head: u64) -> (status: TransactionStatus)
    ensures
        describes_mined(status, *hash, *receipt, head),
{
    let succeeded = match receipt.status {
        Some(code) => code != 0,
        None => false,
    };
    let outcome = if succeeded {
        "success"
    } else {
        "failed"
    };
    let included: u64 = match receipt.block_number {
        Some(number) => number,
        None => 0,
    };
    let gas_used = match &receipt.gas_used {
        Some(gas) => Some(decimal_string(gas)),
        None => None,
    };
    TransactionStatus {
        transaction_hash: hash.to_lower_hex(),
        status: outcome.to_owned(),
        block_number: receipt.block_number,
        gas_used,
        confirmations: head.saturating_sub(included),
    }
}

/// The status of a transaction that has no receipt yet.
pub fn pending_status(hash: &TxHash) -> (status: TransactionStatus)
    ensures
        describes_pending(status, *hash),
{
    TransactionStatus {
        transaction_hash: hash.to_lower_hex(),
        status: "pending".to_owned(),
        block_number: None,
        gas_used: None,
        confirmations: 0,
    }
}

/// The state of a status query.
#[derive(Debug, Clone, Copy, PartialEq, Eq)]
pub enum StatusFlow {
    /// The receipt of the transaction is awaited.
    AwaitReceipt(TxHash),
    /// The receipt is there; the number of the head block is awaited.
    AwaitHead(TxHash, Receipt),
}

/// A step of a status query.
pub type StatusStep = Step<StatusFlow, TransactionStatus>;

impl StatusFlow {
    /// The replies that the query can be resumed with: what it awaits, or a
    /// failure.
    pub open spec fn accepts(self, reply: ProviderReply) -> bool {
        match self {
            StatusFlow::AwaitReceipt(_) => reply is Failed || reply is Receipt,
            StatusFlow::AwaitHead(_, _) => reply is Failed || reply is Number,
        }
    }

    /// Whether the query can be resumed with `reply`.
    pub fn can_resume(&self, reply: &ProviderReply) -> (fits: bool)
        ensures
            fits == self.accepts(*reply),
    {
        match (self, reply) {
            (_, ProviderReply::Failed(_)) => true,
            (StatusFlow::AwaitReceipt(_), ProviderReply::Receipt(_)) => true,
            (StatusFlow::AwaitHead(_, _), ProviderReply::Number(_)) => true,
            _ => false,
        }
    }

    /// Takes the query one step on. Without a receipt the transaction is
    /// pending, which is no error. With one, the head of the chain is asked
    /// for, and its number ends the query. A failure of the provider ends it
    /// with the verb that failed.
    pub fn resume(self, reply: ProviderReply) -> (step: StatusStep)
        requires
            self.accepts(reply),
        ensures
            (match (self, reply) {
                (StatusFlow::AwaitReceipt(_), ProviderReply::Failed(detail)) => step
                    == StatusStep::Done(
                    Err(WalletError::ProviderError { verb: ProviderVerb::FetchReceipt, detail }),
                ),
                (StatusFlow::AwaitReceipt(hash), ProviderReply::Receipt(None)) => {
                    step matches Step::Done(Ok(status)) && describes_pending(status, hash)
                },
                (StatusFlow::AwaitReceipt(hash), ProviderReply::Receipt(Some(receipt))) => step
                    == StatusStep::Ask(
                    ProviderCall::BlockNumber,
                    StatusFlow::AwaitHead(hash, receipt),
                ),
                (StatusFlow::AwaitHead(_, _), ProviderReply::Failed(detail)) => step
                    == StatusStep::Done(
                    Err(
                        WalletError::ProviderError {
                            verb: ProviderVerb::FetchBlockNumber,
                            detail,
                        },
                    ),
                ),
                (StatusFlow::AwaitHead(hash, receipt), ProviderReply::Number(head)) => {
                    step matches Step::Done(Ok(status)) && describes_mined(
                        status,
                        hash,
                        receipt,
                        head,
                    )
                },
                _ => true,
            }),
    {
        match self {
            StatusFlow::AwaitReceipt(hash) => match reply {
                ProviderReply::Failed(detail) => Step::Done(
                    Err(WalletError::ProviderError { verb: ProviderVerb::FetchReceipt, detail }),
                ),
                ProviderReply::Receipt(None) => Step::Done(Ok(pending_status(&hash))),
                ProviderReply::Receipt(Some(receipt)) => Step::Ask(
                    ProviderCall::BlockNumber,
                    StatusFlow::AwaitHead(hash, receipt),
                ),
                _ => vstd::pervasive::unreached(),
            },
            StatusFlow::AwaitHead(hash, receipt) => match reply {
                ProviderReply::Failed(detail) => Step::Done(
                    Err(
                        WalletError::ProviderError {
                            verb: ProviderVerb::FetchBlockNumber,
                            detail,
                        },
                    ),
                ),
                ProviderReply::Number(head) => Step::Done(
                    Ok(mined_status(&hash, &receipt, head)),
                ),
                _ => vstd::pervasive::unreached(),
            },
        }
    }
}

/// Starts a status query. A text that is no transaction hash ends it at
/// once; else the receipt of the transaction is asked for.
pub fn get_transaction_status(tx_hash: &str) -> (step: StatusStep)
    ensures
        fixed_hex(tx_hash@, 32) is None ==> step == StatusStep::Done(
            Err(WalletError::InvalidTransactionHash),
        ),
        fixed_hex(tx_hash@, 32) matches Some(h) ==> (step matches Step::Ask(
            ProviderCall::TransactionReceipt(asked),
            StatusFlow::AwaitReceipt(hash),
        ) && asked@ == h && hash == asked),
{
    match TxHash::parse(tx_hash) {
        Some(hash) => Step::Ask(
            ProviderCall::TransactionReceipt(hash),
            StatusFlow::AwaitReceipt(hash),
        ),
        None => Step::Done(Err(WalletError::InvalidTransactionHash)),
    }
}

/// What is known of an account.
#[derive(Debug, PartialEq, Eq)]
pub struct WalletDetails {
    pub address: String,
    pub address_lowercase: String,
    pub address_checksum: String,
    pub is_checksum_valid: bool,
    pub network: String,
    pub explorer_url: String,
    pub balance: String,
    pub nonce: u64,
    pub is_contract: bool,
}

/// What an account query was started with: the address and its checksummed
/// text, whether the text that named it was that text, and what the
/// configuration says of the network.
#[derive(Debug, PartialEq, Eq)]
pub struct InfoRequest {
    pub address: Address,
    pub checksum: String,
    pub is_checksum_valid: bool,
    pub network: String,
    pub explorer_base: String,
}

/// The name of the network: "unknown" where none is configured.
pub open spec fn network_name(configured: Option<String>) -> Seq<char> {
    match configured {
        Some(name) => name@,
        None => "unknown"@,
    }
}

/// The prefix of explorer links: empty where none is configured.
pub open spec fn explorer_prefix(configured: Option<String>) -> Seq<char> {
    match configured {
        Some(prefix) => prefix@,
        None => Seq::empty(),
    }
}

/// Whether `details` is what a request and the three answers of the provider
/// say of an account.
pub open spec fn describes_account(
    details: WalletDetails,
    request: InfoRequest,
    balance: Uint256,
    nonce: u64,
    is_contract: bool,
) -> bool {
    &&& details.address@ == request.checksum@
    &&& details.address_lowercase@ == prefixed_hex_text(request.address@)
    &&& details.address_checksum@ == request.checksum@
    &&& details.is_checksum_valid == request.is_checksum_valid
    &&& details.network@ == request.network@
    &&& details.explorer_url@ == request.explorer_base@ + request.checksum@
    &&& details.balance@ == ether_text(balance@)
    &&& details.nonce == nonce
    &&& details.is_contract == is_contract
}

/// Puts together what is known of an account.
pub fn wallet_details(request: InfoRequest, balance: &Uint256, nonce: u64, is_contract: bool) -> (details:
    WalletDetails)
    ensures
        describes_account(details, request, *balance, nonce, is_contract),
{
    let mut explorer_url = request.explorer_base;
    explorer_url.append(request.checksum.as_str());
    WalletDetails {
        address: request.checksum.clone(),
        address_lowercase: request.address.to_lower_hex(),
        address_checksum: request.checksum,
        is_checksum_valid: request.is_checksum_valid,
        network: request.network,
        explorer_url,
        balance: format_ether(balance),
        nonce,
        is_contract,
    }
}

/// The state of an account query. Balance, nonce and code are asked for one
/// after the other, and each is best effort: one that the provider fails to
/// give counts as zero, or as no code.
#[derive(Debug, PartialEq, Eq)]
pub enum InfoFlow {
    AwaitBalance(InfoRequest),
    AwaitNonce(InfoRequest, Uint256),
    AwaitCode(InfoRequest, Uint256, u64),
}

/// A step of an account query.
pub type InfoStep = Step<InfoFlow, WalletDetails>;

impl InfoFlow {
    /// The replies that the query can be resumed with: what it awaits, or a
    /// failure. A nonce has to fit in 64 bits.
    pub open spec fn accepts(self, reply: ProviderReply) -> bool {
        match self {
            InfoFlow::AwaitBalance(_) => reply is Failed || reply is Quantity,
            InfoFlow::AwaitNonce(_, _) => reply is Failed || (reply matches ProviderReply::Quantity(
                nonce,
            ) && nonce@ <= u64::MAX),
            InfoFlow::AwaitCode(_, _, _) => reply is Failed || reply is Code,
        }
    }

    /// Whether the query can be resumed with `reply`.
    pub fn can_resume(&self, reply: &ProviderReply) -> (fits: bool)
        ensures
            fits == self.accepts(*reply),
    {
        match (self, reply) {
            (_, ProviderReply::Failed(_)) => true,
            (InfoFlow::AwaitBalance(_), ProviderReply::Quantity(_)) => true,
            (InfoFlow::AwaitNonce(_, _), ProviderReply::Quantity(nonce)) => nonce.to_u64().is_some(),
            (InfoFlow::AwaitCode(_, _, _), ProviderReply::Code(_)) => true,
            _ => false,
        }
    }

    /// Takes the query one step on. No reply ends it with an error.
    pub fn resume(self, reply: ProviderReply) -> (step: InfoStep)
        requires
            self.accepts(reply),
        ensures
            (match (self, reply) {
                (InfoFlow::AwaitBalance(request), ProviderReply::Quantity(balance)) => step
                    == InfoStep::Ask(
                    ProviderCall::TransactionCount(request.address),
                    InfoFlow::AwaitNonce(request, balance),
                ),
                (InfoFlow::AwaitBalance(request), ProviderReply::Failed(_)) => {
                    step matches Step::Ask(
                        ProviderCall::TransactionCount(asked),
                        InfoFlow::AwaitNonce(kept, balance),
                    ) && asked == request.address && kept == request && balance@ == 0
                },
                (InfoFlow::AwaitNonce(request, balance), ProviderReply::Quantity(nonce)) => step
                    == InfoStep::Ask(
                    ProviderCall::Code(request.address),
                    InfoFlow::AwaitCode(request, balance, nonce@ as u64),
                ),
                (InfoFlow::AwaitNonce(request, balance), ProviderReply::Failed(_)) => step
                    == InfoStep::Ask(
                    ProviderCall::Code(request.address),
                    InfoFlow::AwaitCode(request, balance, 0),
                ),
                (InfoFlow::AwaitCode(request, balance, nonce), ProviderReply::Code(code)) => {
                    step matches Step::Done(Ok(details)) && describes_account(
                        details,
                        request,
                        balance,
                        nonce,
                        code@.len() > 0,
                    )
                },
                (InfoFlow::AwaitCode(request, balance, nonce), ProviderReply::Failed(_)) => {
                    step matches Step::Done(Ok(details)) && describes_account(
                        details,
                        request,
                        balance,
                        nonce,
                        false,
                    )
                },
                _ => true,
            }),
    {
        match self {
            InfoFlow::AwaitBalance(request) => {
                let balance = match reply {
                    ProviderReply::Quantity(balance) => balance,
                    _ => Uint256::zero(),
                };
                Step::Ask(
                    ProviderCall::TransactionCount(request.address),
                    InfoFlow::AwaitNonce(request, balance),
                )
            },
            InfoFlow::AwaitNonce(request, balance) => {
                let nonce: u64 = match reply {
                    ProviderReply::Quantity(nonce) => nonce.to_u64().unwrap(),
                    _ => 0,
                };
                Step::Ask(
                    ProviderCall::Code(request.address),
                    InfoFlow::AwaitCode(request, balance, nonce),
                )
            },
            InfoFlow::AwaitCode(request, balance, nonce) => {
                let is_contract = match reply {
                    ProviderReply::Code(code) => code.len() > 0,
                    _ => false,
                };
                Step::Done(Ok(wallet_details(request, &balance, nonce, is_contract)))
            },
        }
    }
}

/// The request of an account query, from the text that named the account,
/// the address that it stands for, and the checksummed text of that address.
pub fn info_request(
    address: &str,
    account: Address,
    checksum: String,
    network: Option<String>,
    explorer_base: Option<String>,
) -> (request: InfoRequest)
    ensures
        request.address == account,
        request.checksum == checksum,
        request.is_checksum_valid == matches_checksum(address@, checksum@),
        request.network@ == network_name(network),
        request.explorer_base@ == explorer_prefix(explorer_base),
{
    let network = match network {
        Some(name) => name,
        None => "unknown".to_owned(),
    };
    let explorer_base = match explorer_base {
        Some(prefix) => prefix,
        None => String::new(),
    };
    let is_checksum_valid = is_text_then_blanks(address, checksum.as_str());
    InfoRequest { address: account, checksum, is_checksum_valid, network, explorer_base }
}

/// Starts an account query. A text that is no address ends it at once; else
/// the balance of the address is asked for first. The name of the network
/// and the prefix of explorer links come from the configuration.
pub fn get_wallet_info(address: &str, network: Option<String>, explorer_base: Option<String>) -> (step:
    InfoStep)
    ensures
        fixed_hex(address@, 20) is None ==> step == InfoStep::Done(
            Err(WalletError::InvalidAddress),
        ),
        fixed_hex(address@, 20) matches Some(a) ==> (step matches Step::Ask(
            ProviderCall::Balance(asked),
            InfoFlow::AwaitBalance(request),
        ) && asked@ == a && request.address == asked && request.checksum@ == checksum_text(a)
            && request.is_checksum_valid == matches_checksum(address@, checksum_text(a))
            && request.network@ == network_name(network) && request.explorer_base@
            == explorer_prefix(explorer_base)),
{
    match Address::parse(address) {
        None => Step::Done(Err(WalletError::InvalidAddress)),
        Some(account) => {
            let checksum = account.to_checksum();
            let request = info_request(address, account, checksum, network, explorer_base);
            Step::Ask(ProviderCall::Balance(account), InfoFlow::AwaitBalance(request))
        },
    }
}

/// What a transfer reports once it was broadcast. The gas that it uses is
/// not known before it is mined, so none is given.
#[derive(Debug, PartialEq, Eq)]
pub struct SendTokenResponse {
    pub transaction_hash: String,
    pub from_address: String,
    pub to_address: String,
    pub amount: String,
    pub gas_used: Option<String>,
}

/// A transfer that passed validation: who sends, to whom, how much in the
/// smallest unit, and the amount as it was asked for.
#[derive(Debug, PartialEq, Eq)]
pub struct Transfer {
    pub sender: Keypair,
    pub to: Address,
    pub value: Uint256,
    pub amount: String,
}

/// The state of a transfer. Each state awaits one reply of the provider.
#[derive(Debug, PartialEq, Eq)]
pub enum SendFlow {
    /// The balance of the sender is awaited.
    AwaitBalance(Transfer),
    /// The balance suffices; the gas price is awaited.
    AwaitGasPrice(Transfer),
    /// The gas price is known; the nonce of the sender is awaited.
    AwaitNonce(Transfer, Uint256),
    /// The transaction is assembled; the chain id is awaited.
    AwaitChainId(Transfer, UnsignedTransaction),
    /// The signed transaction was handed out; its hash is awaited.
    AwaitBroadcast(Transfer),
}

/// A step of a transfer.
pub type SendStep = Step<SendFlow, SendTokenResponse>;

/// The transaction of a transfer at a gas price and a nonce: the gas limit
/// is that of a plain transfer.
pub open spec fn assembled(transfer: Transfer, gas_price: Uint256, nonce: Uint256) -> UnsignedTransaction {
    UnsignedTransaction {
        to: transfer.to,
        value: transfer.value,
        gas_limit: 21000,
        gas_price,
        nonce,
    }
}

/// Whether `response` is the report of a transfer that was broadcast under
/// `hash`.
pub open spec fn describes_sent(response: SendTokenResponse, transfer: Transfer, hash: TxHash) -> bool {
    &&& response.transaction_hash@ == prefixed_hex_text(hash@)
    &&& response.from_address@ == checksum_text(transfer.sender.address@)
    &&& response.to_address@ == checksum_text(transfer.to@)
    &&& response.amount@ == transfer.amount@
    &&& response.gas_used is None
}

/// The check of funds. A balance below the amount ends the transfer with
/// both numbers; nothing is signed and nothing is broadcast. Else the gas
/// price is asked for.
pub fn check_funds(transfer: Transfer, balance: Uint256) -> (step: SendStep)
    ensures
        balance@ < transfer.value@ ==> step == SendStep::Done(
            Err(
                WalletError::InsufficientBalance {
                    current: balance,
                    requested: transfer.value,
                    amount: transfer.amount,
                },
            ),
        ),
        balance@ >= transfer.value@ ==> step == SendStep::Ask(
            ProviderCall::GasPrice,
            SendFlow::AwaitGasPrice(transfer),
        ),
{
    if balance.lt(&transfer.value) {
        Step::Done(
            Err(
                WalletError::InsufficientBalance {
                    current: balance,
                    requested: transfer.value,
                    amount: transfer.amount,
                },
            ),
        )
    } else {
        Step::Ask(ProviderCall::GasPrice, SendFlow::AwaitGasPrice(transfer))
    }
}

/// Signs a transfer for a chain and writes it in its wire form.
pub fn sign_and_encode(secret: &[u8; 32], tx: &UnsignedTransaction, chain_id: u64) -> (signed:
    Result<Vec<u8>, String>)
    requires
        chain_id_in_range(chain_id),
    ensures
        transfer_signature(secret@, tx@, chain_id) matches Some(signature) ==> (signed matches Ok(
            raw,
        ) && raw@ == signed_transfer(tx@, signature) && bound_to_chain(signature.v, chain_id)),
        transfer_signature(secret@, tx@, chain_id) is None ==> signed is Err,
{
    match sign_transfer(secret, tx, chain_id) {
        Ok(signature) => Ok(signed_bytes(tx, &signature)),
        Err(detail) => Err(detail),
    }
}

/// What follows the signing: the broadcast of the signed transaction, or
/// the end of the transfer where signing failed.
pub fn after_signing(transfer: Transfer, signed: Result<Vec<u8>, String>) -> (step: SendStep)
    ensures
        signed matches Ok(raw) ==> step == SendStep::Ask(
            ProviderCall::SendRawTransaction(raw),
            SendFlow::AwaitBroadcast(transfer),
        ),
        signed matches Err(detail) ==> step == SendStep::Done(
            Err(WalletError::ProviderError { verb: ProviderVerb::Sign, detail }),
        ),
{
    match signed {
        Ok(raw) => Step::Ask(
            ProviderCall::SendRawTransaction(raw),
            SendFlow::AwaitBroadcast(transfer),
        ),
        Err(detail) => Step::Done(
            Err(WalletError::ProviderError { verb: ProviderVerb::Sign, detail }),
        ),
    }
}

/// The report of a transfer that was broadcast under `hash`.
pub fn sent_response(transfer: Transfer, hash: &TxHash) -> (response: SendTokenResponse)
    ensures
        describes_sent(response, transfer, *hash),
{
    SendTokenResponse {
        transaction_hash: hash.to_lower_hex(),
        from_address: transfer.sender.address.to_checksum(),
        to_address: transfer.to.to_checksum(),
        amount: transfer.amount,
        gas_used: None,
    }
}

impl SendFlow {
    /// The replies that the transfer can be resumed with: what it awaits,
    /// or a failure. A chain id has to be one for which the `v` of the
    /// signature fits in 64 bits.
    pub open spec fn accepts(self, reply: ProviderReply) -> bool {
        match self {
            SendFlow::AwaitBalance(_) => reply is Failed || reply is Quantity,
            SendFlow::AwaitGasPrice(_) => reply is Failed || reply is Quantity,
            SendFlow::AwaitNonce(_, _) => reply is Failed || reply is Quantity,
            SendFlow::AwaitChainId(_, _) => reply is Failed || (reply matches ProviderReply::Quantity(
                id,
            ) && id@ <= u64::MAX && chain_id_in_range(id@ as u64)),
            SendFlow::AwaitBroadcast(_) => reply is Failed || reply is Hash,
        }
    }

    /// Whether the transfer can be resumed with `reply`.
    pub fn can_resume(&self, reply: &ProviderReply) -> (fits: bool)
        ensures
            fits == self.accepts(*reply),
    {
        match (self, reply) {
            (_, ProviderReply::Failed(_)) => true,
            (SendFlow::AwaitBalance(_), ProviderReply::Quantity(_)) => true,
            (SendFlow::AwaitGasPrice(_), ProviderReply::Quantity(_)) => true,
            (SendFlow::AwaitNonce(_, _), ProviderReply::Quantity(_)) => true,
            (SendFlow::AwaitChainId(_, _), ProviderReply::Quantity(id)) => match id.to_u64() {
                Some(chain_id) => chain_id <= (u64::MAX - 38) / 2,
                None => false,
            },
            (SendFlow::AwaitBroadcast(_), ProviderReply::Hash(_)) => true,
            _ => false,
        }
    }

    /// Takes the transfer one step on.
    ///
    /// The balance is held against the amount; then gas price and nonce
    /// are asked for and the transaction is assembled with the gas limit of
    /// a plain transfer; then the chain id is asked for and bound into the
    /// signature; then the signed transaction is broadcast. A failure of
    /// the provider ends the transfer with the verb that failed. Nothing is
    /// tried twice, and no nonce is kept from one transfer to the next.
    pub fn resume(self, reply: ProviderReply) -> (step: SendStep)
        requires
            self.accepts(reply),
        ensures
            (match (self, reply) {
                (SendFlow::AwaitBalance(transfer), ProviderReply::Quantity(balance)) => {
                    &&& balance@ < transfer.value@ ==> step == SendStep::Done(
                        Err(
                            WalletError::InsufficientBalance {
                                current: balance,
                                requested: transfer.value,
                                amount: transfer.amount,
                            },
                        ),
                    )
                    &&& balance@ >= transfer.value@ ==> step == SendStep::Ask(
                        ProviderCall::GasPrice,
                        SendFlow::AwaitGasPrice(transfer),
                    )
                },
                (SendFlow::AwaitBalance(_), ProviderReply::Failed(detail)) => step
                    == SendStep::Done(
                    Err(WalletError::ProviderError { verb: ProviderVerb::FetchBalance, detail }),
                ),
                (SendFlow::AwaitGasPrice(transfer), ProviderReply::Quantity(gas_price)) => step
                    == SendStep::Ask(
                    ProviderCall::TransactionCount(transfer.sender.address),
                    SendFlow::AwaitNonce(transfer, gas_price),
                ),
                (SendFlow::AwaitGasPrice(_), ProviderReply::Failed(detail)) => step
                    == SendStep::Done(
                    Err(WalletError::ProviderError { verb: ProviderVerb::FetchGasPrice, detail }),
                ),
                (SendFlow::AwaitNonce(transfer, gas_price), ProviderReply::Quantity(nonce)) => step
                    == SendStep::Ask(
                    ProviderCall::ChainId,
                    SendFlow::AwaitChainId(transfer, assembled(transfer, gas_price, nonce)),
                ),
                (SendFlow::AwaitNonce(_, _), ProviderReply::Failed(detail)) => step
                    == SendStep::Done(
                    Err(WalletError::ProviderError { verb: ProviderVerb::FetchNonce, detail }),
                ),
                (SendFlow::AwaitChainId(transfer, tx), ProviderReply::Quantity(id)) => {
                    match transfer_signature(transfer.sender.secret@, tx@, id@ as u64) {
                        Some(signature) => step matches Step::Ask(
                            ProviderCall::SendRawTransaction(raw),
                            SendFlow::AwaitBroadcast(kept),
                        ) && raw@ == signed_transfer(tx@, signature) && kept == transfer
                            && bound_to_chain(signature.v, id@ as u64),
                        None => step matches Step::Done(
                            Err(WalletError::ProviderError { verb, detail }),
                        ) && verb == ProviderVerb::Sign,
                    }
                },
                (SendFlow::AwaitChainId(_, _), ProviderReply::Failed(detail)) => step
                    == SendStep::Done(
                    Err(WalletError::ProviderError { verb: ProviderVerb::FetchChainId, detail }),
                ),
                (SendFlow::AwaitBroadcast(transfer), ProviderReply::Hash(hash)) => {
                    step matches Step::Done(Ok(response)) && describes_sent(
                        response,
                        transfer,
                        hash,
                    )
                },
                (SendFlow::AwaitBroadcast(_), ProviderReply::Failed(detail)) => step
                    == SendStep::Done(
                    Err(WalletError::ProviderError { verb: ProviderVerb::Broadcast, detail }),
                ),
                _ => true,
            }),
    {
        match self {
            SendFlow::AwaitBalance(transfer) => match reply {
                ProviderReply::Quantity(balance) => check_funds(transfer, balance),
                ProviderReply::Failed(detail) => Step::Done(
                    Err(WalletError::ProviderError { verb: ProviderVerb::FetchBalance, detail }),
                ),
                _ => vstd::pervasive::unreached(),
            },
            SendFlow::AwaitGasPrice(transfer) => match reply {
                ProviderReply::Quantity(gas_price) => Step::Ask(
                    ProviderCall::TransactionCount(transfer.sender.address),
                    SendFlow::AwaitNonce(transfer, gas_price),
                ),
                ProviderReply::Failed(detail) => Step::Done(
                    Err(WalletError::ProviderError { verb: ProviderVerb::FetchGasPrice, detail }),
                ),
                _ => vstd::pervasive::unreached(),
            },
            SendFlow::AwaitNonce(transfer, gas_price) => match reply {
                ProviderReply::Quantity(nonce) => {
                    let tx = UnsignedTransaction {
                        to: transfer.to,
                        value: transfer.value,
                        gas_limit: TRANSFER_GAS,
                        gas_price,
                        nonce,
                    };
                    Step::Ask(ProviderCall::ChainId, SendFlow::AwaitChainId(transfer, tx))
                },
                ProviderReply::Failed(detail) => Step::Done(
                    Err(WalletError::ProviderError { verb: ProviderVerb::FetchNonce, detail }),
                ),
                _ => vstd::pervasive::unreached(),
            },
            SendFlow::AwaitChainId(transfer, tx) => match reply {
                ProviderReply::Quantity(id) => {
                    let chain_id: u64 = id.to_u64().unwrap();
                    let signed = sign_and_encode(&transfer.sender.secret, &tx, chain_id);
                    after_signing(transfer, signed)
                },
                ProviderReply::Failed(detail) => Step::Done(
                    Err(WalletError::ProviderError { verb: ProviderVerb::FetchChainId, detail }),
                ),
                _ => vstd::pervasive::unreached(),
            },
            SendFlow::AwaitBroadcast(transfer) => match reply {
                ProviderReply::Hash(hash) => Step::Done(Ok(sent_response(transfer, &hash))),
                ProviderReply::Failed(detail) => Step::Done(
                    Err(WalletError::ProviderError { verb: ProviderVerb::Broadcast, detail }),
                ),
                _ => vstd::pervasive::unreached(),
            },
        }
    }
}

/// What is signed for a transfer is the transfer itself: the transaction
/// goes to its destination with its value, at the gas price and under the
/// nonce that the provider reported, with the gas limit of a plain transfer.
pub proof fn lemma_assembled_transaction(transfer: Transfer, gas_price: Uint256, nonce: Uint256)
    ensures
        assembled(transfer, gas_price, nonce)@.to == transfer.to@,
        assembled(transfer, gas_price, nonce)@.value == transfer.value@,
        assembled(transfer, gas_price, nonce)@.gas_limit == 21000,
        assembled(transfer, gas_price, nonce)@.gas_price == gas_price@,
        assembled(transfer, gas_price, nonce)@.nonce == nonce@,
{
}

/// Transfers are not coordinated with one another. The nonce of an
/// assembled transaction is the one that the provider reported to that
/// transfer, whatever other transfers of the same sender are under way: two
/// transfers that are told the same nonce both carry it. Such a race is
/// possible, and it is the network that accepts at most one of the two.
pub proof fn lemma_nonce_is_the_providers(
    first: Transfer,
    second: Transfer,
    first_price: Uint256,
    second_price: Uint256,
    nonce: Uint256,
)
    ensures
        assembled(first, first_price, nonce).nonce == nonce,
        assembled(second, second_price, nonce).nonce == assembled(
            first,
            first_price,
            nonce,
        ).nonce,
        assembled(first, first_price, nonce).gas_limit == 21000,
        assembled(first, first_price, nonce).value == first.value,
{
}

/// What follows the reading of the three texts of a transfer. The first
/// that could not be read decides the error: the key, then the
/// destination, then the amount. Where all were read, the balance of the
/// sender is asked for.
pub fn plan_transfer(
    sender: Option<Keypair>,
    to: Option<Address>,
    value: Option<Uint256>,
    amount: &str,
) -> (step: SendStep)
    ensures
        sender is None ==> step == SendStep::Done(Err(WalletError::InvalidPrivateKey)),
        sender is Some && to is None ==> step == SendStep::Done(
            Err(WalletError::InvalidDestinationAddress),
        ),
        sender is Some && to is Some && value is None ==> step == SendStep::Done(
            Err(WalletError::InvalidAmount),
        ),
        (sender matches Some(pair) && to matches Some(destination) && value matches Some(units))
            ==> (step matches Step::Ask(
            ProviderCall::Balance(asked),
            SendFlow::AwaitBalance(transfer),
        ) && asked == sender.unwrap().address && transfer.sender == sender.unwrap() && transfer.to
            == to.unwrap() && transfer.value == value.unwrap() && transfer.amount@ == amount@),
{
    match sender {
        None => Step::Done(Err(WalletError::InvalidPrivateKey)),
        Some(pair) => match to {
            None => Step::Done(Err(WalletError::InvalidDestinationAddress)),
            Some(destination) => match value {
                None => Step::Done(Err(WalletError::InvalidAmount)),
                Some(units) => Step::Ask(
                    ProviderCall::Balance(pair.address),
                    SendFlow::AwaitBalance(
                        Transfer {
                            sender: pair,
                            to: destination,
                            value: units,
                            amount: amount.to_owned(),
                        },
                    ),
                ),
            },
        },
    }
}

/// Starts a transfer of native currency. The three texts are read in turn,
/// and the first that cannot be read ends the transfer with its own error
/// before the provider is asked for anything. Else the balance of the
/// sender is asked for.
pub fn send_tokens(from_private_key: &str, to_address: &str, amount: &str) -> (step: SendStep)
    ensures
        parsed_keypair(from_private_key@) is None ==> step == SendStep::Done(
            Err(WalletError::InvalidPrivateKey),
        ),
        parsed_keypair(from_private_key@) is Some && fixed_hex(to_address@, 20) is None ==> step
            == SendStep::Done(Err(WalletError::InvalidDestinationAddress)),
        parsed_keypair(from_private_key@) is Some && fixed_hex(to_address@, 20) is Some
            && amount_units(amount@) is None ==> step == SendStep::Done(
            Err(WalletError::InvalidAmount),
        ),
        (parsed_keypair(from_private_key@) matches Some(pair) && fixed_hex(
            to_address@,
            20,
        ) matches Some(destination) && amount_units(amount@) matches Some(units)) ==> (
        step matches Step::Ask(ProviderCall::Balance(asked), SendFlow::AwaitBalance(transfer))
            && asked == transfer.sender.address && transfer.sender@ == parsed_keypair(
            from_private_key@,
        ).unwrap() && transfer.to@ == fixed_hex(to_address@, 20).unwrap() && transfer.value@
            == amount_units(amount@).unwrap() && transfer.amount@ == amount@),
{
    let sender = parse_keypair(from_private_key);
    let to = Address::parse(to_address);
    let value = parse_amount(amount);
    plan_transfer(sender, to, value, amount)
}

/// One transaction of an account, as the block explorer lists it: every
/// field is the explorer's text.
#[derive(Debug, PartialEq, Eq)]
pub struct Transaction {
    pub block_number: String,
    pub from: String,
    pub to: String,
    pub value: String,
    pub hash: String,
    pub gas: String,
    pub gas_price: String,
    pub timestamp: String,
    pub input: String,
    pub is_error: String,
    pub receipt_status: String,
}

/// The block explorer's answer to a listing: a status, which is "1" where
/// the listing succeeded, a message, and the transactions.
#[derive(Debug, PartialEq, Eq)]
pub struct TxListResponse {
    pub status: String,
    pub message: String,
    pub result: Vec<Transaction>,
}

/// What a listing asks of whoever runs it.
#[derive(Debug, PartialEq, Eq)]
pub enum ExplorerCall {
    /// An HTTP GET of the address given.
    Fetch(String),
    /// The decoding of a body as the explorer's JSON.
    Decode(String),
}

/// What comes back to a listing.
#[derive(Debug, PartialEq, Eq)]
pub enum ExplorerReply {
    /// The request could not be made; the text is the transport's.
    Unreachable(String),
    /// The body of the response could not be read.
    Unreadable(String),
    /// A response: whether its status is a success, the status as text, and
    /// the body.
    Response { success: bool, status: String, body: String },
    /// The body was not the explorer's JSON; the text is the decoder's.
    Undecodable(String),
    /// The decoded body.
    Decoded(TxListResponse),
}

/// The state of a listing.
#[derive(Debug, PartialEq, Eq)]
pub enum ListFlow {
    /// The response of the explorer is awaited.
    AwaitResponse,
    /// The body is there; its decoding is awaited.
    AwaitDecoded(String),
}

/// A step of a listing: something to do, with the state to resume
/// afterwards, or the end, with the transactions or a message.
#[derive(Debug, PartialEq, Eq)]
pub enum ListStep {
    Ask(ExplorerCall, ListFlow),
    Done(Result<Vec<Transaction>, String>),
}

/// The address at which the explorer lists the transactions of an account,
/// the newest first.
pub open spec fn listing_url(address: Seq<char>) -> Seq<char> {
    "https://rootstock-testnet.blockscout.com/api?module=account&action=txlist&address="@
        + address + "&sort=desc"@
}

/// The address at which the explorer lists the transactions of an account.
pub fn transactions_url(address: &str) -> (url: String)
    ensures
        url@ == listing_url(address@),
{
    let mut url =
        "https://rootstock-testnet.blockscout.com/api?module=account&action=txlist&address=".to_owned();
    url.append(address);
    url.append("&sort=desc");
    url
}

impl ListFlow {
    /// The replies that the listing can be resumed with.
    pub open spec fn accepts(self, reply: ExplorerReply) -> bool {
        match self {
            ListFlow::AwaitResponse => reply is Unreachable || reply is Unreadable
                || reply is Response,
            ListFlow::AwaitDecoded(_) => reply is Undecodable || reply is Decoded,
        }
    }

    /// Whether the listing can be resumed with `reply`.
    pub fn can_resume(&self, reply: &ExplorerReply) -> (fits: bool)
        ensures
            fits == self.accepts(*reply),
    {
        match (self, reply) {
            (ListFlow::AwaitResponse, ExplorerReply::Unreachable(_)) => true,
            (ListFlow::AwaitResponse, ExplorerReply::Unreadable(_)) => true,
            (ListFlow::AwaitResponse, ExplorerReply::Response { .. }) => true,
            (ListFlow::AwaitDecoded(_), ExplorerReply::Undecodable(_)) => true,
            (ListFlow::AwaitDecoded(_), ExplorerReply::Decoded(_)) => true,
            _ => false,
        }
    }

    /// Takes the listing one step on. A response that is no success ends it
    /// with the status and the body; a success has its body decoded. A
    /// decoded answer whose status is not "1" ends the listing with the
    /// explorer's message; else its transactions are the result.
    pub fn resume(self, reply: ExplorerReply) -> (step: ListStep)
        requires
            self.accepts(reply),
        ensures
            (match (self, reply) {
                (ListFlow::AwaitResponse, ExplorerReply::Unreachable(detail)) => {
                    step matches ListStep::Done(Err(message)) && message@
                        == "Failed to fetch transactions: "@ + detail@
                },
                (ListFlow::AwaitResponse, ExplorerReply::Unreadable(detail)) => {
                    step matches ListStep::Done(Err(message)) && message@
                        == "Failed to read response body: "@ + detail@
                },
                (ListFlow::AwaitResponse, ExplorerReply::Response { success, status, body }) => {
                    &&& !success ==> (step matches ListStep::Done(Err(message)) && message@
                        == "HTTP error "@ + status@ + ": "@ + body@)
                    &&& success ==> (step matches ListStep::Ask(
                        ExplorerCall::Decode(asked),
                        ListFlow::AwaitDecoded(kept),
                    ) && asked@ == body@ && kept@ == body@)
                },
                (ListFlow::AwaitDecoded(body), ExplorerReply::Undecodable(detail)) => {
                    step matches ListStep::Done(Err(message)) && message@
                        == "Failed to parse response: "@ + detail@ + "\nRaw: "@ + body@
                },
                (ListFlow::AwaitDecoded(_), ExplorerReply::Decoded(answer)) => {
                    &&& answer.status@ != "1"@ ==> step == ListStep::Done(Err(answer.message))
                    &&& answer.status@ == "1"@ ==> step == ListStep::Done(Ok(answer.result))
                },
                _ => true,
            }),
    {
        match self {
            ListFlow::AwaitResponse => match reply {
                ExplorerReply::Unreachable(detail) => {
                    let mut message = "Failed to fetch transactions: ".to_owned();
                    message.append(detail.as_str());
                    ListStep::Done(Err(message))
                },
                ExplorerReply::Unreadable(detail) => {
                    let mut message = "Failed to read response body: ".to_owned();
                    message.append(detail.as_str());
                    ListStep::Done(Err(message))
                },
                ExplorerReply::Response { success, status, body } => {
                    if success {
                        let kept = body.clone();
                        ListStep::Ask(ExplorerCall::Decode(body), ListFlow::AwaitDecoded(kept))
                    } else {
                        let mut message = "HTTP error ".to_owned();
                        message.append(status.as_str());
                        message.append(": ");
                        message.append(body.as_str());
                        ListStep::Done(Err(message))
                    }
                },
                _ => vstd::pervasive::unreached(),
            },
            ListFlow::AwaitDecoded(body) => match reply {
                ExplorerReply::Undecodable(detail) => {
                    let mut message = "Failed to parse response: ".to_owned();
                    message.append(detail.as_str());
                    message.append("\nRaw: ");
                    message.append(body.as_str());
                    ListStep::Done(Err(message))
                },
                ExplorerReply::Decoded(answer) => {
                    let succeeded = "1".to_owned();
                    if answer.status == succeeded {
                        ListStep::Done(Ok(answer.result))
                    } else {
                        ListStep::Done(Err(answer.message))
                    }
                },
                _ => vstd::pervasive::unreached(),
            },
        }
    }
}

/// Starts the listing of the transactions of an account: the explorer is
/// asked at the address of the listing.
pub fn get_transactions(address: &str) -> (step: ListStep)
    ensures
        step matches ListStep::Ask(ExplorerCall::Fetch(url), ListFlow::AwaitResponse) && url@
            == listing_url(address@),
{
    ListStep::Ask(ExplorerCall::Fetch(transactions_url(address)), ListFlow::AwaitResponse)
}

} // verus!

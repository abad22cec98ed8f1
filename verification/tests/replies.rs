use evm_wallet_api::errors::{ProviderVerb, WalletError};
use evm_wallet_api::handlers::{
    error_reply, generate_wallet_handler, get_balance_handler, get_transaction_status_handler,
    get_transactions_handler, get_wallet_info_handler, send_tokens_handler, HttpReply, Payload,
};
use evm_wallet_api::uint256::Uint256;
use evm_wallet_api::wallet::{
    get_transactions, transactions_url, ExplorerCall, ExplorerReply, ListFlow, ListStep,
    SendTokenResponse, Transaction, TransactionStatus, TxListResponse, WalletDetails, WalletInfo,
};

fn provider_error(verb: ProviderVerb) -> WalletError {
    WalletError::ProviderError { verb, detail: "boom".to_string() }
}

fn insufficient() -> WalletError {
    WalletError::InsufficientBalance {
        current: Uint256::from_u64(50_000_000_000_000_000),
        requested: Uint256::from_u64(100_000_000_000_000_000),
        amount: "0.1".to_string(),
    }
}

fn transaction(hash: &str) -> Transaction {
    Transaction {
        block_number: "100".to_string(),
        from: "0xf39fd6e51aad88f6f4ce6ab8827279cfffb92266".to_string(),
        to: "0x70997970c51812dc3a010c7d01b50e0d17dc79c8".to_string(),
        value: "1".to_string(),
        hash: hash.to_string(),
        gas: "21000".to_string(),
        gas_price: "1000000000".to_string(),
        timestamp: "1700000000".to_string(),
        input: "0x".to_string(),
        is_error: "0".to_string(),
        receipt_status: "1".to_string(),
    }
}

fn error(status: u16, message: &str) -> HttpReply {
    HttpReply { status, payload: Payload::Error(message.to_string()) }
}

#[test]
fn messages_of_the_clients_errors() {
    assert_eq!(WalletError::InvalidAddress.message(), "Invalid address");
    assert_eq!(WalletError::InvalidPrivateKey.message(), "Invalid private key");
    assert_eq!(WalletError::InvalidDestinationAddress.message(), "Invalid destination address");
    assert_eq!(WalletError::InvalidAmount.message(), "Invalid amount");
    assert_eq!(WalletError::InvalidTransactionHash.message(), "Invalid transaction hash");
}

#[test]
fn message_of_an_insufficient_balance_shows_both_amounts() {
    assert_eq!(
        insufficient().message(),
        "Insufficient balance. Current: 0.050000000000000000 ETH, Requested: 0.1 ETH"
    );
}

#[test]
fn messages_of_provider_errors_start_with_the_verb() {
    let cases = [
        (ProviderVerb::FetchBalance, "Failed to fetch balance: boom"),
        (ProviderVerb::FetchNonce, "Failed to fetch nonce: boom"),
        (ProviderVerb::FetchGasPrice, "Failed to fetch gas price: boom"),
        (ProviderVerb::FetchChainId, "Failed to fetch chain id: boom"),
        (ProviderVerb::Sign, "Failed to sign transaction: boom"),
        (ProviderVerb::Broadcast, "Failed to send transaction: boom"),
        (ProviderVerb::FetchReceipt, "Failed to fetch transaction status: boom"),
        (ProviderVerb::FetchBlockNumber, "Failed to fetch block number: boom"),
    ];
    for (verb, message) in cases {
        assert_eq!(provider_error(verb).message(), message);
        assert_eq!(verb.text(), &message[..message.len() - 6]);
    }
}

#[test]
fn clients_errors_are_400_and_the_providers_500() {
    assert_eq!(WalletError::InvalidAddress.status_code(), 400);
    assert_eq!(WalletError::InvalidPrivateKey.status_code(), 400);
    assert_eq!(WalletError::InvalidDestinationAddress.status_code(), 400);
    assert_eq!(WalletError::InvalidAmount.status_code(), 400);
    assert_eq!(WalletError::InvalidTransactionHash.status_code(), 400);
    assert_eq!(insufficient().status_code(), 400);
    assert_eq!(provider_error(ProviderVerb::Broadcast).status_code(), 500);
    assert_eq!(provider_error(ProviderVerb::FetchBalance).status_code(), 500);
}

#[test]
fn a_provider_text_that_says_invalid_stays_a_500() {
    let misleading = WalletError::ProviderError {
        verb: ProviderVerb::Broadcast,
        detail: "Invalid params: Insufficient funds".to_string(),
    };
    assert_eq!(misleading.status_code(), 500);
    assert_eq!(
        send_tokens_handler(Err(misleading)),
        error(500, "Failed to send transaction: Invalid params: Insufficient funds")
    );
}

#[test]
fn error_reply_carries_status_and_message() {
    assert_eq!(error_reply(&WalletError::InvalidAmount), error(400, "Invalid amount"));
    assert_eq!(
        error_reply(&provider_error(ProviderVerb::FetchNonce)),
        error(500, "Failed to fetch nonce: boom")
    );
}

#[test]
fn wallet_handler_always_succeeds() {
    let wallet = || WalletInfo {
        address: "0xabc".to_string(),
        private_key: "def".to_string(),
        mnemonic: "one two".to_string(),
    };
    assert_eq!(
        generate_wallet_handler(wallet()),
        HttpReply { status: 200, payload: Payload::Wallet(wallet()) }
    );
}

#[test]
fn balance_handler() {
    assert_eq!(
        get_balance_handler(Ok("1.000000000000000000".to_string())),
        HttpReply { status: 200, payload: Payload::Balance("1.000000000000000000".to_string()) }
    );
    assert_eq!(get_balance_handler(Err(WalletError::InvalidAddress)), error(400, "Invalid address"));
    assert_eq!(
        get_balance_handler(Err(provider_error(ProviderVerb::FetchBalance))),
        error(500, "Failed to fetch balance: boom")
    );
}

#[test]
fn wallet_info_handler() {
    let details = || WalletDetails {
        address: "0xAbC".to_string(),
        address_lowercase: "0xabc".to_string(),
        address_checksum: "0xAbC".to_string(),
        is_checksum_valid: false,
        network: "unknown".to_string(),
        explorer_url: "0xAbC".to_string(),
        balance: "0.000000000000000000".to_string(),
        nonce: 0,
        is_contract: false,
    };
    assert_eq!(
        get_wallet_info_handler(Ok(details())),
        HttpReply { status: 200, payload: Payload::Details(details()) }
    );
    assert_eq!(
        get_wallet_info_handler(Err(WalletError::InvalidAddress)),
        error(400, "Invalid address")
    );
}

#[test]
fn send_handler() {
    let sent = || SendTokenResponse {
        transaction_hash: "0x01".to_string(),
        from_address: "0xA".to_string(),
        to_address: "0xB".to_string(),
        amount: "0.1".to_string(),
        gas_used: None,
    };
    assert_eq!(
        send_tokens_handler(Ok(sent())),
        HttpReply { status: 200, payload: Payload::Sent(sent()) }
    );
    assert_eq!(
        send_tokens_handler(Err(WalletError::InvalidPrivateKey)),
        error(400, "Invalid private key")
    );
    assert_eq!(
        send_tokens_handler(Err(WalletError::InvalidDestinationAddress)),
        error(400, "Invalid destination address")
    );
    assert_eq!(send_tokens_handler(Err(WalletError::InvalidAmount)), error(400, "Invalid amount"));
    assert_eq!(
        send_tokens_handler(Err(insufficient())),
        error(400, "Insufficient balance. Current: 0.050000000000000000 ETH, Requested: 0.1 ETH")
    );
    assert_eq!(
        send_tokens_handler(Err(provider_error(ProviderVerb::Sign))),
        error(500, "Failed to sign transaction: boom")
    );
}

#[test]
fn status_handler_reports_pending_as_a_success() {
    let pending = || TransactionStatus {
        transaction_hash: "0x01".to_string(),
        status: "pending".to_string(),
        block_number: None,
        gas_used: None,
        confirmations: 0,
    };
    assert_eq!(
        get_transaction_status_handler(Ok(pending())),
        HttpReply { status: 200, payload: Payload::Status(pending()) }
    );
    assert_eq!(
        get_transaction_status_handler(Err(WalletError::InvalidTransactionHash)),
        error(400, "Invalid transaction hash")
    );
    assert_eq!(
        get_transaction_status_handler(Err(provider_error(ProviderVerb::FetchReceipt))),
        error(500, "Failed to fetch transaction status: boom")
    );
}

#[test]
fn transactions_handler_reports_every_failure_as_500() {
    assert_eq!(
        get_transactions_handler(Ok(vec![transaction("0x01")])),
        HttpReply { status: 200, payload: Payload::Transactions(vec![transaction("0x01")]) }
    );
    assert_eq!(get_transactions_handler(Ok(vec![])).status, 200);
    assert_eq!(
        get_transactions_handler(Err("HTTP error 404 Not Found: gone".to_string())),
        error(500, "HTTP error 404 Not Found: gone")
    );
}

#[test]
fn listing_asks_the_explorer_for_the_account() {
    let url = "https://rootstock-testnet.blockscout.com/api?module=account&action=txlist&address=0xabc&sort=desc";
    assert_eq!(transactions_url("0xabc"), url);
    assert_eq!(
        get_transactions("0xabc"),
        ListStep::Ask(ExplorerCall::Fetch(url.to_string()), ListFlow::AwaitResponse)
    );
    assert_eq!(
        transactions_url(""),
        "https://rootstock-testnet.blockscout.com/api?module=account&action=txlist&address=&sort=desc"
    );
}

#[test]
fn listing_that_cannot_be_fetched_or_read() {
    assert_eq!(
        ListFlow::AwaitResponse.resume(ExplorerReply::Unreachable("dns".to_string())),
        ListStep::Done(Err("Failed to fetch transactions: dns".to_string()))
    );
    assert_eq!(
        ListFlow::AwaitResponse.resume(ExplorerReply::Unreadable("reset".to_string())),
        ListStep::Done(Err("Failed to read response body: reset".to_string()))
    );
}

#[test]
fn listing_with_a_status_that_is_no_success() {
    let reply = ExplorerReply::Response {
        success: false,
        status: "404 Not Found".to_string(),
        body: "gone".to_string(),
    };
    assert_eq!(
        ListFlow::AwaitResponse.resume(reply),
        ListStep::Done(Err("HTTP error 404 Not Found: gone".to_string()))
    );
}

#[test]
fn listing_has_a_successful_body_decoded() {
    let reply = ExplorerReply::Response {
        success: true,
        status: "200 OK".to_string(),
        body: "{}".to_string(),
    };
    assert_eq!(
        ListFlow::AwaitResponse.resume(reply),
        ListStep::Ask(
            ExplorerCall::Decode("{}".to_string()),
            ListFlow::AwaitDecoded("{}".to_string())
        )
    );
}

#[test]
fn listing_whose_body_is_no_listing() {
    let flow = ListFlow::AwaitDecoded("<html>".to_string());
    assert_eq!(
        flow.resume(ExplorerReply::Undecodable("expected value at line 1".to_string())),
        ListStep::Done(Err(
            "Failed to parse response: expected value at line 1\nRaw: <html>".to_string()
        ))
    );
}

#[test]
fn listing_goes_by_the_explorers_status() {
    let answer = |status: &str| TxListResponse {
        status: status.to_string(),
        message: "No transactions found".to_string(),
        result: vec![transaction("0x01"), transaction("0x02")],
    };
    let flow = || ListFlow::AwaitDecoded("raw".to_string());
    assert_eq!(
        flow().resume(ExplorerReply::Decoded(answer("1"))),
        ListStep::Done(Ok(vec![transaction("0x01"), transaction("0x02")]))
    );
    for status in ["0", "", "11", "01", " 1"] {
        assert_eq!(
            flow().resume(ExplorerReply::Decoded(answer(status))),
            ListStep::Done(Err("No transactions found".to_string()))
        );
    }
}

#[test]
fn listing_flow_resumes_only_with_what_it_awaits() {
    let decoded = || ExplorerReply::Decoded(TxListResponse {
        status: "1".to_string(),
        message: "OK".to_string(),
        result: vec![],
    });
    let response = ExplorerReply::Response {
        success: true,
        status: "200 OK".to_string(),
        body: String::new(),
    };
    let first = ListFlow::AwaitResponse;
    assert!(first.can_resume(&response));
    assert!(first.can_resume(&ExplorerReply::Unreachable(String::new())));
    assert!(first.can_resume(&ExplorerReply::Unreadable(String::new())));
    assert!(!first.can_resume(&decoded()));
    assert!(!first.can_resume(&ExplorerReply::Undecodable(String::new())));
    let second = ListFlow::AwaitDecoded(String::new());
    assert!(second.can_resume(&decoded()));
    assert!(second.can_resume(&ExplorerReply::Undecodable(String::new())));
    assert!(!second.can_resume(&response));
    assert!(!second.can_resume(&ExplorerReply::Unreachable(String::new())));
}

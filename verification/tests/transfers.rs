use ethers::types::{Transaction as ChainTransaction, H160, U256};
use ethers::utils::rlp;
use evm_wallet_api::address::{Address, TxHash};
use evm_wallet_api::errors::{ProviderVerb, WalletError};
use evm_wallet_api::handlers::SendTokenRequest;
use evm_wallet_api::keys::{Keypair, UnsignedTransaction, TRANSFER_GAS};
use evm_wallet_api::provider::{ProviderCall, ProviderReply, Step};
use evm_wallet_api::uint256::Uint256;
use evm_wallet_api::wallet::{
    after_signing, check_funds, plan_transfer, send_tokens, sent_response, sign_and_encode,
    SendFlow, SendStep, SendTokenResponse, Transfer,
};

const KEY: &str = "ac0974bec39a17e36ba4a6b4d238ff944bacb478cbed5efcae784d7bf4f2ff80";
const SENDER: &str = "0xf39Fd6e51aad88F6F4ce6aB8827279cffFb92266";
const DESTINATION: &str = "0x70997970C51812dc3A010C7d01b50e0d17dc79C8";
const HASH: &str = "0x88df016429689c079f3b2f6ad39fa052532c56795b733da78a91ebe6a713944b";
const TENTH: u64 = 100_000_000_000_000_000;

fn failed(text: &str) -> ProviderReply {
    ProviderReply::Failed(text.to_string())
}

fn quantity(n: u64) -> ProviderReply {
    ProviderReply::Quantity(Uint256::from_u64(n))
}

fn provider_error(verb: ProviderVerb, detail: &str) -> SendStep {
    Step::Done(Err(WalletError::ProviderError { verb, detail: detail.to_string() }))
}

fn started() -> SendFlow {
    match send_tokens(KEY, DESTINATION, "0.1") {
        Step::Ask(ProviderCall::Balance(asked), flow) => {
            assert_eq!(asked, Address::parse(SENDER).unwrap());
            flow
        }
        other => panic!("unexpected step {:?}", other),
    }
}

fn flow_of(step: SendStep) -> SendFlow {
    match step {
        Step::Ask(_, flow) => flow,
        other => panic!("unexpected step {:?}", other),
    }
}

fn at_gas_price() -> SendFlow {
    flow_of(started().resume(quantity(TENTH)))
}

fn at_nonce() -> SendFlow {
    flow_of(at_gas_price().resume(quantity(1_000_000_000)))
}

fn at_chain_id() -> SendFlow {
    flow_of(at_nonce().resume(quantity(5)))
}

fn at_broadcast() -> SendFlow {
    flow_of(at_chain_id().resume(quantity(31)))
}

#[test]
fn transfer_reads_the_key_first() {
    let invalid_key = Step::Done(Err(WalletError::InvalidPrivateKey));
    assert_eq!(send_tokens("nonsense", DESTINATION, "0.1"), invalid_key);
    assert_eq!(send_tokens("nonsense", "nonsense", "nonsense"), invalid_key);
    assert_eq!(send_tokens("", DESTINATION, "0.1"), invalid_key);
    assert_eq!(send_tokens(&KEY[..62], DESTINATION, "0.1"), invalid_key);
    assert_eq!(send_tokens(&"0".repeat(64), DESTINATION, "0.1"), invalid_key);
    assert_eq!(send_tokens(&"f".repeat(64), DESTINATION, "0.1"), invalid_key);
}

#[test]
fn transfer_reads_the_destination_second() {
    let invalid = Step::Done(Err(WalletError::InvalidDestinationAddress));
    assert_eq!(send_tokens(KEY, "not-an-address", "0.1"), invalid);
    assert_eq!(send_tokens(KEY, "not-an-address", "nonsense"), invalid);
    assert_eq!(send_tokens(KEY, "", "0.1"), invalid);
}

#[test]
fn transfer_reads_the_amount_third() {
    let invalid = Step::Done(Err(WalletError::InvalidAmount));
    assert_eq!(send_tokens(KEY, DESTINATION, "nonsense"), invalid);
    assert_eq!(send_tokens(KEY, DESTINATION, "0.1234567890123456789"), invalid);
    assert_eq!(send_tokens(KEY, DESTINATION, &"9".repeat(80)), invalid);
    assert_eq!(send_tokens(KEY, DESTINATION, "1 ether"), invalid);
}

#[test]
fn transfer_takes_the_key_with_a_prefix() {
    let prefixed = format!("0x{}", KEY);
    assert_eq!(send_tokens(&prefixed, DESTINATION, "0.1"), send_tokens(KEY, DESTINATION, "0.1"));
}

#[test]
fn transfer_starts_by_asking_for_the_senders_balance() {
    let sender = Address::parse(SENDER).unwrap();
    match send_tokens(KEY, DESTINATION, "0.1") {
        Step::Ask(call, SendFlow::AwaitBalance(transfer)) => {
            assert_eq!(call, ProviderCall::Balance(sender));
            assert_eq!(transfer.sender.address, sender);
            assert_eq!(ethers::utils::hex::encode(transfer.sender.secret), KEY);
            assert_eq!(transfer.to, Address::parse(DESTINATION).unwrap());
            assert_eq!(transfer.value, Uint256::from_u64(TENTH));
            assert_eq!(transfer.amount, "0.1");
        }
        other => panic!("unexpected step {:?}", other),
    }
}

#[test]
fn request_starts_the_same_transfer() {
    let request = SendTokenRequest {
        from_private_key: KEY.to_string(),
        to_address: DESTINATION.to_string(),
        amount: "0.1".to_string(),
    };
    assert_eq!(request.start(), send_tokens(KEY, DESTINATION, "0.1"));
    let bad = SendTokenRequest {
        from_private_key: "short".to_string(),
        to_address: DESTINATION.to_string(),
        amount: "0.1".to_string(),
    };
    assert_eq!(bad.start(), Step::Done(Err(WalletError::InvalidPrivateKey)));
}

#[test]
fn plan_transfer_decides_by_the_first_text_that_failed() {
    let pair = Keypair { secret: [1; 32], address: Address { bytes: [2; 20] } };
    let to = Address { bytes: [3; 20] };
    let value = Uint256::from_u64(4);
    assert_eq!(
        plan_transfer(None, Some(to), Some(value), "4"),
        Step::Done(Err(WalletError::InvalidPrivateKey))
    );
    assert_eq!(
        plan_transfer(Some(pair), None, Some(value), "4"),
        Step::Done(Err(WalletError::InvalidDestinationAddress))
    );
    assert_eq!(
        plan_transfer(Some(pair), Some(to), None, "4"),
        Step::Done(Err(WalletError::InvalidAmount))
    );
    assert_eq!(
        plan_transfer(Some(pair), Some(to), Some(value), "4"),
        Step::Ask(
            ProviderCall::Balance(pair.address),
            SendFlow::AwaitBalance(Transfer { sender: pair, to, value, amount: "4".to_string() })
        )
    );
}

#[test]
fn amount_above_balance_ends_the_transfer_before_any_broadcast() {
    let step = started().resume(quantity(TENTH - 1));
    assert_eq!(
        step,
        Step::Done(Err(WalletError::InsufficientBalance {
            current: Uint256::from_u64(TENTH - 1),
            requested: Uint256::from_u64(TENTH),
            amount: "0.1".to_string(),
        }))
    );
    match started().resume(quantity(0)) {
        Step::Done(Err(WalletError::InsufficientBalance { current, requested, .. })) => {
            assert!(current.lt(&requested));
        }
        other => panic!("unexpected step {:?}", other),
    }
}

#[test]
fn negative_or_empty_amount_is_invalid() {
    let invalid = Step::Done(Err(WalletError::InvalidAmount));
    assert_eq!(send_tokens(KEY, DESTINATION, "-1"), invalid);
    assert_eq!(send_tokens(KEY, DESTINATION, ""), invalid);
    assert_eq!(send_tokens(KEY, DESTINATION, "1_000"), invalid);
}

#[test]
fn balance_equal_to_the_amount_suffices() {
    match started().resume(quantity(TENTH)) {
        Step::Ask(ProviderCall::GasPrice, SendFlow::AwaitGasPrice(transfer)) => {
            assert_eq!(transfer.value, Uint256::from_u64(TENTH));
        }
        other => panic!("unexpected step {:?}", other),
    }
}

#[test]
fn check_funds_compares_all_256_bits() {
    let transfer = || Transfer {
        sender: Keypair { secret: [1; 32], address: Address { bytes: [2; 20] } },
        to: Address { bytes: [3; 20] },
        value: Uint256 { limbs: [0, 0, 1, 0] },
        amount: "big".to_string(),
    };
    let below = Uint256 { limbs: [u64::MAX, u64::MAX, 0, 0] };
    assert_eq!(
        check_funds(transfer(), below),
        Step::Done(Err(WalletError::InsufficientBalance {
            current: below,
            requested: Uint256 { limbs: [0, 0, 1, 0] },
            amount: "big".to_string(),
        }))
    );
    let above = Uint256 { limbs: [0, 0, 0, 1] };
    assert_eq!(
        check_funds(transfer(), above),
        Step::Ask(ProviderCall::GasPrice, SendFlow::AwaitGasPrice(transfer()))
    );
}

#[test]
fn gas_price_then_nonce_then_chain_id() {
    let sender = Address::parse(SENDER).unwrap();
    let step = at_gas_price().resume(quantity(1_000_000_000));
    match step {
        Step::Ask(ProviderCall::TransactionCount(asked), SendFlow::AwaitNonce(_, price)) => {
            assert_eq!(asked, sender);
            assert_eq!(price, Uint256::from_u64(1_000_000_000));
        }
        other => panic!("unexpected step {:?}", other),
    }
    match at_nonce().resume(quantity(5)) {
        Step::Ask(ProviderCall::ChainId, SendFlow::AwaitChainId(transfer, tx)) => {
            assert_eq!(transfer.amount, "0.1");
            assert_eq!(
                tx,
                UnsignedTransaction {
                    to: Address::parse(DESTINATION).unwrap(),
                    value: Uint256::from_u64(TENTH),
                    gas_limit: 21000,
                    gas_price: Uint256::from_u64(1_000_000_000),
                    nonce: Uint256::from_u64(5),
                }
            );
        }
        other => panic!("unexpected step {:?}", other),
    }
    assert_eq!(TRANSFER_GAS, 21000);
}

#[test]
fn signed_transfer_carries_nonce_gas_value_and_chain() {
    let raw = match at_chain_id().resume(quantity(31)) {
        Step::Ask(ProviderCall::SendRawTransaction(raw), SendFlow::AwaitBroadcast(transfer)) => {
            assert_eq!(transfer.amount, "0.1");
            raw
        }
        other => panic!("unexpected step {:?}", other),
    };
    let decoded: ChainTransaction = rlp::decode(&raw).unwrap();
    assert_eq!(decoded.nonce, U256::from(5));
    assert_eq!(decoded.gas, U256::from(21000));
    assert_eq!(decoded.gas_price, Some(U256::from(1_000_000_000u64)));
    assert_eq!(decoded.value, U256::from(TENTH));
    assert_eq!(decoded.to, Some(H160(Address::parse(DESTINATION).unwrap().bytes)));
    assert!(decoded.input.is_empty());
    assert_eq!(decoded.chain_id, Some(U256::from(31)));
    assert!(decoded.v.as_u64() == 31 * 2 + 35 || decoded.v.as_u64() == 31 * 2 + 36);
    assert_eq!(decoded.recover_from().unwrap(), H160(Address::parse(SENDER).unwrap().bytes));
}

#[test]
fn signature_is_bound_to_the_chain() {
    let raw_of = |chain: u64| match at_chain_id().resume(quantity(chain)) {
        Step::Ask(ProviderCall::SendRawTransaction(raw), _) => raw,
        other => panic!("unexpected step {:?}", other),
    };
    assert_eq!(raw_of(31), raw_of(31));
    assert_ne!(raw_of(31), raw_of(1));
    let on_mainnet: ChainTransaction = rlp::decode(&raw_of(1)).unwrap();
    assert_eq!(on_mainnet.chain_id, Some(U256::from(1)));
    assert_eq!(on_mainnet.recover_from().unwrap(), H160(Address::parse(SENDER).unwrap().bytes));
}

#[test]
fn sign_and_encode_is_what_the_flow_broadcasts() {
    let (transfer, tx) = match at_chain_id() {
        SendFlow::AwaitChainId(transfer, tx) => (transfer, tx),
        other => panic!("unexpected state {:?}", other),
    };
    let raw = sign_and_encode(&transfer.sender.secret, &tx, 31).unwrap();
    match at_chain_id().resume(quantity(31)) {
        Step::Ask(ProviderCall::SendRawTransaction(sent), _) => assert_eq!(sent, raw),
        other => panic!("unexpected step {:?}", other),
    }
    assert!(sign_and_encode(&[0; 32], &tx, 31).is_err());
}

#[test]
fn after_signing_broadcasts_or_ends() {
    let transfer = || Transfer {
        sender: Keypair { secret: [1; 32], address: Address { bytes: [2; 20] } },
        to: Address { bytes: [3; 20] },
        value: Uint256::from_u64(4),
        amount: "4".to_string(),
    };
    assert_eq!(
        after_signing(transfer(), Ok(vec![1, 2, 3])),
        Step::Ask(
            ProviderCall::SendRawTransaction(vec![1, 2, 3]),
            SendFlow::AwaitBroadcast(transfer())
        )
    );
    assert_eq!(
        after_signing(transfer(), Err("no key".to_string())),
        provider_error(ProviderVerb::Sign, "no key")
    );
}

#[test]
fn broadcast_reports_the_transfer() {
    let hash = TxHash::parse(HASH).unwrap();
    assert_eq!(
        at_broadcast().resume(ProviderReply::Hash(hash)),
        Step::Done(Ok(SendTokenResponse {
            transaction_hash: HASH.to_string(),
            from_address: SENDER.to_string(),
            to_address: DESTINATION.to_string(),
            amount: "0.1".to_string(),
            gas_used: None,
        }))
    );
}

#[test]
fn sent_response_echoes_the_amount_as_asked() {
    let transfer = Transfer {
        sender: Keypair { secret: [1; 32], address: Address::parse(SENDER).unwrap() },
        to: Address::parse(DESTINATION).unwrap(),
        value: Uint256::from_u64(4),
        amount: "0.000000000000000004".to_string(),
    };
    let response = sent_response(transfer, &TxHash { bytes: [0xab; 32] });
    assert_eq!(response.amount, "0.000000000000000004");
    assert_eq!(response.transaction_hash, format!("0x{}", "ab".repeat(32)));
    assert_eq!(response.from_address, SENDER);
    assert_eq!(response.to_address, DESTINATION);
    assert_eq!(response.gas_used, None);
}

#[test]
fn every_failure_names_its_verb_and_ends_the_transfer() {
    assert_eq!(started().resume(failed("a")), provider_error(ProviderVerb::FetchBalance, "a"));
    assert_eq!(at_gas_price().resume(failed("b")), provider_error(ProviderVerb::FetchGasPrice, "b"));
    assert_eq!(at_nonce().resume(failed("c")), provider_error(ProviderVerb::FetchNonce, "c"));
    assert_eq!(at_chain_id().resume(failed("d")), provider_error(ProviderVerb::FetchChainId, "d"));
    assert_eq!(at_broadcast().resume(failed("e")), provider_error(ProviderVerb::Broadcast, "e"));
}

#[test]
fn two_transfers_given_the_same_nonce_both_use_it() {
    let nonce_of = |step: SendStep| match step {
        Step::Ask(ProviderCall::ChainId, SendFlow::AwaitChainId(_, tx)) => tx.nonce,
        other => panic!("unexpected step {:?}", other),
    };
    let first = nonce_of(at_nonce().resume(quantity(5)));
    let second = nonce_of(at_nonce().resume(quantity(5)));
    assert_eq!(first, second);
    assert_eq!(first, Uint256::from_u64(5));
}

#[test]
fn transfer_flow_resumes_only_with_what_it_awaits() {
    let hash = ProviderReply::Hash(TxHash { bytes: [0; 32] });
    for flow in [started(), at_gas_price(), at_nonce()] {
        assert!(flow.can_resume(&quantity(1)));
        assert!(flow.can_resume(&ProviderReply::Quantity(Uint256 { limbs: [u64::MAX; 4] })));
        assert!(flow.can_resume(&failed("x")));
        assert!(!flow.can_resume(&hash));
        assert!(!flow.can_resume(&ProviderReply::Number(1)));
    }
    let signing = at_chain_id();
    assert!(signing.can_resume(&quantity(0)));
    assert!(signing.can_resume(&quantity((u64::MAX - 38) / 2)));
    assert!(!signing.can_resume(&quantity((u64::MAX - 38) / 2 + 1)));
    assert!(!signing.can_resume(&quantity(u64::MAX)));
    assert!(!signing.can_resume(&ProviderReply::Quantity(Uint256 { limbs: [1, 1, 0, 0] })));
    assert!(signing.can_resume(&failed("x")));
    assert!(!signing.can_resume(&hash));
    let sending = at_broadcast();
    assert!(sending.can_resume(&hash));
    assert!(sending.can_resume(&failed("x")));
    assert!(!sending.can_resume(&quantity(1)));
}

#[test]
fn v_of_the_signature_is_the_chain_id_doubled_plus_35_or_36() {
    for chain in [0u64, 1, 30, 31, 137, 1_000_000] {
        match at_chain_id().resume(quantity(chain)) {
            Step::Ask(ProviderCall::SendRawTransaction(raw), _) => {
                let decoded: ChainTransaction = rlp::decode(&raw).unwrap();
                let v = decoded.v.as_u64();
                assert!(v == 2 * chain + 35 || v == 2 * chain + 36, "{} {}", chain, v);
            }
            other => panic!("unexpected step {:?}", other),
        }
    }
}

#[test]
fn largest_chain_id_still_signs() {
    match at_chain_id().resume(quantity((u64::MAX - 38) / 2)) {
        Step::Ask(ProviderCall::SendRawTransaction(raw), _) => {
            let decoded: ChainTransaction = rlp::decode(&raw).unwrap();
            assert_eq!(decoded.recover_from().unwrap(), H160(Address::parse(SENDER).unwrap().bytes));
        }
        other => panic!("unexpected step {:?}", other),
    }
}

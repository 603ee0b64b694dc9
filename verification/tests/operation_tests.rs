use color_chain::address::DisplayForm;
use color_chain::balance::Balance;
use color_chain::color::{Color, TransactionHash, TransactionReceipt};
use color_chain::error::BridgeError;
use color_chain::operation::{Action, Event, Handler, Operation};

const ENDPOINT: &str = "http://localhost:8545";
const USER: &str = "0xf39fd6e51aad88f6f4ce6ab8827279cfffb92266";
const CONTRACT: &str = "0x5fbdb2315678afecb367f032d93f642f64180aa3";
const CHAIN: u64 = 31337;

fn sample_hash() -> TransactionHash {
    TransactionHash::new([7u8; 32])
}

fn key() -> [u8; 32] {
    [
        0xac, 0x09, 0x74, 0xbe, 0xc3, 0x9a, 0x17, 0xe3, 0x6b, 0xa4, 0xa6, 0xb4, 0xd2, 0x38, 0xff,
        0x94, 0x4b, 0xac, 0xb4, 0x78, 0xcb, 0xed, 0x5e, 0xfc, 0xae, 0x78, 0x4d, 0x7b, 0xf4, 0xf2,
        0xff, 0x80,
    ]
}

fn receipt(status: Option<u64>) -> Event {
    Event::Confirmation(Some(TransactionReceipt::new(status)))
}

fn begin_send(color: Color) -> Operation {
    Operation::begin_send_color(&key(), CHAIN, CONTRACT, ENDPOINT, color).unwrap()
}

fn broadcast(color: Color) -> Operation {
    let (operation, action) = begin_send(color).advance(Event::TransactionBroadcast(sample_hash()));
    assert!(matches!(action, Action::Proceed));
    operation
}

#[test]
fn handlers_have_the_names_the_host_knows() {
    assert_eq!(Handler::SetBalance.name(), "set_balance");
    assert_eq!(Handler::SetColor.name(), "set_color");
}

#[test]
fn get_balance_names_the_query() {
    let operation = Operation::begin_get_balance(USER, ENDPOINT).unwrap();
    match operation {
        Operation::FetchingBalance { connection, address } => {
            assert_eq!(connection.endpoint(), ENDPOINT);
            assert_eq!(address.to_display(DisplayForm::Canonical), USER);
        }
        _ => panic!("get_balance must begin by fetching"),
    }
}

#[test]
fn get_balance_hands_the_host_the_exact_amount() {
    let operation = Operation::begin_get_balance(USER, ENDPOINT).unwrap();
    let funded = Balance::from_u128(1_000_000_000_000_000_000);
    let (operation, action) = operation.advance(Event::BalanceFetched(funded));
    assert!(operation.is_finished());
    match action {
        Action::Succeed(Some(call)) => {
            assert_eq!(call.handler, Handler::SetBalance);
            assert_eq!(call.payload, "1000000000000000000");
        }
        _ => panic!("a fetched balance must be handed to the host"),
    }
}

#[test]
fn get_balance_fails_with_rpc_error() {
    let operation = Operation::begin_get_balance(USER, ENDPOINT).unwrap();
    let (operation, action) = operation.advance(Event::Failure);
    assert!(operation.is_finished());
    assert!(matches!(action, Action::Fail(BridgeError::RpcError)));
}

#[test]
fn get_balance_takes_no_other_answer() {
    let operation = Operation::begin_get_balance(USER, ENDPOINT).unwrap();
    let (operation, action) = operation.advance(Event::ColorRead(Color::new(1, 2, 3)));
    assert!(operation.is_finished());
    assert!(matches!(action, Action::Fail(BridgeError::RpcError)));
}

#[test]
fn get_balance_refuses_a_bad_address() {
    let r = Operation::begin_get_balance("0x12", ENDPOINT);
    assert!(matches!(r, Err(BridgeError::InvalidAddress)));
}

#[test]
fn get_balance_refuses_a_malformed_endpoint() {
    let r = Operation::begin_get_balance(USER, "not a url");
    assert!(matches!(r, Err(BridgeError::EndpointUnreachableOrInvalid)));
}

#[test]
fn get_balance_reads_the_address_before_the_endpoint() {
    let r = Operation::begin_get_balance("nobody", "not a url");
    assert!(matches!(r, Err(BridgeError::InvalidAddress)));
}

#[test]
fn send_color_names_the_write() {
    match begin_send(Color::new(10, 20, 30)) {
        Operation::Submitting { binding, color } => {
            assert_eq!(color, Color::new(10, 20, 30));
            assert_eq!(binding.contract().to_display(DisplayForm::Canonical), CONTRACT);
            assert_eq!(binding.client().connection().endpoint(), ENDPOINT);
            assert_eq!(binding.client().identity().chain_id(), CHAIN);
            assert_eq!(binding.client().identity().secret(), &key()[..]);
            assert_eq!(
                binding.client().identity().address().to_display(DisplayForm::Canonical),
                USER
            );
        }
        _ => panic!("send_color must begin by submitting"),
    }
}

#[test]
fn send_color_waits_for_inclusion_after_broadcast() {
    match broadcast(Color::new(10, 20, 30)) {
        Operation::Confirming { connection, transaction } => {
            assert_eq!(connection.endpoint(), ENDPOINT);
            assert_eq!(transaction.bytes, [7u8; 32]);
        }
        _ => panic!("a broadcast transaction must be followed"),
    }
}

#[test]
fn send_color_succeeds_without_a_host_call() {
    let (operation, action) = broadcast(Color::new(10, 20, 30)).advance(receipt(Some(1)));
    assert!(operation.is_finished());
    assert!(matches!(action, Action::Succeed(None)));
}

#[test]
fn send_color_fails_with_submission_error() {
    let (operation, action) = begin_send(Color::new(1, 2, 3)).advance(Event::Failure);
    assert!(operation.is_finished());
    assert!(matches!(action, Action::Fail(BridgeError::SubmissionError)));
}

#[test]
fn send_color_takes_no_receipt_before_broadcast() {
    let (operation, action) = begin_send(Color::new(1, 2, 3)).advance(receipt(Some(1)));
    assert!(operation.is_finished());
    assert!(matches!(action, Action::Fail(BridgeError::SubmissionError)));
}

#[test]
fn a_reverted_write_is_a_confirmation_error() {
    let (operation, action) = broadcast(Color::new(1, 2, 3)).advance(receipt(Some(0)));
    assert!(operation.is_finished());
    assert!(matches!(action, Action::Fail(BridgeError::ConfirmationError)));
}

#[test]
fn a_dropped_write_is_a_confirmation_error() {
    let (_, action) = broadcast(Color::new(1, 2, 3)).advance(Event::Confirmation(None));
    assert!(matches!(action, Action::Fail(BridgeError::ConfirmationError)));
}

#[test]
fn a_receipt_without_status_is_a_confirmation_error() {
    let (_, action) = broadcast(Color::new(1, 2, 3)).advance(receipt(None));
    assert!(matches!(action, Action::Fail(BridgeError::ConfirmationError)));
}

#[test]
fn failed_polling_is_a_confirmation_error() {
    let (operation, action) = broadcast(Color::new(1, 2, 3)).advance(Event::Failure);
    assert!(operation.is_finished());
    assert!(matches!(action, Action::Fail(BridgeError::ConfirmationError)));
}

#[test]
fn a_second_broadcast_is_a_confirmation_error() {
    let (_, action) = broadcast(Color::new(1, 2, 3)).advance(Event::TransactionBroadcast(sample_hash()));
    assert!(matches!(action, Action::Fail(BridgeError::ConfirmationError)));
}

#[test]
fn send_color_refuses_a_bad_key() {
    let r = Operation::begin_send_color(&[0u8; 32], CHAIN, CONTRACT, ENDPOINT, Color::new(1, 2, 3));
    assert!(matches!(r, Err(BridgeError::InvalidKeyMaterial)));
}

#[test]
fn send_color_refuses_a_malformed_endpoint() {
    let r = Operation::begin_send_color(&key(), CHAIN, CONTRACT, "::", Color::new(1, 2, 3));
    assert!(matches!(r, Err(BridgeError::EndpointUnreachableOrInvalid)));
}

#[test]
fn send_color_refuses_a_bad_contract_address() {
    let r = Operation::begin_send_color(&key(), CHAIN, "0xzz", ENDPOINT, Color::new(1, 2, 3));
    assert!(matches!(r, Err(BridgeError::InvalidAddress)));
}

#[test]
fn send_color_checks_key_then_endpoint_then_contract() {
    let color = Color::new(1, 2, 3);
    let r = Operation::begin_send_color(&[9u8; 3], CHAIN, "0xzz", "not a url", color);
    assert!(matches!(r, Err(BridgeError::InvalidKeyMaterial)));
    let r = Operation::begin_send_color(&key(), CHAIN, "0xzz", "not a url", color);
    assert!(matches!(r, Err(BridgeError::EndpointUnreachableOrInvalid)));
}

#[test]
fn get_color_names_the_read() {
    let operation = Operation::begin_get_color(&key(), CHAIN, CONTRACT, ENDPOINT).unwrap();
    match operation {
        Operation::ReadingColor { binding } => {
            assert_eq!(binding.contract().to_display(DisplayForm::Canonical), CONTRACT);
            assert_eq!(binding.client().connection().endpoint(), ENDPOINT);
            assert_eq!(binding.client().identity().chain_id(), CHAIN);
        }
        _ => panic!("get_color must begin by reading"),
    }
}

#[test]
fn get_color_hands_the_host_the_color() {
    let operation = Operation::begin_get_color(&key(), CHAIN, CONTRACT, ENDPOINT).unwrap();
    let (operation, action) = operation.advance(Event::ColorRead(Color::new(10, 20, 30)));
    assert!(operation.is_finished());
    match action {
        Action::Succeed(Some(call)) => {
            assert_eq!(call.handler, Handler::SetColor);
            assert_eq!(call.payload, "{\"b\":30,\"g\":20,\"r\":10}");
        }
        _ => panic!("a color that was read must be handed to the host"),
    }
}

#[test]
fn get_color_fails_with_rpc_error() {
    let operation = Operation::begin_get_color(&key(), CHAIN, CONTRACT, ENDPOINT).unwrap();
    let (operation, action) = operation.advance(Event::Failure);
    assert!(operation.is_finished());
    assert!(matches!(action, Action::Fail(BridgeError::RpcError)));
}

#[test]
fn get_color_refuses_what_send_color_refuses() {
    let r = Operation::begin_get_color(&[0u8; 32], CHAIN, CONTRACT, ENDPOINT);
    assert!(matches!(r, Err(BridgeError::InvalidKeyMaterial)));
    let r = Operation::begin_get_color(&key(), CHAIN, CONTRACT, "");
    assert!(matches!(r, Err(BridgeError::EndpointUnreachableOrInvalid)));
    let r = Operation::begin_get_color(&key(), CHAIN, "", ENDPOINT);
    assert!(matches!(r, Err(BridgeError::InvalidAddress)));
}

#[test]
fn a_color_that_was_written_reads_back() {
    let color = Color::new(10, 20, 30);
    let written = match begin_send(color) {
        Operation::Submitting { color, .. } => color,
        _ => panic!("send_color must begin by submitting"),
    };
    let (_, action) = broadcast(color).advance(receipt(Some(1)));
    assert!(matches!(action, Action::Succeed(None)));
    let operation = Operation::begin_get_color(&key(), CHAIN, CONTRACT, ENDPOINT).unwrap();
    let (_, action) = operation.advance(Event::ColorRead(written));
    match action {
        Action::Succeed(Some(call)) => assert_eq!(call.payload, color.to_payload()),
        _ => panic!("a color that was read must be handed to the host"),
    }
}

#[test]
fn an_operation_that_ended_asks_for_nothing() {
    let operation = Operation::begin_get_balance(USER, ENDPOINT).unwrap();
    let (operation, first) = operation.advance(Event::BalanceFetched(Balance::from_u128(5)));
    assert!(matches!(first, Action::Succeed(Some(_))));
    let (operation, second) = operation.advance(Event::BalanceFetched(Balance::from_u128(6)));
    assert!(matches!(second, Action::Nothing));
    let (operation, third) = operation.advance(Event::Failure);
    assert!(matches!(third, Action::Nothing));
    assert!(operation.is_finished());
}

#[test]
fn a_failed_operation_never_calls_the_host() {
    let operation = Operation::begin_get_color(&key(), CHAIN, CONTRACT, ENDPOINT).unwrap();
    let (operation, first) = operation.advance(Event::Failure);
    assert!(matches!(first, Action::Fail(BridgeError::RpcError)));
    let (_, second) = operation.advance(Event::ColorRead(Color::new(1, 2, 3)));
    assert!(matches!(second, Action::Nothing));
}

#[test]
fn only_the_executor_failure_is_fatal() {
    assert!(BridgeError::ExecutorInitError.is_fatal());
    assert!(!BridgeError::InvalidKeyMaterial.is_fatal());
    assert!(!BridgeError::InvalidAddress.is_fatal());
    assert!(!BridgeError::EndpointUnreachableOrInvalid.is_fatal());
    assert!(!BridgeError::RpcError.is_fatal());
    assert!(!BridgeError::SubmissionError.is_fatal());
    assert!(!BridgeError::ConfirmationError.is_fatal());
}

#[test]
fn no_key_is_kept_past_the_first_report() {
    let hash = TransactionHash::new([1u8; 32]);
    let (after_broadcast, _) = begin_send(Color::new(1, 2, 3)).advance(Event::TransactionBroadcast(hash));
    assert!(matches!(after_broadcast, Operation::Confirming { .. }));
    let (after_failure, _) = begin_send(Color::new(1, 2, 3)).advance(Event::Failure);
    assert!(matches!(after_failure, Operation::Finished));
    let read = Operation::begin_get_color(&key(), CHAIN, CONTRACT, ENDPOINT).unwrap();
    let (after_read, _) = read.advance(Event::ColorRead(Color::new(1, 2, 3)));
    assert!(matches!(after_read, Operation::Finished));
}

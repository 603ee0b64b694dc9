//! The three operations that touch the chain, as state machines.
//!
//! An operation is begun from the host's plain arguments, which are
//! checked before anything is sent. It then names the work that is due;
//! whoever drives it performs that work and reports what came of it as an
//! event, and `advance` says what follows. The host is called back at
//! most once, and only by an operation that succeeded.

use vstd::prelude::*;
use crate::address::{address_of_text, is_address_text, parse_address, Address};
use crate::balance::Balance;
use crate::color::{
    color_payload_text,
    status_is_success,
    Color,
    TransactionHash,
    TransactionReceipt,
};
use crate::connection::{
    bind,
    bind_signer,
    connect,
    endpoint_accepted,
    BindingView,
    ChainConnection,
    ClientView,
    ContractBinding,
};
use crate::error::BridgeError;
use crate::identity::{derive_identity, identity_of, is_secret_scalar};
use crate::text::decimal_text;

verus! {

/// The handlers of the host that the bridge calls.
#[derive(Clone, Copy, Debug, PartialEq, Eq, Structural)]
pub enum Handler {
    /// Takes a balance as decimal text.
    SetBalance,
    /// Takes a color as the text of a JSON object.
    SetColor,
}

/// The name under which the host knows a handler.
pub open spec fn handler_name(handler: Handler) -> Seq<char> {
    match handler {
        Handler::SetBalance => "set_balance"@,
        Handler::SetColor => "set_color"@,
    }
}

impl Handler {
    /// The name under which the host knows the handler.
    pub fn name(&self) -> (r: &'static str)
        ensures
            r@ == handler_name(*self),
    {
        match self {
            Handler::SetBalance => "set_balance",
            Handler::SetColor => "set_color",
        }
    }
}

/// One call into the host: a handler and the text handed to it.
#[derive(Debug)]
pub struct HostCall {
    pub handler: Handler,
    pub payload: String,
}

/// What a host call holds.
pub struct HostCallView {
    pub handler: Handler,
    pub payload: Seq<char>,
}

impl View for HostCall {
    type V = HostCallView;

    open spec fn view(&self) -> HostCallView {
        HostCallView { handler: self.handler, payload: self.payload@ }
    }
}

/// What the outside work of an operation came to.
#[derive(Clone, Copy, Debug)]
pub enum Event {
    /// The provider answered the balance query.
    BalanceFetched(Balance),
    /// The contract answered the read call.
    ColorRead(Color),
    /// The signed transaction was accepted for broadcast, under this hash.
    TransactionBroadcast(TransactionHash),
    /// Waiting for inclusion ended: with the receipt, or with none where
    /// the transaction was dropped.
    Confirmation(Option<TransactionReceipt>),
    /// The work failed and nothing usable came back.
    Failure,
}

/// What the driver of an operation does next.
#[derive(Debug)]
pub enum Action {
    /// Perform the work that the operation now names.
    Proceed,
    /// The operation succeeded: make the host call, where there is one,
    /// and return.
    Succeed(Option<HostCall>),
    /// The operation failed: return the error, without a host call.
    Fail(BridgeError),
    /// The operation had ended before; nothing is to be done.
    Nothing,
}

/// What an action holds.
pub enum ActionView {
    Proceed,
    Succeed(Option<HostCallView>),
    Fail(BridgeError),
    Nothing,
}

impl View for Action {
    type V = ActionView;

    open spec fn view(&self) -> ActionView {
        match self {
            Action::Proceed => ActionView::Proceed,
            Action::Succeed(Some(call)) => ActionView::Succeed(Some(call@)),
            Action::Succeed(None) => ActionView::Succeed(None),
            Action::Fail(e) => ActionView::Fail(*e),
            Action::Nothing => ActionView::Nothing,
        }
    }
}

/// An operation in flight. Each variant names the work that is due and
/// holds what that work needs; nothing else is kept.
pub enum Operation {
    /// The balance of `address` is to be queried over `connection`.
    FetchingBalance { connection: ChainConnection, address: Address },
    /// A transaction that writes `color` is to be signed and broadcast
    /// through `binding`.
    Submitting { binding: ContractBinding, color: Color },
    /// The broadcast transaction `transaction` is to be followed to
    /// inclusion over `connection`. The signing identity is gone.
    Confirming { connection: ChainConnection, transaction: TransactionHash },
    /// The color is to be read through `binding`.
    ReadingColor { binding: ContractBinding },
    /// The operation has ended; it holds nothing.
    Finished,
}

/// What an operation holds.
pub enum OperationView {
    FetchingBalance { endpoint: Seq<char>, address: Seq<u8> },
    Submitting { binding: BindingView, color: Color },
    Confirming { endpoint: Seq<char>, transaction: Seq<u8> },
    ReadingColor { binding: BindingView },
    Finished,
}

impl View for Operation {
    type V = OperationView;

    open spec fn view(&self) -> OperationView {
        match self {
            Operation::FetchingBalance { connection, address } => OperationView::FetchingBalance {
                endpoint: connection@,
                address: address@,
            },
            Operation::Submitting { binding, color } => OperationView::Submitting {
                binding: binding@,
                color: *color,
            },
            Operation::Confirming { connection, transaction } => OperationView::Confirming {
                endpoint: connection@,
                transaction: transaction.bytes@,
            },
            Operation::ReadingColor { binding } => OperationView::ReadingColor {
                binding: binding@,
            },
            Operation::Finished => OperationView::Finished,
        }
    }
}

/// The binding that a valid key, chain, endpoint and contract address give.
pub open spec fn binding_of(
    key: Seq<u8>,
    chain_id: u64,
    contract_address: Seq<char>,
    endpoint: Seq<char>,
) -> BindingView {
    BindingView {
        client: ClientView { endpoint, identity: identity_of(key, chain_id) },
        contract: address_of_text(contract_address),
    }
}

/// How `get_balance` begins: the address is read first, then the
/// connection is opened.
pub open spec fn balance_request(user_address: Seq<char>, endpoint: Seq<char>) -> Result<
    OperationView,
    BridgeError,
> {
    if !is_address_text(user_address) {
        Err(BridgeError::InvalidAddress)
    } else if !endpoint_accepted(endpoint) {
        Err(BridgeError::EndpointUnreachableOrInvalid)
    } else {
        Ok(OperationView::FetchingBalance { endpoint, address: address_of_text(user_address) })
    }
}

/// The error, if any, of preparing a call of the contract: the identity
/// is derived first, then the connection is opened, then the contract's
/// address is read.
pub open spec fn binding_error(
    key: Seq<u8>,
    contract_address: Seq<char>,
    endpoint: Seq<char>,
) -> Option<BridgeError> {
    if !is_secret_scalar(key) {
        Some(BridgeError::InvalidKeyMaterial)
    } else if !endpoint_accepted(endpoint) {
        Some(BridgeError::EndpointUnreachableOrInvalid)
    } else if !is_address_text(contract_address) {
        Some(BridgeError::InvalidAddress)
    } else {
        None
    }
}

/// How `send_color` begins.
pub open spec fn color_write_request(
    key: Seq<u8>,
    chain_id: u64,
    contract_address: Seq<char>,
    endpoint: Seq<char>,
    color: Color,
) -> Result<OperationView, BridgeError> {
    match binding_error(key, contract_address, endpoint) {
        Some(e) => Err(e),
        None => Ok(
            OperationView::Submitting {
                binding: binding_of(key, chain_id, contract_address, endpoint),
                color,
            },
        ),
    }
}

/// How `get_color` begins.
pub open spec fn color_read_request(
    key: Seq<u8>,
    chain_id: u64,
    contract_address: Seq<char>,
    endpoint: Seq<char>,
) -> Result<OperationView, BridgeError> {
    match binding_error(key, contract_address, endpoint) {
        Some(e) => Err(e),
        None => Ok(
            OperationView::ReadingColor {
                binding: binding_of(key, chain_id, contract_address, endpoint),
            },
        ),
    }
}

/// Whether a begun operation is the one that the request describes, or
/// the refusal is the one that the request describes.
pub open spec fn begins_as(
    begun: Result<Operation, BridgeError>,
    request: Result<OperationView, BridgeError>,
) -> bool {
    match begun {
        Ok(operation) => request == Ok::<OperationView, BridgeError>(operation@),
        Err(e) => request == Err::<OperationView, BridgeError>(e),
    }
}

/// The state that follows when `event` is reported to an operation.
pub open spec fn next_state(operation: OperationView, event: Event) -> OperationView {
    match (operation, event) {
        (OperationView::Submitting { binding, .. }, Event::TransactionBroadcast(transaction)) => {
            OperationView::Confirming {
                endpoint: binding.client.endpoint,
                transaction: transaction.bytes@,
            }
        },
        _ => OperationView::Finished,
    }
}

/// What is to be done when `event` is reported to an operation.
///
/// Each kind of work has one event that carries its success; any other
/// event is the failure of that work. An operation that has ended asks
/// for nothing more.
pub open spec fn next_action(operation: OperationView, event: Event) -> ActionView {
    match operation {
        OperationView::FetchingBalance { .. } => match event {
            Event::BalanceFetched(balance) => ActionView::Succeed(
                Some(HostCallView { handler: Handler::SetBalance, payload: decimal_text(balance@) }),
            ),
            _ => ActionView::Fail(BridgeError::RpcError),
        },
        OperationView::ReadingColor { .. } => match event {
            Event::ColorRead(color) => ActionView::Succeed(
                Some(HostCallView { handler: Handler::SetColor, payload: color_payload_text(color) }),
            ),
            _ => ActionView::Fail(BridgeError::RpcError),
        },
        OperationView::Submitting { .. } => match event {
            Event::TransactionBroadcast(_) => ActionView::Proceed,
            _ => ActionView::Fail(BridgeError::SubmissionError),
        },
        OperationView::Confirming { .. } => match event {
            Event::Confirmation(Some(receipt)) => if status_is_success(receipt.status) {
                ActionView::Succeed(None)
            } else {
                ActionView::Fail(BridgeError::ConfirmationError)
            },
            _ => ActionView::Fail(BridgeError::ConfirmationError),
        },
        OperationView::Finished => ActionView::Nothing,
    }
}

impl Operation {
    /// Begins `get_balance`: reads the address, then opens the connection.
    ///
    /// On an error nothing was sent and no operation exists.
    pub fn begin_get_balance(user_address: &str, endpoint: &str) -> (r: Result<
        Operation,
        BridgeError,
    >)
        ensures
            begins_as(r, balance_request(user_address@, endpoint@)),
    {
        let address = match parse_address(user_address) {
            Ok(address) => address,
            Err(e) => {
                return Err(e);
            },
        };
        match connect(endpoint) {
            Ok(connection) => Ok(Operation::FetchingBalance { connection, address }),
            Err(e) => Err(e),
        }
    }

    /// Begins `send_color`: derives the identity, opens the connection,
    /// binds the contract.
    ///
    /// On an error nothing was sent and no operation exists.
    pub fn begin_send_color(
        raw_key: &[u8],
        chain_id: u64,
        contract_address: &str,
        endpoint: &str,
        color: Color,
    ) -> (r: Result<Operation, BridgeError>)
        ensures
            begins_as(
                r,
                color_write_request(raw_key@, chain_id, contract_address@, endpoint@, color),
            ),
    {
        match prepare_binding(raw_key, chain_id, contract_address, endpoint) {
            Ok(binding) => Ok(Operation::Submitting { binding, color }),
            Err(e) => Err(e),
        }
    }

    /// Begins `get_color`: derives the identity, opens the connection,
    /// binds the contract.
    ///
    /// On an error nothing was sent and no operation exists.
    pub fn begin_get_color(
        raw_key: &[u8],
        chain_id: u64,
        contract_address: &str,
        endpoint: &str,
    ) -> (r: Result<Operation, BridgeError>)
        ensures
            begins_as(r, color_read_request(raw_key@, chain_id, contract_address@, endpoint@)),
    {
        match prepare_binding(raw_key, chain_id, contract_address, endpoint) {
            Ok(binding) => Ok(Operation::ReadingColor { binding }),
            Err(e) => Err(e),
        }
    }

    /// Whether the operation has ended.
    pub fn is_finished(&self) -> (r: bool)
        ensures
            r == (self@ == OperationView::Finished),
    {
        match self {
            Operation::Finished => true,
            _ => false,
        }
    }

    /// Takes the report of the work that was due and says what follows.
    pub fn advance(self, event: Event) -> (r: (Operation, Action))
        ensures
            r.0@ == next_state(self@, event),
            r.1@ == next_action(self@, event),
    {
        match self {
            Operation::FetchingBalance { .. } => match event {
                Event::BalanceFetched(balance) => {
                    let call = HostCall {
                        handler: Handler::SetBalance,
                        payload: balance.to_decimal_string(),
                    };
                    (Operation::Finished, Action::Succeed(Some(call)))
                },
                _ => (Operation::Finished, Action::Fail(BridgeError::RpcError)),
            },
            Operation::ReadingColor { .. } => match event {
                Event::ColorRead(color) => {
                    let call = HostCall { handler: Handler::SetColor, payload: color.to_payload() };
                    (Operation::Finished, Action::Succeed(Some(call)))
                },
                _ => (Operation::Finished, Action::Fail(BridgeError::RpcError)),
            },
            Operation::Submitting { binding, .. } => match event {
                Event::TransactionBroadcast(transaction) => (
                    Operation::Confirming { connection: binding.into_connection(), transaction },
                    Action::Proceed,
                ),
                _ => (Operation::Finished, Action::Fail(BridgeError::SubmissionError)),
            },
            Operation::Confirming { .. } => match event {
                Event::Confirmation(Some(receipt)) => if receipt.succeeded() {
                    (Operation::Finished, Action::Succeed(None))
                } else {
                    (Operation::Finished, Action::Fail(BridgeError::ConfirmationError))
                },
                _ => (Operation::Finished, Action::Fail(BridgeError::ConfirmationError)),
            },
            Operation::Finished => (Operation::Finished, Action::Nothing),
        }
    }
}

/// Prepares a call of the contract: derives the identity, opens the
/// connection, pairs the two and binds the contract, in that order, and
/// stops at the first step that fails.
pub fn prepare_binding(
    raw_key: &[u8],
    chain_id: u64,
    contract_address: &str,
    endpoint: &str,
) -> (r: Result<ContractBinding, BridgeError>)
    ensures
        match r {
            Ok(binding) => binding_error(raw_key@, contract_address@, endpoint@) is None
                && binding@ == binding_of(raw_key@, chain_id, contract_address@, endpoint@),
            Err(e) => binding_error(raw_key@, contract_address@, endpoint@) == Some(e),
        },
{
    let identity = match derive_identity(raw_key, chain_id) {
        Ok(identity) => identity,
        Err(e) => {
            return Err(e);
        },
    };
    let connection = match connect(endpoint) {
        Ok(connection) => connection,
        Err(e) => {
            return Err(e);
        },
    };
    bind(bind_signer(connection, identity), contract_address)
}

/// The secret key that an operation holds, where it holds one.
pub open spec fn secret_held(operation: OperationView) -> Option<Seq<u8>> {
    match operation {
        OperationView::Submitting { binding, .. } => Some(binding.client.identity.secret),
        OperationView::ReadingColor { binding } => Some(binding.client.identity.secret),
        _ => None,
    }
}

/// The state of an operation after a run of `events` was reported to it,
/// one after the other.
pub open spec fn state_after(operation: OperationView, events: Seq<Event>) -> OperationView
    decreases events.len(),
{
    if events.len() == 0 {
        operation
    } else {
        state_after(next_state(operation, events[0]), events.drop_first())
    }
}

/// How many host calls a run of `events` through `operation` asks for.
pub open spec fn host_calls(operation: OperationView, events: Seq<Event>) -> nat
    decreases events.len(),
{
    if events.len() == 0 {
        0
    } else {
        let rest = host_calls(next_state(operation, events[0]), events.drop_first());
        if next_action(operation, events[0]) matches ActionView::Succeed(Some(_)) {
            1 + rest
        } else {
            rest
        }
    }
}

/// Whether a run of `events` through `operation` meets a failure.
pub open spec fn fails_along(operation: OperationView, events: Seq<Event>) -> bool
    decreases events.len(),
{
    if events.len() == 0 {
        false
    } else {
        next_action(operation, events[0]) is Fail || fails_along(
            next_state(operation, events[0]),
            events.drop_first(),
        )
    }
}

/// An endpoint that no provider accepts begins no operation, whatever the
/// other arguments are, so nothing is ever sent for it. The error is
/// `EndpointUnreachableOrInvalid` wherever the arguments that are checked
/// before the endpoint are valid: the address for `get_balance`, the key
/// for `send_color` and `get_color`.
pub proof fn lemma_malformed_endpoint_begins_nothing(
    key: Seq<u8>,
    chain_id: u64,
    user_address: Seq<char>,
    contract_address: Seq<char>,
    endpoint: Seq<char>,
    color: Color,
)
    requires
        !endpoint_accepted(endpoint),
    ensures
        balance_request(user_address, endpoint) is Err,
        color_write_request(key, chain_id, contract_address, endpoint, color) is Err,
        color_read_request(key, chain_id, contract_address, endpoint) is Err,
        is_address_text(user_address) ==> balance_request(user_address, endpoint) == Err::<
            OperationView,
            BridgeError,
        >(BridgeError::EndpointUnreachableOrInvalid),
        is_secret_scalar(key) ==> color_write_request(
            key,
            chain_id,
            contract_address,
            endpoint,
            color,
        ) == Err::<OperationView, BridgeError>(BridgeError::EndpointUnreachableOrInvalid),
        is_secret_scalar(key) ==> color_read_request(key, chain_id, contract_address, endpoint)
            == Err::<OperationView, BridgeError>(BridgeError::EndpointUnreachableOrInvalid),
{
}

/// An operation keeps no secret past the first report: whatever the state
/// and the event, the state that follows holds no key. An action that
/// ends the operation leaves it `Finished`, and one that does not leaves
/// it waiting for inclusion on the connection it had.
pub proof fn lemma_no_secret_after_report(operation: OperationView, event: Event)
    ensures
        secret_held(next_state(operation, event)) is None,
        next_action(operation, event) is Succeed || next_action(operation, event) is Fail
            || next_action(operation, event) is Nothing ==> next_state(operation, event)
            == OperationView::Finished,
        next_action(operation, event) is Proceed ==> next_state(operation, event) is Confirming
            && operation is Submitting,
{
}

/// An operation that has ended stays ended and asks for nothing.
pub proof fn lemma_finished_is_final(events: Seq<Event>)
    ensures
        host_calls(OperationView::Finished, events) == 0,
        !fails_along(OperationView::Finished, events),
    decreases events.len(),
{
    if events.len() > 0 {
        lemma_finished_is_final(events.drop_first());
    }
}

/// The host is called at most once in the life of an operation, whatever
/// is reported to it and however often; and an operation that fails at any
/// point has not called the host and never will.
pub proof fn lemma_host_called_at_most_once(operation: OperationView, events: Seq<Event>)
    ensures
        host_calls(operation, events) <= 1,
        fails_along(operation, events) ==> host_calls(operation, events) == 0,
    decreases events.len(),
{
    if events.len() > 0 {
        let next = next_state(operation, events[0]);
        let rest = events.drop_first();
        lemma_no_secret_after_report(operation, events[0]);
        if next == OperationView::Finished {
            lemma_finished_is_final(rest);
        } else {
            lemma_host_called_at_most_once(next, rest);
        }
    }
}

/// What is written is what was asked for, and what the host is told is
/// what was read: `send_color` hands the chain exactly the color it was
/// given, and `get_color` hands the host exactly the text of the color
/// that the contract returned.
pub proof fn lemma_color_passes_unchanged(
    key: Seq<u8>,
    chain_id: u64,
    contract_address: Seq<char>,
    endpoint: Seq<char>,
    color: Color,
)
    requires
        binding_error(key, contract_address, endpoint) is None,
    ensures
        color_write_request(key, chain_id, contract_address, endpoint, color) matches Ok(
            OperationView::Submitting { color: written, .. },
        ) && written == color,
        color_read_request(key, chain_id, contract_address, endpoint) matches Ok(reading)
            && next_action(reading, Event::ColorRead(color)) == ActionView::Succeed(
            Some(HostCallView { handler: Handler::SetColor, payload: color_payload_text(color) }),
        ),
{
}

} // verus!

use vstd::prelude::*;

verus! {

/// Why an operation of the bridge failed.
///
/// Every failure is local to the operation that met it; the bridge never
/// retries on its own.
#[derive(Clone, Copy, Debug, PartialEq, Eq, Structural)]
pub enum BridgeError {
    /// The secret bytes are not a valid secret scalar of the curve.
    InvalidKeyMaterial,
    /// An address given as text could not be parsed.
    InvalidAddress,
    /// The endpoint text is no usable URL, so no provider could be built.
    EndpointUnreachableOrInvalid,
    /// A read-only round trip to the provider failed.
    RpcError,
    /// A transaction could not be signed or broadcast.
    SubmissionError,
    /// A transaction was broadcast but was dropped, reverted or could not
    /// be followed to inclusion.
    ConfirmationError,
    /// The executor could not be built; fatal for the session.
    ExecutorInitError,
}

/// The name by which the host is told of an error.
pub open spec fn error_name(error: BridgeError) -> Seq<char> {
    match error {
        BridgeError::InvalidKeyMaterial => "InvalidKeyMaterial"@,
        BridgeError::InvalidAddress => "InvalidAddress"@,
        BridgeError::EndpointUnreachableOrInvalid => "EndpointUnreachableOrInvalid"@,
        BridgeError::RpcError => "RpcError"@,
        BridgeError::SubmissionError => "SubmissionError"@,
        BridgeError::ConfirmationError => "ConfirmationError"@,
        BridgeError::ExecutorInitError => "ExecutorInitError"@,
    }
}

impl BridgeError {
    /// The name by which the host is told of the error: never empty, and
    /// different for each error.
    pub fn name(&self) -> (r: &'static str)
        ensures
            r@ == error_name(*self),
    {
        match self {
            BridgeError::InvalidKeyMaterial => "InvalidKeyMaterial",
            BridgeError::InvalidAddress => "InvalidAddress",
            BridgeError::EndpointUnreachableOrInvalid => "EndpointUnreachableOrInvalid",
            BridgeError::RpcError => "RpcError",
            BridgeError::SubmissionError => "SubmissionError",
            BridgeError::ConfirmationError => "ConfirmationError",
            BridgeError::ExecutorInitError => "ExecutorInitError",
        }
    }

    /// Whether the error ends the session: only the failure to build the
    /// executor does. Every other error ends one operation.
    pub fn is_fatal(&self) -> (r: bool)
        ensures
            r == (*self == BridgeError::ExecutorInitError),
    {
        match self {
            BridgeError::ExecutorInitError => true,
            _ => false,
        }
    }
}

/// The host can tell every failure from every other, and from a blank:
/// no name is empty, and two errors with the same name are the same error.
pub proof fn lemma_error_names_differ(a: BridgeError, b: BridgeError)
    ensures
        error_name(a).len() > 0,
        error_name(a) == error_name(b) ==> a == b,
{
    reveal_strlit("InvalidKeyMaterial");
    reveal_strlit("InvalidAddress");
    reveal_strlit("EndpointUnreachableOrInvalid");
    reveal_strlit("RpcError");
    reveal_strlit("SubmissionError");
    reveal_strlit("ConfirmationError");
    reveal_strlit("ExecutorInitError");
    if error_name(a) == error_name(b) {
        assert(error_name(a).len() == error_name(b).len());
        assert(error_name(a)[0] == error_name(b)[0]);
    }
}

} // verus!

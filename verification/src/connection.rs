//! The chain connection and what is composed on it: a signing client and
//! a binding to the color contract. All of them live for one operation.

use vstd::prelude::*;
use vstd::string::*;
use crate::address::{address_of_text, is_address_text, parse_address, Address};
use crate::error::BridgeError;
use crate::identity::{IdentityView, SigningIdentity};

verus! {

/// Whether an HTTP provider can be built for the endpoint `endpoint`,
/// that is whether the text is a URL.
pub uninterp spec fn endpoint_accepted(endpoint: Seq<char>) -> bool;

/// `Provider::<Http>::try_from(&str)`: parses the text as a URL and builds
/// an HTTP provider for it, without any traffic. Says whether that
/// succeeded, which depends on the text alone; the provider is dropped.
#[verifier::external_body]
fn provider_builds(endpoint: &str) -> (r: bool)
    ensures
        r == endpoint_accepted(endpoint@),
{
    ethers::providers::Provider::<ethers::providers::Http>::try_from(endpoint).is_ok()
}

/// A connection to one RPC endpoint, made for one operation. Its view is
/// the endpoint's text, which is always one that a provider accepts.
pub struct ChainConnection {
    endpoint: String,
}

impl View for ChainConnection {
    type V = Seq<char>;

    closed spec fn view(&self) -> Seq<char> {
        self.endpoint@
    }
}

impl ChainConnection {
    #[verifier::type_invariant]
    spec fn well_formed(self) -> bool {
        endpoint_accepted(self.endpoint@)
    }

    /// The endpoint that the connection is bound to.
    pub fn endpoint(&self) -> (r: &str)
        ensures
            r@ == self@,
            endpoint_accepted(r@),
    {
        proof {
            use_type_invariant(self);
        }
        self.endpoint.as_str()
    }
}

/// Opens a connection to `endpoint`.
///
/// Fails with `EndpointUnreachableOrInvalid` exactly when no provider can
/// be built for the text. The failure is found here, before any traffic.
pub fn connect(endpoint: &str) -> (r: Result<ChainConnection, BridgeError>)
    ensures
        r is Ok <==> endpoint_accepted(endpoint@),
        r matches Ok(connection) ==> connection@ == endpoint@,
        r matches Err(e) ==> e == BridgeError::EndpointUnreachableOrInvalid,
{
    if provider_builds(endpoint) {
        Ok(ChainConnection { endpoint: String::from_str(endpoint) })
    } else {
        Err(BridgeError::EndpointUnreachableOrInvalid)
    }
}

/// A connection paired with the identity that signs on it.
pub struct SigningClient {
    connection: ChainConnection,
    identity: SigningIdentity,
}

/// What a signing client holds.
pub struct ClientView {
    pub endpoint: Seq<char>,
    pub identity: IdentityView,
}

impl View for SigningClient {
    type V = ClientView;

    closed spec fn view(&self) -> ClientView {
        ClientView { endpoint: self.connection@, identity: self.identity@ }
    }
}

/// Pairs `connection` with `identity`. Nothing is sent.
pub fn bind_signer(connection: ChainConnection, identity: SigningIdentity) -> (r: SigningClient)
    ensures
        r@ == (ClientView { endpoint: connection@, identity: identity@ }),
{
    SigningClient { connection, identity }
}

impl SigningClient {
    /// The connection of the client.
    pub fn connection(&self) -> (r: &ChainConnection)
        ensures
            r@ == self@.endpoint,
    {
        &self.connection
    }

    /// The identity that signs for the client.
    pub fn identity(&self) -> (r: &SigningIdentity)
        ensures
            r@ == self@.identity,
    {
        &self.identity
    }

    /// Gives up the identity and keeps the connection.
    pub fn into_connection(self) -> (r: ChainConnection)
        ensures
            r@ == self@.endpoint,
    {
        self.connection
    }
}

/// A signing client bound to the color contract at one address.
pub struct ContractBinding {
    client: SigningClient,
    contract: Address,
}

/// What a contract binding holds.
pub struct BindingView {
    pub client: ClientView,
    pub contract: Seq<u8>,
}

impl View for ContractBinding {
    type V = BindingView;

    closed spec fn view(&self) -> BindingView {
        BindingView { client: self.client@, contract: self.contract@ }
    }
}

/// Binds `client` to the contract whose address `contract_address` spells.
///
/// Fails with `InvalidAddress` exactly when the text spells no address.
pub fn bind(client: SigningClient, contract_address: &str) -> (r: Result<
    ContractBinding,
    BridgeError,
>)
    ensures
        r is Ok <==> is_address_text(contract_address@),
        r matches Ok(binding) ==> binding@ == (BindingView {
            client: client@,
            contract: address_of_text(contract_address@),
        }),
        r matches Err(e) ==> e == BridgeError::InvalidAddress,
{
    match parse_address(contract_address) {
        Ok(contract) => Ok(ContractBinding { client, contract }),
        Err(e) => Err(e),
    }
}

impl ContractBinding {
    /// The client that calls the contract.
    pub fn client(&self) -> (r: &SigningClient)
        ensures
            r@ == self@.client,
    {
        &self.client
    }

    /// The address of the contract.
    pub fn contract(&self) -> (r: Address)
        ensures
            r@ == self@.contract,
    {
        self.contract
    }

    /// Gives up the identity and the contract and keeps the connection.
    pub fn into_connection(self) -> (r: ChainConnection)
        ensures
            r@ == self@.client.endpoint,
    {
        self.client.into_connection()
    }
}

} // verus!

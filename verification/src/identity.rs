//! Key derivation: from raw secret bytes to a signing identity bound to
//! one chain, and to the address that the identity shows.

use vstd::prelude::*;
use vstd::slice::slice_to_vec;
use crate::address::{display_text, Address, DisplayForm};
use crate::error::BridgeError;

verus! {

/// Number of bytes in a secret key.
pub const SECRET_KEY_LEN: usize = 32;

/// Chain identifier of the Sepolia test network: the chain to which
/// `get_address` binds the identity it derives.
pub const DEFAULT_CHAIN_ID: u64 = 11155111;

/// The error of `ethers::signers::LocalWallet::from_bytes`. Nothing is
/// read from it: every such error becomes `InvalidKeyMaterial`.
#[verifier::external_type_specification]
#[verifier::external_body]
pub struct ExWalletError(ethers::signers::WalletError);

/// The natural number that `bytes` spell, most significant byte first.
pub open spec fn be_value(bytes: Seq<u8>) -> nat
    decreases bytes.len(),
{
    if bytes.len() == 0 {
        0
    } else {
        be_value(bytes.drop_last()) * 256 + bytes.last() as nat
    }
}

/// Order of the group of the curve secp256k1.
pub open spec fn curve_order() -> nat {
    0xFFFFFFFFFFFFFFFFFFFFFFFFFFFFFFFEBAAEDCE6AF48A03BBFD25E8CD0364141nat
}

/// Whether `key` is a valid secret scalar: thirty-two bytes that spell a
/// number above zero and below the order of the curve.
pub open spec fn is_secret_scalar(key: Seq<u8>) -> bool {
    key.len() == SECRET_KEY_LEN && 0 < be_value(key) < curve_order()
}

/// The twenty bytes of the address that belongs to the secret scalar
/// `key`: the end of the Keccak-256 hash of the public key.
pub uninterp spec fn wallet_address(key: Seq<u8>) -> Seq<u8>;

/// `LocalWallet::from_bytes`, and the address that it stored in the wallet.
/// The call accepts a key exactly when it is a secret scalar; the address
/// depends on the key alone. It panics on a slice of another length than
/// thirty-two, which `requires` keeps out.
#[verifier::external_body]
fn wallet_address_from_bytes(key: &[u8]) -> (r: Result<[u8; 20], ethers::signers::WalletError>)
    requires
        key@.len() == SECRET_KEY_LEN,
    ensures
        r is Ok <==> is_secret_scalar(key@),
        r matches Ok(bytes) ==> bytes@ == wallet_address(key@),
{
    let wallet = ethers::signers::LocalWallet::from_bytes(key)?;
    Ok(ethers::signers::Signer::address(&wallet).0)
}

/// A secret key bound to one chain, with the address derived from it.
///
/// An identity exists only for a valid secret scalar, and its address is
/// always the one that belongs to that scalar.
pub struct SigningIdentity {
    secret: Vec<u8>,
    chain_id: u64,
    address: Address,
}

/// What a signing identity holds.
pub struct IdentityView {
    pub secret: Seq<u8>,
    pub chain_id: u64,
    pub address: Seq<u8>,
}

/// The identity that a valid `key` gives on the chain `chain_id`.
pub open spec fn identity_of(key: Seq<u8>, chain_id: u64) -> IdentityView {
    IdentityView { secret: key, chain_id, address: wallet_address(key) }
}

impl View for SigningIdentity {
    type V = IdentityView;

    closed spec fn view(&self) -> IdentityView {
        IdentityView { secret: self.secret@, chain_id: self.chain_id, address: self.address@ }
    }
}

impl SigningIdentity {
    #[verifier::type_invariant]
    spec fn well_formed(self) -> bool {
        is_secret_scalar(self.secret@) && self.address@ == wallet_address(self.secret@)
    }

    /// The chain to which the identity is bound.
    pub fn chain_id(&self) -> (r: u64)
        ensures
            r == self@.chain_id,
    {
        self.chain_id
    }

    /// The address of the identity: the one that belongs to its secret.
    pub fn address(&self) -> (r: Address)
        ensures
            r@ == self@.address,
            r@ == wallet_address(self@.secret),
    {
        proof {
            use_type_invariant(self);
        }
        self.address
    }

    /// The secret scalar, thirty-two bytes, most significant first.
    pub fn secret(&self) -> (r: &[u8])
        ensures
            r@ == self@.secret,
            is_secret_scalar(r@),
    {
        proof {
            use_type_invariant(self);
        }
        self.secret.as_slice()
    }
}

/// Derives the signing identity of `raw_key` on the chain `chain_id`.
///
/// Succeeds exactly when `raw_key` is a valid secret scalar; any other
/// length or value is `InvalidKeyMaterial`. The same key gives the same
/// address on every chain.
pub fn derive_identity(raw_key: &[u8], chain_id: u64) -> (r: Result<SigningIdentity, BridgeError>)
    ensures
        r is Ok <==> is_secret_scalar(raw_key@),
        r matches Ok(identity) ==> identity@ == identity_of(raw_key@, chain_id),
        r matches Err(e) ==> e == BridgeError::InvalidKeyMaterial,
{
    if raw_key.len() != SECRET_KEY_LEN {
        return Err(BridgeError::InvalidKeyMaterial);
    }
    match wallet_address_from_bytes(raw_key) {
        Ok(bytes) => Ok(
            SigningIdentity {
                secret: slice_to_vec(raw_key),
                chain_id,
                address: Address::from_bytes(bytes),
            },
        ),
        Err(_) => Err(BridgeError::InvalidKeyMaterial),
    }
}

/// The address of `identity` as text, in the given form.
pub fn derive_display_address(identity: &SigningIdentity, form: DisplayForm) -> (r: String)
    ensures
        r@ == display_text(identity@.address, form),
        r@ == display_text(wallet_address(identity@.secret), form),
{
    identity.address().to_display(form)
}

/// The short display address of `raw_key`, bound to the default chain.
///
/// Fails with `InvalidKeyMaterial` exactly when `raw_key` is no valid
/// secret scalar.
pub fn get_address(raw_key: &[u8]) -> (r: Result<String, BridgeError>)
    ensures
        r is Ok <==> is_secret_scalar(raw_key@),
        r matches Ok(shown) ==> shown@ == display_text(
            wallet_address(raw_key@),
            DisplayForm::Short,
        ),
        r matches Err(e) ==> e == BridgeError::InvalidKeyMaterial,
{
    match derive_identity(raw_key, DEFAULT_CHAIN_ID) {
        Ok(identity) => Ok(derive_display_address(&identity, DisplayForm::Short)),
        Err(e) => Err(e),
    }
}

/// Derivation is a function of the key: whatever the chain, the same key
/// gives the same address and the same display text in each form, while
/// identities of one key on two chains differ.
pub proof fn lemma_derivation_deterministic(
    key: Seq<u8>,
    chain_a: u64,
    chain_b: u64,
    form: DisplayForm,
)
    ensures
        identity_of(key, chain_a).address == identity_of(key, chain_b).address,
        display_text(identity_of(key, chain_a).address, form) == display_text(
            identity_of(key, chain_b).address,
            form,
        ),
        chain_a != chain_b ==> identity_of(key, chain_a) != identity_of(key, chain_b),
{
}

} // verus!

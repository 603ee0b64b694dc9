//! Balances: amounts of the chain's base unit, up to 256 bits wide, shown
//! to the host as decimal text so that no digit is lost.

use vstd::prelude::*;
use crate::text::{
    decimal_text,
    decimal_value,
    is_decimal_text,
    lemma_decimal_no_leading_zero,
    lemma_decimal_round_trip,
};

verus! {

/// The number that four 64-bit limbs spell, least significant limb first.
pub open spec fn limbs_value(limbs: Seq<u64>) -> nat {
    (limbs[0] as nat) + (limbs[1] as nat) * 0x1_0000_0000_0000_0000nat + (limbs[2] as nat)
        * 0x1_0000_0000_0000_0000_0000_0000_0000_0000nat + (limbs[3] as nat)
        * 0x1_0000_0000_0000_0000_0000_0000_0000_0000_0000_0000_0000_0000nat
}

/// `ToString` of `ethers::types::U256`, that is its `Display`: the number
/// in decimal digits, without sign or leading zero, `0` for zero. The
/// limbs are taken least significant first, as the type stores them.
#[verifier::external_body]
fn u256_decimal(limbs: &[u64; 4]) -> (r: String)
    ensures
        r@ == decimal_text(limbs_value(limbs@)),
{
    ethers::types::U256(*limbs).to_string()
}

/// An amount of the chain's base unit held by an address. Its view is the
/// amount as a natural number; no conversion to a larger unit is made.
#[derive(Clone, Copy, Debug)]
pub struct Balance {
    limbs: [u64; 4],
}

impl View for Balance {
    type V = nat;

    closed spec fn view(&self) -> nat {
        limbs_value(self.limbs@)
    }
}

impl Balance {
    /// The balance that four 64-bit limbs spell, least significant first.
    pub fn from_limbs(limbs: [u64; 4]) -> (r: Balance)
        ensures
            r@ == limbs_value(limbs@),
    {
        Balance { limbs }
    }

    /// The balance of `amount` base units.
    pub fn from_u128(amount: u128) -> (r: Balance)
        ensures
            r@ == amount,
    {
        let low: u64 = (amount & 0xFFFF_FFFF_FFFF_FFFF) as u64;
        let high: u64 = (amount >> 64) as u64;
        assert(amount == (amount & 0xFFFF_FFFF_FFFF_FFFF) + (amount >> 64)
            * 0x1_0000_0000_0000_0000) by (bit_vector);
        assert((amount & 0xFFFF_FFFF_FFFF_FFFF) <= 0xFFFF_FFFF_FFFF_FFFF) by (bit_vector);
        assert((amount >> 64) <= 0xFFFF_FFFF_FFFF_FFFF) by (bit_vector);
        let limbs: [u64; 4] = [low, high, 0, 0];
        Balance { limbs }
    }

    /// The four limbs of the balance, least significant first.
    pub fn limbs(&self) -> (r: [u64; 4])
        ensures
            limbs_value(r@) == self@,
    {
        self.limbs
    }

    /// The balance as decimal text, at full precision.
    ///
    /// The text holds digits only, starts with no zero unless the balance
    /// is zero, and reads back as exactly the balance.
    pub fn to_decimal_string(&self) -> (r: String)
        ensures
            r@ == decimal_text(self@),
            is_decimal_text(r@),
            decimal_value(r@) == self@,
            r@.len() >= 1,
            r@[0] == '0' <==> self@ == 0,
    {
        proof {
            lemma_decimal_round_trip(self@);
            lemma_decimal_no_leading_zero(self@);
        }
        u256_decimal(&self.limbs)
    }
}

} // verus!
